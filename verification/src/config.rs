//! The configuration: profiles, remote settings, sync interval, detection rules.

use vstd::prelude::*;
use crate::assoc::{
    assoc, distinct_keys, has_key, lemma_assoc_dom, lemma_assoc_push, lemma_assoc_remove,
    lemma_assoc_update, lemma_assoc_value,
};
use crate::detect::{rules_of, ProfileDetectionConfig, RuleView};
use crate::error::{ConfigProblem, SyncError};

verus! {

/// Where the tracked files are mirrored to, and the token that authorises it.
#[derive(Clone, Debug, PartialEq, Eq)]
pub struct RemoteConfig {
    pub github_repo: String,
    pub github_token: String,
}

/// One tracked file: its path relative to the home directory and the
/// canonical path of its source.
#[derive(Clone, Debug, PartialEq, Eq)]
pub struct TrackedFile {
    pub relative_path: String,
    pub source_path: String,
}

impl View for TrackedFile {
    type V = (Seq<char>, Seq<char>);

    open spec fn view(&self) -> (Seq<char>, Seq<char>) {
        (self.relative_path@, self.source_path@)
    }
}

/// A profile as contracts see it.
pub struct ProfileView {
    /// The tracked files, relative path first, in the order in which a sync
    /// pass visits them.
    pub entries: Seq<(Seq<char>, Seq<char>)>,
    pub ignore_patterns: Seq<Seq<char>>,
    pub use_symlinks: bool,
}

impl ProfileView {
    /// The tracked files as a mapping from relative path to source path.
    pub open spec fn files(self) -> Map<Seq<char>, Seq<char>> {
        assoc(self.entries)
    }

    /// No relative path is tracked twice.
    pub open spec fn wf(self) -> bool {
        distinct_keys(self.entries)
    }
}

/// The files, ignore patterns and deploy strategy of one profile.  No
/// relative path is tracked twice.
#[derive(Debug)]
pub struct ProfileConfig {
    files: Vec<TrackedFile>,
    ignore_patterns: Vec<String>,
    use_symlinks: bool,
}

/// The views of a vector of strings.
pub open spec fn strings_view(v: Seq<String>) -> Seq<Seq<char>> {
    v.map_values(|s: String| s@)
}

/// The views of a vector of tracked files.
pub open spec fn files_view(v: Seq<TrackedFile>) -> Seq<(Seq<char>, Seq<char>)> {
    v.map_values(|f: TrackedFile| f@)
}

impl View for ProfileConfig {
    type V = ProfileView;

    closed spec fn view(&self) -> ProfileView {
        ProfileView {
            entries: files_view(self.files@),
            ignore_patterns: strings_view(self.ignore_patterns@),
            use_symlinks: self.use_symlinks,
        }
    }
}

impl ProfileConfig {
    #[verifier::type_invariant]
    spec fn inv(&self) -> bool {
        distinct_keys(files_view(self.files@))
    }

    /// A profile that tracks no file.
    pub fn new(ignore_patterns: Vec<String>, use_symlinks: bool) -> (r: ProfileConfig)
        ensures
            r@.entries == Seq::<(Seq<char>, Seq<char>)>::empty(),
            r@.ignore_patterns == strings_view(ignore_patterns@),
            r@.use_symlinks == use_symlinks,
            r@.wf(),
    {
        let r = ProfileConfig { files: Vec::new(), ignore_patterns, use_symlinks };
        assert(r@.entries =~= Seq::<(Seq<char>, Seq<char>)>::empty());
        r
    }

    /// The tracked files, in the order in which a sync pass visits them.
    pub fn files(&self) -> (r: &Vec<TrackedFile>)
        ensures
            files_view(r@) == self@.entries,
            self@.wf(),
    {
        proof {
            use_type_invariant(self);
        }
        &self.files
    }

    /// The substrings that make a path ineligible for deployment.
    pub fn ignore_patterns(&self) -> (r: &Vec<String>)
        ensures
            strings_view(r@) == self@.ignore_patterns,
    {
        &self.ignore_patterns
    }

    /// Whether files are deployed as symbolic links rather than copies.
    pub fn use_symlinks(&self) -> (r: bool)
        ensures
            r == self@.use_symlinks,
    {
        self.use_symlinks
    }

    /// The position of `relative_path` among the tracked files.
    fn position(&self, relative_path: &String) -> (r: Option<usize>)
        ensures
            match r {
                Some(i) => i < self.files@.len() && self.files@[i as int].relative_path@
                    == relative_path@,
                None => !has_key(files_view(self.files@), relative_path@),
            },
    {
        let mut i: usize = 0;
        while i < self.files.len()
            invariant
                i <= self.files@.len(),
                forall|j: int| 0 <= j < i ==> self.files@[j].relative_path@ != relative_path@,
            decreases self.files@.len() - i,
        {
            if self.files[i].relative_path == *relative_path {
                return Some(i);
            }
            i += 1;
        }
        assert(!has_key(files_view(self.files@), relative_path@)) by {
            if has_key(files_view(self.files@), relative_path@) {
                let j = choose|j: int|
                    0 <= j < files_view(self.files@).len() && (#[trigger] files_view(
                        self.files@,
                    )[j]).0 == relative_path@;
                assert(self.files@[j].relative_path@ == relative_path@);
            }
        }
        None
    }

    /// The source path tracked under `relative_path`, if there is one.
    pub fn source_of(&self, relative_path: &str) -> (r: Option<String>)
        ensures
            self@.wf(),
            match r {
                Some(s) => self@.files().dom().contains(relative_path@) && s@
                    == self@.files()[relative_path@],
                None => !self@.files().dom().contains(relative_path@),
            },
    {
        proof {
            use_type_invariant(self);
            lemma_assoc_dom(self@.entries, relative_path@);
        }
        let key = relative_path.to_string();
        match self.position(&key) {
            Some(i) => {
                proof {
                    lemma_assoc_value(self@.entries, i as int);
                }
                Some(self.files[i].source_path.clone())
            },
            None => None,
        }
    }

    /// Tracks `source_path` under `relative_path`, in place of whatever was
    /// tracked under that path before.
    pub fn insert_file(&mut self, relative_path: String, source_path: String)
        ensures
            final(self)@.wf(),
            final(self)@.files() == old(self)@.files().insert(relative_path@, source_path@),
            final(self)@.ignore_patterns == old(self)@.ignore_patterns,
            final(self)@.use_symlinks == old(self)@.use_symlinks,
    {
        proof {
            use_type_invariant(&*self);
        }
        let ghost before = files_view(self.files@);
        let ghost key = relative_path@;
        let ghost value = source_path@;
        let found = self.position(&relative_path);
        let mut files: Vec<TrackedFile> = Vec::new();
        std::mem::swap(&mut self.files, &mut files);
        match found {
            Some(i) => {
                files.set(i, TrackedFile { relative_path, source_path });
                proof {
                    lemma_assoc_update(before, i as int, value);
                    assert(files_view(files@) =~= before.update(i as int, (key, value)));
                }
            },
            None => {
                files.push(TrackedFile { relative_path, source_path });
                proof {
                    lemma_assoc_push(before, key, value);
                    assert(files_view(files@) =~= before.push((key, value)));
                }
            },
        }
        self.files = files;
    }

    /// Stops tracking `relative_path`; says whether it was tracked.
    pub fn remove_file(&mut self, relative_path: &str) -> (r: bool)
        ensures
            final(self)@.wf(),
            r == old(self)@.files().dom().contains(relative_path@),
            final(self)@.files() == old(self)@.files().remove(relative_path@),
            !r ==> final(self)@ == old(self)@,
            final(self)@.ignore_patterns == old(self)@.ignore_patterns,
            final(self)@.use_symlinks == old(self)@.use_symlinks,
    {
        proof {
            use_type_invariant(&*self);
            lemma_assoc_dom(self@.entries, relative_path@);
        }
        let ghost before = files_view(self.files@);
        let key = relative_path.to_string();
        match self.position(&key) {
            Some(i) => {
                let mut files: Vec<TrackedFile> = Vec::new();
                std::mem::swap(&mut self.files, &mut files);
                files.remove(i);
                proof {
                    lemma_assoc_remove(before, i as int);
                    assert(files_view(files@) =~= before.remove(i as int));
                }
                self.files = files;
                true
            },
            None => {
                assert(old(self)@.files().remove(relative_path@) =~= old(self)@.files());
                false
            },
        }
    }
}

/// A profile under its name.
#[derive(Debug)]
pub struct Profile {
    pub name: String,
    pub config: ProfileConfig,
}

impl View for Profile {
    type V = (Seq<char>, ProfileView);

    open spec fn view(&self) -> (Seq<char>, ProfileView) {
        (self.name@, self.config@)
    }
}

/// The views of a vector of named profiles.
pub open spec fn profiles_view(v: Seq<Profile>) -> Seq<(Seq<char>, ProfileView)> {
    v.map_values(|p: Profile| p@)
}

/// The configuration as contracts see it.
pub struct ConfigView {
    /// The profiles with their names, in the order in which the mirror visits
    /// them.
    pub profiles: Seq<(Seq<char>, ProfileView)>,
    pub github_repo: Seq<char>,
    pub github_token: Seq<char>,
    pub sync_interval: u64,
    pub detection: Option<Seq<RuleView>>,
}

impl ConfigView {
    /// The profiles as a mapping from name to profile.
    pub open spec fn profile_map(self) -> Map<Seq<char>, ProfileView> {
        assoc(self.profiles)
    }

    /// No profile name occurs twice.
    pub open spec fn wf(self) -> bool {
        distinct_keys(self.profiles)
    }

    /// `self` is `before` but for the tracked files of the profile `profile`,
    /// which are now `files`.
    pub open spec fn retracks(
        self,
        before: ConfigView,
        profile: Seq<char>,
        files: Map<Seq<char>, Seq<char>>,
    ) -> bool {
        &&& self.profile_map().dom() == before.profile_map().dom()
        &&& self.profile_map() == before.profile_map().insert(profile, self.profile_map()[profile])
        &&& self.profile_map()[profile].wf()
        &&& self.profile_map()[profile].files() == files
        &&& self.profile_map()[profile].ignore_patterns
            == before.profile_map()[profile].ignore_patterns
        &&& self.profile_map()[profile].use_symlinks == before.profile_map()[profile].use_symlinks
        &&& self.github_repo == before.github_repo
        &&& self.github_token == before.github_token
        &&& self.sync_interval == before.sync_interval
        &&& self.detection == before.detection
    }

    /// What validation answers: the first of the required fields that is
    /// missing or zero, in the order repository, token, interval.
    pub open spec fn validation(self) -> Result<(), SyncError> {
        if self.github_repo.len() == 0 {
            Err(SyncError::ConfigInvalid(ConfigProblem::MissingRepository))
        } else if self.github_token.len() == 0 {
            Err(SyncError::ConfigInvalid(ConfigProblem::MissingToken))
        } else if self.sync_interval == 0 {
            Err(SyncError::ConfigInvalid(ConfigProblem::ZeroInterval))
        } else {
            Ok(())
        }
    }
}

/// The configuration that is created where none exists yet: one profile
/// `default` that tracks nothing, ignores `.git` and `.gitignore` and copies
/// files; no remote; an interval of 300; no detection rules.
pub open spec fn default_config_view() -> ConfigView {
    ConfigView {
        profiles: seq![
            (
                "default"@,
                ProfileView {
                    entries: Seq::empty(),
                    ignore_patterns: seq![".git"@, ".gitignore"@],
                    use_symlinks: false,
                },
            ),
        ],
        github_repo: Seq::empty(),
        github_token: Seq::empty(),
        sync_interval: 300,
        detection: None,
    }
}

/// The aggregate configuration.  No profile name occurs twice.
#[derive(Debug)]
pub struct Config {
    profiles: Vec<Profile>,
    remote: RemoteConfig,
    sync_interval: u64,
    profile_detection: Option<ProfileDetectionConfig>,
}

impl View for Config {
    type V = ConfigView;

    closed spec fn view(&self) -> ConfigView {
        ConfigView {
            profiles: profiles_view(self.profiles@),
            github_repo: self.remote.github_repo@,
            github_token: self.remote.github_token@,
            sync_interval: self.sync_interval,
            detection: rules_of(self.profile_detection),
        }
    }
}

impl Config {
    #[verifier::type_invariant]
    spec fn inv(&self) -> bool {
        distinct_keys(profiles_view(self.profiles@))
    }

    /// A configuration without profiles.
    pub fn new(
        remote: RemoteConfig,
        sync_interval: u64,
        profile_detection: Option<ProfileDetectionConfig>,
    ) -> (r: Config)
        ensures
            r@.profiles == Seq::<(Seq<char>, ProfileView)>::empty(),
            r@.github_repo == remote.github_repo@,
            r@.github_token == remote.github_token@,
            r@.sync_interval == sync_interval,
            r@.detection == rules_of(profile_detection),
            r@.wf(),
    {
        let r = Config { profiles: Vec::new(), remote, sync_interval, profile_detection };
        assert(r@.profiles =~= Seq::<(Seq<char>, ProfileView)>::empty());
        r
    }

    /// The configuration that is created where none exists yet.
    pub fn default_config() -> (r: Config)
        ensures
            r@ == default_config_view(),
            r@.wf(),
    {
        let mut patterns: Vec<String> = Vec::new();
        patterns.push(".git".to_string());
        patterns.push(".gitignore".to_string());
        let profile = ProfileConfig::new(patterns, false);
        assert(profile@.ignore_patterns =~= seq![".git"@, ".gitignore"@]);
        let mut profiles: Vec<Profile> = Vec::new();
        profiles.push(Profile { name: "default".to_string(), config: profile });
        assert(profiles_view(profiles@) =~= default_config_view().profiles);
        Config {
            profiles,
            remote: RemoteConfig { github_repo: String::new(), github_token: String::new() },
            sync_interval: 300,
            profile_detection: None,
        }
    }

    /// Checks the fields that a remote mirror and a schedule need: a
    /// repository address, a token and an interval above zero.
    pub fn validate(&self) -> (r: Result<(), SyncError>)
        ensures
            r == self@.validation(),
    {
        if self.remote.github_repo.as_str().is_empty() {
            return Err(SyncError::ConfigInvalid(ConfigProblem::MissingRepository));
        }
        if self.remote.github_token.as_str().is_empty() {
            return Err(SyncError::ConfigInvalid(ConfigProblem::MissingToken));
        }
        if self.sync_interval == 0 {
            return Err(SyncError::ConfigInvalid(ConfigProblem::ZeroInterval));
        }
        Ok(())
    }

    /// The remote settings.
    pub fn remote(&self) -> (r: &RemoteConfig)
        ensures
            r.github_repo@ == self@.github_repo,
            r.github_token@ == self@.github_token,
    {
        &self.remote
    }

    /// The sync interval.
    pub fn sync_interval(&self) -> (r: u64)
        ensures
            r == self@.sync_interval,
    {
        self.sync_interval
    }

    /// The detection rules, if any are configured.
    pub fn profile_detection(&self) -> (r: &Option<ProfileDetectionConfig>)
        ensures
            rules_of(*r) == self@.detection,
    {
        &self.profile_detection
    }

    /// The profiles with their names.
    pub fn profiles(&self) -> (r: &Vec<Profile>)
        ensures
            profiles_view(r@) == self@.profiles,
            self@.wf(),
    {
        proof {
            use_type_invariant(self);
        }
        &self.profiles
    }

    /// The position of the profile `name`.
    fn position(&self, name: &String) -> (r: Option<usize>)
        ensures
            match r {
                Some(i) => i < self.profiles@.len() && self.profiles@[i as int].name@ == name@,
                None => !has_key(profiles_view(self.profiles@), name@),
            },
    {
        let mut i: usize = 0;
        while i < self.profiles.len()
            invariant
                i <= self.profiles@.len(),
                forall|j: int| 0 <= j < i ==> self.profiles@[j].name@ != name@,
            decreases self.profiles@.len() - i,
        {
            if self.profiles[i].name == *name {
                return Some(i);
            }
            i += 1;
        }
        assert(!has_key(profiles_view(self.profiles@), name@)) by {
            if has_key(profiles_view(self.profiles@), name@) {
                let j = choose|j: int|
                    0 <= j < profiles_view(self.profiles@).len() && (#[trigger] profiles_view(
                        self.profiles@,
                    )[j]).0 == name@;
                assert(self.profiles@[j].name@ == name@);
            }
        }
        None
    }

    /// The profile `name`, if there is one.
    pub fn profile(&self, name: &str) -> (r: Option<&ProfileConfig>)
        ensures
            self@.wf(),
            match r {
                Some(p) => self@.profile_map().dom().contains(name@) && p@
                    == self@.profile_map()[name@],
                None => !self@.profile_map().dom().contains(name@),
            },
    {
        proof {
            use_type_invariant(self);
            lemma_assoc_dom(self@.profiles, name@);
        }
        let key = name.to_string();
        match self.position(&key) {
            Some(i) => {
                proof {
                    lemma_assoc_value(self@.profiles, i as int);
                }
                Some(&self.profiles[i].config)
            },
            None => None,
        }
    }

    /// Puts `profile` under `name`, in place of whatever profile had that
    /// name before.
    pub fn insert_profile(&mut self, name: String, profile: ProfileConfig)
        ensures
            final(self)@.wf(),
            final(self)@.profile_map() == old(self)@.profile_map().insert(name@, profile@),
            final(self)@.github_repo == old(self)@.github_repo,
            final(self)@.github_token == old(self)@.github_token,
            final(self)@.sync_interval == old(self)@.sync_interval,
            final(self)@.detection == old(self)@.detection,
    {
        proof {
            use_type_invariant(&*self);
        }
        let ghost before = profiles_view(self.profiles@);
        let ghost key = name@;
        let ghost value = profile@;
        let found = self.position(&name);
        let mut profiles: Vec<Profile> = Vec::new();
        std::mem::swap(&mut self.profiles, &mut profiles);
        match found {
            Some(i) => {
                profiles.set(i, Profile { name, config: profile });
                proof {
                    lemma_assoc_update(before, i as int, value);
                    assert(profiles_view(profiles@) =~= before.update(i as int, (key, value)));
                }
            },
            None => {
                profiles.push(Profile { name, config: profile });
                proof {
                    lemma_assoc_push(before, key, value);
                    assert(profiles_view(profiles@) =~= before.push((key, value)));
                }
            },
        }
        self.profiles = profiles;
    }

    /// Tracks `source_path` under `relative_path` in the profile `profile`.
    /// Answers `false`, and changes nothing, where there is no such profile.
    pub fn track(&mut self, profile: &str, relative_path: String, source_path: String) -> (r: bool)
        ensures
            final(self)@.wf(),
            r == old(self)@.profile_map().dom().contains(profile@),
            !r ==> final(self)@ == old(self)@,
            r ==> final(self)@.retracks(
                old(self)@,
                profile@,
                old(self)@.profile_map()[profile@].files().insert(relative_path@, source_path@),
            ),
    {
        proof {
            use_type_invariant(&*self);
            lemma_assoc_dom(self@.profiles, profile@);
        }
        let ghost before = profiles_view(self.profiles@);
        let key = profile.to_string();
        match self.position(&key) {
            Some(i) => {
                let mut profiles: Vec<Profile> = Vec::new();
                std::mem::swap(&mut self.profiles, &mut profiles);
                let mut entry = profiles.remove(i);
                entry.config.insert_file(relative_path, source_path);
                let ghost value = entry.config@;
                profiles.insert(i, entry);
                proof {
                    lemma_assoc_value(before, i as int);
                    lemma_assoc_update(before, i as int, value);
                    assert(profiles_view(profiles@) =~= before.update(i as int, (profile@, value)));
                    assert(assoc(before).insert(profile@, value).dom() =~= assoc(before).dom());
                }
                self.profiles = profiles;
                true
            },
            None => false,
        }
    }

    /// Stops tracking `relative_path` in the profile `profile`.  Answers
    /// `None`, and changes nothing, where there is no such profile; else
    /// whether the path was tracked.
    pub fn untrack(&mut self, profile: &str, relative_path: &str) -> (r: Option<bool>)
        ensures
            final(self)@.wf(),
            r is Some == old(self)@.profile_map().dom().contains(profile@),
            r is Some ==> r->0 == old(self)@.profile_map()[profile@].files().dom().contains(
                relative_path@,
            ),
            r != Some(true) ==> final(self)@ == old(self)@,
            r == Some(true) ==> final(self)@.retracks(
                old(self)@,
                profile@,
                old(self)@.profile_map()[profile@].files().remove(relative_path@),
            ),
    {
        proof {
            use_type_invariant(&*self);
            lemma_assoc_dom(self@.profiles, profile@);
        }
        let ghost before = profiles_view(self.profiles@);
        let key = profile.to_string();
        match self.position(&key) {
            Some(i) => {
                let mut profiles: Vec<Profile> = Vec::new();
                std::mem::swap(&mut self.profiles, &mut profiles);
                let mut entry = profiles.remove(i);
                let ghost entry_before = entry.config@;
                let removed = entry.config.remove_file(relative_path);
                let ghost value = entry.config@;
                profiles.insert(i, entry);
                proof {
                    lemma_assoc_value(before, i as int);
                    lemma_assoc_update(before, i as int, value);
                    assert(profiles_view(profiles@) =~= before.update(i as int, (profile@, value)));
                    assert(assoc(before).insert(profile@, value).dom() =~= assoc(before).dom());
                    if !removed {
                        assert(before.update(i as int, (profile@, value)) =~= before);
                    }
                }
                self.profiles = profiles;
                Some(removed)
            },
            None => None,
        }
    }
}

} // verus!
