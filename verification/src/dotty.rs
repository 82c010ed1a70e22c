//! The engine: a configuration, the profile in use and the time of the last
//! sync, with the operations that the commands map to.

use vstd::prelude::*;
use crate::config::{default_config_view, files_view, strings_view, Config, ConfigView};
use crate::detect::{detect_profile, detection_result, HostSignals};
use crate::error::{ConfigProblem, IoProblem, SyncError};
use crate::mirror::option_view;
use crate::pass::{Stage, SyncPass};
use crate::paths::{path_below, strip_prefix};
use crate::plan::{targets, targets_in};
use crate::trigger::{debounce_window, ScheduleTrigger, ScheduleView, WatchPlan};

verus! {

/// What was found out about a path that is to be added or removed.
#[derive(Clone, Debug, PartialEq, Eq)]
pub struct PathLookup {
    /// The canonical form of the path: absolute and free of links.  `None`
    /// where the path does not resolve to a real location.
    pub canonical: Option<String>,
    /// The home directory.  `None` where it cannot be determined.
    pub home: Option<String>,
}

/// What a removal did.
#[derive(Clone, Copy, Debug, PartialEq, Eq, Structural)]
pub enum Removal {
    /// The path was tracked and is not any more.
    Removed,
    /// The path was not tracked; nothing has changed.
    NotFound,
}

/// The engine as contracts see it.
pub struct DottyView {
    pub config: ConfigView,
    pub current_profile: Seq<char>,
    pub last_synced: u64,
}

/// The engine.
#[derive(Debug)]
pub struct Dotty {
    config: Config,
    current_profile: String,
    last_synced: u64,
}

impl View for Dotty {
    type V = DottyView;

    closed spec fn view(&self) -> DottyView {
        DottyView {
            config: self.config@,
            current_profile: self.current_profile@,
            last_synced: self.last_synced,
        }
    }
}

/// The profile that an operation works on: the one that the caller names,
/// else the one in use.
pub open spec fn chosen_profile(named: Option<Seq<char>>, current: Seq<char>) -> Seq<char> {
    match named {
        Some(p) => p,
        None => current,
    }
}

/// The relative path under which a looked-up path is tracked in the profile
/// `profile`, or the error that refuses it: the profile must exist, the path
/// must resolve, the home directory must be known, and the path must lie
/// below it; the first of these that fails decides.
pub open spec fn tracked_key(
    config: ConfigView,
    profile: Seq<char>,
    canonical: Option<Seq<char>>,
    home: Option<Seq<char>>,
) -> Result<Seq<char>, SyncError> {
    if !config.profile_map().dom().contains(profile) {
        Err(SyncError::ProfileNotFound)
    } else if canonical is None {
        Err(SyncError::PathUnresolvable)
    } else if home is None {
        Err(SyncError::IOFailure(IoProblem::HomeUnavailable))
    } else {
        match path_below(canonical->0, home->0) {
            Some(relative) => Ok(relative),
            None => Err(SyncError::PathOutsideHome),
        }
    }
}

impl Dotty {
    /// The engine at start-up, at the time `now`.  A configuration that was
    /// loaded is validated, and refused with its first problem.  Where none
    /// was loaded, the default configuration is taken as it is; the caller
    /// stores it.  The profile in use is the one detected from `signals`.
    pub fn new(loaded: Option<Config>, signals: &HostSignals, now: u64) -> (r: Result<
        Dotty,
        SyncError,
    >)
        ensures
            match loaded {
                Some(c) => match c@.validation() {
                    Ok(_) => r is Ok && r->Ok_0@.config == c@,
                    Err(e) => r is Err && r->Err_0 == e,
                },
                None => r is Ok && r->Ok_0@.config == default_config_view(),
            },
            r is Ok ==> r->Ok_0@.last_synced == now && r->Ok_0@.current_profile
                == detection_result(r->Ok_0@.config.detection, signals@),
    {
        let config = match loaded {
            Some(c) => {
                match c.validate() {
                    Ok(_) => {},
                    Err(e) => {
                        return Err(e);
                    },
                }
                c
            },
            None => Config::default_config(),
        };
        let current_profile = detect_profile(config.profile_detection(), signals);
        Ok(Dotty { config, current_profile, last_synced: now })
    }

    /// The configuration.
    pub fn config(&self) -> (r: &Config)
        ensures
            r@ == self@.config,
    {
        &self.config
    }

    /// The profile in use.
    pub fn current_profile(&self) -> (r: &String)
        ensures
            r@ == self@.current_profile,
    {
        &self.current_profile
    }

    /// The time of the last sync: the time of start-up until a pass completes.
    pub fn last_synced(&self) -> (r: u64)
        ensures
            r == self@.last_synced,
    {
        self.last_synced
    }

    /// The profile that the host's signals select, by the configured rules.
    pub fn detect_profile(&self, signals: &HostSignals) -> (r: String)
        ensures
            r@ == detection_result(self@.config.detection, signals@),
    {
        detect_profile(self.config.profile_detection(), signals)
    }

    /// The profile that an operation works on: `profile` where it is given,
    /// else the profile in use.
    pub fn choose_profile(&self, profile: Option<String>) -> (r: String)
        ensures
            r@ == chosen_profile(option_view(profile), self@.current_profile),
    {
        match profile {
            Some(p) => p,
            None => self.current_profile.clone(),
        }
    }

    /// Starts tracking the looked-up path in `profile`, or in the profile in
    /// use.  Answers the relative path under which it is tracked; the caller
    /// then stores the configuration.  On an error nothing has changed.
    pub fn add_file(&mut self, lookup: &PathLookup, profile: Option<String>) -> (r: Result<
        String,
        SyncError,
    >)
        ensures
            final(self)@.current_profile == old(self)@.current_profile,
            final(self)@.last_synced == old(self)@.last_synced,
            ({
                let name = chosen_profile(option_view(profile), old(self)@.current_profile);
                match tracked_key(
                    old(self)@.config,
                    name,
                    option_view(lookup.canonical),
                    option_view(lookup.home),
                ) {
                    Ok(relative) => r is Ok && r->Ok_0@ == relative && final(self)@.config.retracks(
                        old(self)@.config,
                        name,
                        old(self)@.config.profile_map()[name].files().insert(
                            relative,
                            lookup.canonical->0@,
                        ),
                    ),
                    Err(e) => r is Err && r->Err_0 == e && final(self)@ == old(self)@,
                }
            }),
    {
        let name = self.choose_profile(profile);
        if self.config.profile(name.as_str()).is_none() {
            return Err(SyncError::ProfileNotFound);
        }
        let canonical = match &lookup.canonical {
            Some(c) => c,
            None => {
                return Err(SyncError::PathUnresolvable);
            },
        };
        let home = match &lookup.home {
            Some(h) => h,
            None => {
                return Err(SyncError::IOFailure(IoProblem::HomeUnavailable));
            },
        };
        let relative = match strip_prefix(canonical.as_str(), home.as_str()) {
            Some(r) => r,
            None => {
                return Err(SyncError::PathOutsideHome);
            },
        };
        let added = self.config.track(name.as_str(), relative.clone(), canonical.clone());
        assert(added);
        Ok(relative)
    }

    /// Stops tracking the looked-up path in `profile`, or in the profile in
    /// use.  A path that is not tracked is reported as not found, which is
    /// no error, and nothing changes; after a removal the caller stores the
    /// configuration.  On an error nothing has changed.
    pub fn remove_file(&mut self, lookup: &PathLookup, profile: Option<String>) -> (r: Result<
        Removal,
        SyncError,
    >)
        ensures
            final(self)@.current_profile == old(self)@.current_profile,
            final(self)@.last_synced == old(self)@.last_synced,
            ({
                let name = chosen_profile(option_view(profile), old(self)@.current_profile);
                match tracked_key(
                    old(self)@.config,
                    name,
                    option_view(lookup.canonical),
                    option_view(lookup.home),
                ) {
                    Ok(relative) => if old(self)@.config.profile_map()[name].files().dom().contains(
                        relative,
                    ) {
                        r == Ok::<Removal, SyncError>(Removal::Removed)
                            && final(self)@.config.retracks(
                            old(self)@.config,
                            name,
                            old(self)@.config.profile_map()[name].files().remove(relative),
                        )
                    } else {
                        r == Ok::<Removal, SyncError>(Removal::NotFound) && final(self)@
                            == old(self)@
                    },
                    Err(e) => r is Err && r->Err_0 == e && final(self)@ == old(self)@,
                }
            }),
    {
        let name = self.choose_profile(profile);
        if self.config.profile(name.as_str()).is_none() {
            return Err(SyncError::ProfileNotFound);
        }
        let canonical = match &lookup.canonical {
            Some(c) => c,
            None => {
                return Err(SyncError::PathUnresolvable);
            },
        };
        let home = match &lookup.home {
            Some(h) => h,
            None => {
                return Err(SyncError::IOFailure(IoProblem::HomeUnavailable));
            },
        };
        let relative = match strip_prefix(canonical.as_str(), home.as_str()) {
            Some(r) => r,
            None => {
                return Err(SyncError::PathOutsideHome);
            },
        };
        match self.config.untrack(name.as_str(), relative.as_str()) {
            Some(true) => Ok(Removal::Removed),
            _ => Ok(Removal::NotFound),
        }
    }

    /// Begins a sync pass for `profile`, or for the profile in use, with the
    /// destinations below `home`: the pass has the diff report due, and the
    /// tracked files of the profile as its targets.  There is no pass for a
    /// profile that does not exist, nor without a home directory.
    pub fn sync(&self, profile: Option<String>, home: Option<&str>) -> (r: Result<
        SyncPass,
        SyncError,
    >)
        ensures
            ({
                let name = chosen_profile(option_view(profile), self@.current_profile);
                if !self@.config.profile_map().dom().contains(name) {
                    r is Err && r->Err_0 == SyncError::ProfileNotFound
                } else if home is None {
                    r is Err && r->Err_0 == SyncError::IOFailure(IoProblem::HomeUnavailable)
                } else {
                    &&& r is Ok
                    &&& r->Ok_0@.profile == name
                    &&& r->Ok_0@.stage == Stage::Diffing
                    &&& r->Ok_0@.targets == targets_in(
                        self@.config.profile_map()[name].entries,
                        home->0@,
                    )
                }
            }),
    {
        let name = self.choose_profile(profile);
        let profile_config = match self.config.profile(name.as_str()) {
            Some(p) => p,
            None => {
                return Err(SyncError::ProfileNotFound);
            },
        };
        let home = match home {
            Some(h) => h,
            None => {
                return Err(SyncError::IOFailure(IoProblem::HomeUnavailable));
            },
        };
        let files = targets(profile_config, home);
        Ok(SyncPass::begin(name, files))
    }

    /// Closes a pass at the time `now`: a pass that has completed sets the
    /// time of the last sync; any other leaves it as it was.  Answers
    /// whether the time was set.
    pub fn record(&mut self, pass: &SyncPass, now: u64) -> (r: bool)
        ensures
            r == (pass@.stage is Completed),
            final(self)@.config == old(self)@.config,
            final(self)@.current_profile == old(self)@.current_profile,
            final(self)@.last_synced == if r {
                now
            } else {
                old(self)@.last_synced
            },
    {
        match pass.stage() {
            Stage::Completed => {
                self.last_synced = now;
                true
            },
            _ => false,
        }
    }

    /// Plans the watch for `profile`, or for the profile in use: every source
    /// path that the profile tracks is observed.  There is no watch for a
    /// profile that does not exist.
    pub fn watch_and_sync(&self, profile: Option<String>) -> (r: Result<WatchPlan, SyncError>)
        ensures
            ({
                let name = chosen_profile(option_view(profile), self@.current_profile);
                if !self@.config.profile_map().dom().contains(name) {
                    r is Err && r->Err_0 == SyncError::ProfileNotFound
                } else {
                    &&& r is Ok
                    &&& r->Ok_0.profile@ == name
                    &&& r->Ok_0.debounce_secs == debounce_window()
                    &&& strings_view(r->Ok_0.paths@)
                        == self@.config.profile_map()[name].entries.map_values(
                        |e: (Seq<char>, Seq<char>)| e.1,
                    )
                }
            }),
    {
        let name = self.choose_profile(profile);
        let profile_config = match self.config.profile(name.as_str()) {
            Some(p) => p,
            None => {
                return Err(SyncError::ProfileNotFound);
            },
        };
        let files = profile_config.files();
        let ghost entries = profile_config@.entries;
        let mut paths: Vec<String> = Vec::new();
        let mut i: usize = 0;
        while i < files.len()
            invariant
                i <= files@.len(),
                files_view(files@) == entries,
                paths@.len() == i,
                forall|j: int| 0 <= j < i ==> (#[trigger] paths@[j])@ == entries[j].1,
            decreases files@.len() - i,
        {
            assert(files_view(files@)[i as int] == files@[i as int]@);
            paths.push(files[i].source_path.clone());
            i += 1;
        }
        assert(strings_view(paths@) =~= entries.map_values(|e: (Seq<char>, Seq<char>)| e.1));
        Ok(WatchPlan { profile: name, paths, debounce_secs: 1 })
    }

    /// Sets up the schedule for `profile`, or for the profile in use, with a
    /// pass every `interval` minutes.  A schedule needs a remote: it is
    /// refused where the repository address or the token is missing; and it
    /// is refused where the interval is zero.
    pub fn schedule_sync(&self, interval: u64, profile: Option<String>) -> (r: Result<
        ScheduleTrigger,
        SyncError,
    >)
        ensures
            ({
                let name = chosen_profile(option_view(profile), self@.current_profile);
                if self@.config.github_repo.len() == 0 {
                    r is Err && r->Err_0 == SyncError::ConfigInvalid(
                        ConfigProblem::MissingRepository,
                    )
                } else if self@.config.github_token.len() == 0 {
                    r is Err && r->Err_0 == SyncError::ConfigInvalid(ConfigProblem::MissingToken)
                } else if interval == 0 {
                    r is Err && r->Err_0 == SyncError::ScheduleFailure
                } else {
                    r is Ok && r->Ok_0@ == (ScheduleView { profile: name, interval, elapsed: 0 })
                }
            }),
    {
        let remote = self.config.remote();
        if remote.github_repo.as_str().is_empty() {
            return Err(SyncError::ConfigInvalid(ConfigProblem::MissingRepository));
        }
        if remote.github_token.as_str().is_empty() {
            return Err(SyncError::ConfigInvalid(ConfigProblem::MissingToken));
        }
        let name = self.choose_profile(profile);
        ScheduleTrigger::new(name, interval)
    }
}

/// Adding a path and then removing the same path leaves the profile without
/// that relative path: the tracked files are those from before the addition,
/// without the path.
pub proof fn lemma_add_then_remove(
    files: Map<Seq<char>, Seq<char>>,
    relative: Seq<char>,
    source: Seq<char>,
)
    ensures
        !files.insert(relative, source).remove(relative).dom().contains(relative),
        files.insert(relative, source).remove(relative) == files.remove(relative),
        !files.dom().contains(relative) ==> files.insert(relative, source).remove(relative)
            == files,
{
    assert(files.insert(relative, source).remove(relative) =~= files.remove(relative));
    if !files.dom().contains(relative) {
        assert(files.remove(relative) =~= files);
    }
}

} // verus!
