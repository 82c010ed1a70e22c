//! The remote mirror: a working copy with every tracked file of every
//! profile, committed and pushed after the deploy stage.

use vstd::prelude::*;
use crate::config::{files_view, profiles_view, Config, ConfigView, ProfileView};
use crate::error::{ConfigProblem, IoProblem, RemoteProblem, SyncError};
use crate::paths::{join_path, joined_path, parent, parent_path};

verus! {

/// One step of the mirror.
#[derive(Clone, Debug, PartialEq, Eq)]
pub enum MirrorStep {
    /// Open the working copy that exists at `path`.
    Open { path: String },
    /// Clone `url` into a new working copy at `path`.
    Clone { url: String, path: String },
    /// Where `source` exists: create the directory `parent`, with its
    /// ancestors, and copy `source` to `dest` in the working copy.
    CopyTracked { source: String, dest: String, parent: Option<String> },
    /// Stage every change in the working copy.
    Stage,
    /// Commit what is staged, with the head of the current branch as the
    /// only parent.
    Commit { message: String },
    /// Push `refspec` to `remote`, with `username` and `token` as credentials.
    Push { remote: String, refspec: String, username: String, token: String },
}

/// A mirror step as contracts see it.
pub enum MirrorStepView {
    Open { path: Seq<char> },
    Clone { url: Seq<char>, path: Seq<char> },
    CopyTracked { source: Seq<char>, dest: Seq<char>, parent: Option<Seq<char>> },
    Stage,
    Commit { message: Seq<char> },
    Push { remote: Seq<char>, refspec: Seq<char>, username: Seq<char>, token: Seq<char> },
}

/// The view of an optional string.
pub open spec fn option_view(s: Option<String>) -> Option<Seq<char>> {
    match s {
        Some(s) => Some(s@),
        None => None,
    }
}

impl View for MirrorStep {
    type V = MirrorStepView;

    open spec fn view(&self) -> MirrorStepView {
        match self {
            MirrorStep::Open { path } => MirrorStepView::Open { path: path@ },
            MirrorStep::Clone { url, path } => MirrorStepView::Clone { url: url@, path: path@ },
            MirrorStep::CopyTracked { source, dest, parent } => MirrorStepView::CopyTracked {
                source: source@,
                dest: dest@,
                parent: option_view(*parent),
            },
            MirrorStep::Stage => MirrorStepView::Stage,
            MirrorStep::Commit { message } => MirrorStepView::Commit { message: message@ },
            MirrorStep::Push { remote, refspec, username, token } => MirrorStepView::Push {
                remote: remote@,
                refspec: refspec@,
                username: username@,
                token: token@,
            },
        }
    }
}

/// The views of a vector of mirror steps.
pub open spec fn steps_view(v: Seq<MirrorStep>) -> Seq<MirrorStepView> {
    v.map_values(|s: MirrorStep| s@)
}

/// The working copy lies at a fixed place below the home directory, the same
/// for all profiles.
pub open spec fn mirror_root(home: Seq<char>) -> Seq<char> {
    joined_path(home, ".dotty_repo"@)
}

/// The copy of one tracked file into the working copy at `root`.
pub open spec fn copy_of(entry: (Seq<char>, Seq<char>), root: Seq<char>) -> MirrorStepView {
    MirrorStepView::CopyTracked {
        source: entry.1,
        dest: joined_path(root, entry.0),
        parent: parent_path(joined_path(root, entry.0)),
    }
}

/// The copies of the tracked files of one profile, in their order.
pub open spec fn copies_of(entries: Seq<(Seq<char>, Seq<char>)>, root: Seq<char>) -> Seq<
    MirrorStepView,
> {
    entries.map_values(|e: (Seq<char>, Seq<char>)| copy_of(e, root))
}

/// The copies of the tracked files of all profiles, profile after profile.
pub open spec fn all_copies(profiles: Seq<(Seq<char>, ProfileView)>, root: Seq<char>) -> Seq<
    MirrorStepView,
>
    decreases profiles.len(),
{
    if profiles.len() == 0 {
        Seq::empty()
    } else {
        all_copies(profiles.drop_last(), root) + copies_of(profiles.last().1.entries, root)
    }
}

/// The steps that close a mirror: stage, commit with the fixed message, push
/// the fixed branch with the token.
pub open spec fn closing_steps(token: Seq<char>) -> Seq<MirrorStepView> {
    seq![
        MirrorStepView::Stage,
        MirrorStepView::Commit { message: "Sync dotfiles"@ },
        MirrorStepView::Push {
            remote: "origin"@,
            refspec: "refs/heads/master:refs/heads/master"@,
            username: "x-access-token"@,
            token,
        },
    ]
}

/// The step that opens a mirror: open the working copy where it exists,
/// clone the remote where it does not.
pub open spec fn opening_step(
    config: ConfigView,
    home: Seq<char>,
    repo_exists: bool,
) -> MirrorStepView {
    if repo_exists {
        MirrorStepView::Open { path: mirror_root(home) }
    } else {
        MirrorStepView::Clone { url: config.github_repo, path: mirror_root(home) }
    }
}

/// The steps of a mirror, in order.
pub open spec fn mirror_steps(config: ConfigView, home: Seq<char>, repo_exists: bool) -> Seq<
    MirrorStepView,
> {
    seq![opening_step(config, home, repo_exists)] + all_copies(config.profiles, mirror_root(home))
        + closing_steps(config.github_token)
}

/// What a mirror is planned as: refused where the repository address or the
/// token is missing, else its steps.
pub open spec fn mirror_plan(config: ConfigView, home: Seq<char>, repo_exists: bool) -> Result<
    Seq<MirrorStepView>,
    SyncError,
> {
    if config.github_repo.len() == 0 {
        Err(SyncError::ConfigInvalid(ConfigProblem::MissingRepository))
    } else if config.github_token.len() == 0 {
        Err(SyncError::ConfigInvalid(ConfigProblem::MissingToken))
    } else {
        Ok(mirror_steps(config, home, repo_exists))
    }
}

/// The error with which the mirror is aborted when `step` fails.
pub open spec fn failure_of(step: MirrorStepView) -> SyncError {
    match step {
        MirrorStepView::Open { .. } => SyncError::RemoteFailure(RemoteProblem::Open),
        MirrorStepView::Clone { .. } => SyncError::RemoteFailure(RemoteProblem::Clone),
        MirrorStepView::CopyTracked { .. } => SyncError::IOFailure(IoProblem::CopyToMirror),
        MirrorStepView::Stage => SyncError::RemoteFailure(RemoteProblem::Stage),
        MirrorStepView::Commit { .. } => SyncError::RemoteFailure(RemoteProblem::Commit),
        MirrorStepView::Push { .. } => SyncError::RemoteFailure(RemoteProblem::Push),
    }
}

/// A mirror copies the tracked files of every profile: each tracked file of
/// each profile has its copy among the steps, between the opening step and
/// the closing steps.
pub proof fn lemma_mirror_covers_all_profiles(
    profiles: Seq<(Seq<char>, ProfileView)>,
    root: Seq<char>,
    p: int,
    f: int,
)
    requires
        0 <= p < profiles.len(),
        0 <= f < profiles[p].1.entries.len(),
    ensures
        all_copies(profiles, root).contains(copy_of(profiles[p].1.entries[f], root)),
    decreases profiles.len(),
{
    let front = all_copies(profiles.drop_last(), root);
    let back = copies_of(profiles.last().1.entries, root);
    let step = copy_of(profiles[p].1.entries[f], root);
    if p == profiles.len() - 1 {
        assert(back[f] == step);
        assert((front + back)[front.len() + f] == step);
    } else {
        lemma_mirror_covers_all_profiles(profiles.drop_last(), root, p, f);
        let i = choose|i: int| 0 <= i < front.len() && front[i] == step;
        assert((front + back)[i] == step);
    }
}

/// The place of the working copy below `home`.
pub fn mirror_root_path(home: &str) -> (r: String)
    ensures
        r@ == mirror_root(home@),
{
    join_path(home, ".dotty_repo")
}

/// The error with which the mirror is aborted when `step` fails.
pub fn step_failure(step: &MirrorStep) -> (r: SyncError)
    ensures
        r == failure_of(step@),
{
    match step {
        MirrorStep::Open { .. } => SyncError::RemoteFailure(RemoteProblem::Open),
        MirrorStep::Clone { .. } => SyncError::RemoteFailure(RemoteProblem::Clone),
        MirrorStep::CopyTracked { .. } => SyncError::IOFailure(IoProblem::CopyToMirror),
        MirrorStep::Stage => SyncError::RemoteFailure(RemoteProblem::Stage),
        MirrorStep::Commit { .. } => SyncError::RemoteFailure(RemoteProblem::Commit),
        MirrorStep::Push { .. } => SyncError::RemoteFailure(RemoteProblem::Push),
    }
}

/// Plans the mirror of all tracked files of all profiles of `config`, with
/// the working copy below `home`; `repo_exists` says whether the working
/// copy is there already.  The steps are done in order, and the first that
/// fails aborts the mirror.
pub fn sync_with_github(config: &Config, home: &str, repo_exists: bool) -> (r: Result<
    Vec<MirrorStep>,
    SyncError,
>)
    ensures
        match mirror_plan(config@, home@, repo_exists) {
            Ok(steps) => r is Ok && steps_view(r->Ok_0@) == steps,
            Err(e) => r == Err::<Vec<MirrorStep>, SyncError>(e),
        },
{
    let remote = config.remote();
    if remote.github_repo.as_str().is_empty() {
        return Err(SyncError::ConfigInvalid(ConfigProblem::MissingRepository));
    }
    if remote.github_token.as_str().is_empty() {
        return Err(SyncError::ConfigInvalid(ConfigProblem::MissingToken));
    }
    let root = mirror_root_path(home);
    let mut steps: Vec<MirrorStep> = Vec::new();
    if repo_exists {
        steps.push(MirrorStep::Open { path: root.clone() });
    } else {
        steps.push(MirrorStep::Clone { url: remote.github_repo.clone(), path: root.clone() });
    }
    let ghost opening = seq![opening_step(config@, home@, repo_exists)];
    assert(steps_view(steps@) =~= opening);
    let profiles = config.profiles();
    let mut p: usize = 0;
    assert(profiles_view(profiles@).take(0) =~= Seq::empty());
    while p < profiles.len()
        invariant
            p <= profiles@.len(),
            profiles_view(profiles@) == config@.profiles,
            root@ == mirror_root(home@),
            steps_view(steps@) == opening + all_copies(config@.profiles.take(p as int), root@),
        decreases profiles@.len() - p,
    {
        let files = profiles[p].config.files();
        let ghost entries = config@.profiles[p as int].1.entries;
        let ghost done = opening + all_copies(config@.profiles.take(p as int), root@);
        let mut f: usize = 0;
        assert(profiles_view(profiles@)[p as int] == profiles@[p as int]@);
        assert(copies_of(entries.take(0), root@) =~= Seq::empty());
        assert(done + Seq::<MirrorStepView>::empty() =~= done);
        while f < files.len()
            invariant
                f <= files@.len(),
                files_view(files@) == entries,
                root@ == mirror_root(home@),
                steps_view(steps@) == done + copies_of(entries.take(f as int), root@),
            decreases files@.len() - f,
        {
            let file = &files[f];
            assert(files_view(files@)[f as int] == file@);
            let dest = join_path(root.as_str(), file.relative_path.as_str());
            let dir = parent(dest.as_str());
            let ghost before = steps_view(steps@);
            steps.push(
                MirrorStep::CopyTracked { source: file.source_path.clone(), dest, parent: dir },
            );
            proof {
                let step = copy_of(entries[f as int], root@);
                assert(steps_view(steps@) =~= before.push(step));
                assert(copies_of(entries.take(f as int + 1), root@) =~= copies_of(
                    entries.take(f as int),
                    root@,
                ).push(step));
                assert(before.push(step) =~= done + copies_of(entries.take(f as int + 1), root@));
            }
            f += 1;
        }
        proof {
            assert(entries.take(f as int) =~= entries);
            let next = config@.profiles.take(p as int + 1);
            assert(next.drop_last() =~= config@.profiles.take(p as int));
            assert(next.last() == config@.profiles[p as int]);
            assert(opening + (all_copies(config@.profiles.take(p as int), root@) + copies_of(
                entries,
                root@,
            )) =~= done + copies_of(entries, root@));
        }
        p += 1;
    }
    assert(config@.profiles.take(p as int) =~= config@.profiles);
    let ghost before = steps_view(steps@);
    steps.push(MirrorStep::Stage);
    steps.push(MirrorStep::Commit { message: "Sync dotfiles".to_string() });
    steps.push(
        MirrorStep::Push {
            remote: "origin".to_string(),
            refspec: "refs/heads/master:refs/heads/master".to_string(),
            username: "x-access-token".to_string(),
            token: remote.github_token.clone(),
        },
    );
    assert(steps_view(steps@) =~= before + closing_steps(config@.github_token));
    Ok(steps)
}

} // verus!
