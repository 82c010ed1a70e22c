//! What a sync pass does for one tracked file: whether it is deployed, and
//! by which file operations, in which order.

use vstd::prelude::*;
use crate::config::{files_view, ProfileConfig};
use crate::error::{IoProblem, SyncError};
use crate::filter::{eligible, should_sync, walk_view, WalkEntry, WalkEntryView};
use crate::paths::{backup_path, backup_path_of, join_path, joined_path};

verus! {

/// One file operation of a deployment.
#[derive(Clone, Debug, PartialEq, Eq)]
pub enum Action {
    /// Copy the existing destination `from` to its backup path `to`,
    /// overwriting an earlier backup.
    Backup { from: String, to: String },
    /// Make `dest` a symbolic link to `source`, replacing what was there.
    Symlink { source: String, dest: String },
    /// Copy the bytes of `source` to `dest`.
    Copy { source: String, dest: String },
    /// Set the permission bits of `dest` to those of `source`.
    CopyPermissions { source: String, dest: String },
}

/// A file operation as contracts see it.
pub enum ActionView {
    Backup { from: Seq<char>, to: Seq<char> },
    Symlink { source: Seq<char>, dest: Seq<char> },
    Copy { source: Seq<char>, dest: Seq<char> },
    CopyPermissions { source: Seq<char>, dest: Seq<char> },
}

impl View for Action {
    type V = ActionView;

    open spec fn view(&self) -> ActionView {
        match self {
            Action::Backup { from, to } => ActionView::Backup { from: from@, to: to@ },
            Action::Symlink { source, dest } => ActionView::Symlink {
                source: source@,
                dest: dest@,
            },
            Action::Copy { source, dest } => ActionView::Copy { source: source@, dest: dest@ },
            Action::CopyPermissions { source, dest } => ActionView::CopyPermissions {
                source: source@,
                dest: dest@,
            },
        }
    }
}

/// The views of a vector of actions.
pub open spec fn actions_view(v: Seq<Action>) -> Seq<ActionView> {
    v.map_values(|a: Action| a@)
}

/// The error with which a pass is aborted when `action` fails.  Setting
/// permission bits can fail in two places: `at_source` says that the bits of
/// the source could not be read.
pub open spec fn action_error(action: ActionView, at_source: bool) -> SyncError {
    match action {
        ActionView::Backup { .. } => SyncError::IOFailure(IoProblem::Backup),
        ActionView::Symlink { .. } => SyncError::IOFailure(IoProblem::Symlink),
        ActionView::Copy { .. } => SyncError::IOFailure(IoProblem::Copy),
        ActionView::CopyPermissions { .. } => if at_source {
            SyncError::IOFailure(IoProblem::Metadata)
        } else {
            SyncError::IOFailure(IoProblem::SetPermissions)
        },
    }
}

/// The error with which a pass is aborted when `action` fails.
pub fn action_failure(action: &Action, at_source: bool) -> (r: SyncError)
    ensures
        r == action_error(action@, at_source),
{
    match action {
        Action::Backup { .. } => SyncError::IOFailure(IoProblem::Backup),
        Action::Symlink { .. } => SyncError::IOFailure(IoProblem::Symlink),
        Action::Copy { .. } => SyncError::IOFailure(IoProblem::Copy),
        Action::CopyPermissions { .. } => if at_source {
            SyncError::IOFailure(IoProblem::Metadata)
        } else {
            SyncError::IOFailure(IoProblem::SetPermissions)
        },
    }
}

/// What was observed of one tracked file just before its turn.
#[derive(Clone, Debug, PartialEq, Eq)]
pub struct Probe {
    /// Whether the source exists.
    pub source_exists: bool,
    /// What the walk over the source yielded; looked at only where the
    /// source exists.
    pub entries: Vec<WalkEntry>,
    /// Whether something exists at the destination; looked at only where the
    /// source is eligible.
    pub dest_exists: bool,
}

/// A probe as contracts see it.
pub struct ProbeView {
    pub source_exists: bool,
    pub entries: Seq<WalkEntryView>,
    pub dest_exists: bool,
}

impl View for Probe {
    type V = ProbeView;

    open spec fn view(&self) -> ProbeView {
        ProbeView {
            source_exists: self.source_exists,
            entries: walk_view(self.entries@),
            dest_exists: self.dest_exists,
        }
    }
}

/// What a pass decides for one tracked file.
#[derive(Clone, Debug, PartialEq, Eq)]
pub enum FilePlan {
    /// The source does not exist: the file is passed over with a warning.
    SourceMissing,
    /// The source is not eligible: the file is passed over.
    Ignored,
    /// The file is deployed by these operations, in this order.
    Deploy(Vec<Action>),
}

/// A file plan as contracts see it.
pub enum FilePlanView {
    SourceMissing,
    Ignored,
    Deploy(Seq<ActionView>),
}

impl View for FilePlan {
    type V = FilePlanView;

    open spec fn view(&self) -> FilePlanView {
        match self {
            FilePlan::SourceMissing => FilePlanView::SourceMissing,
            FilePlan::Ignored => FilePlanView::Ignored,
            FilePlan::Deploy(actions) => FilePlanView::Deploy(actions_view(actions@)),
        }
    }
}

/// The backup that precedes a deployment: one copy to the backup path where
/// the destination exists, nothing where it does not.
pub open spec fn backup_actions(dest: Seq<char>, dest_exists: bool) -> Seq<ActionView> {
    if dest_exists {
        seq![ActionView::Backup { from: dest, to: backup_path_of(dest) }]
    } else {
        Seq::empty()
    }
}

/// The operations that put the source at the destination: a link in symlink
/// mode; in copy mode a copy, then the source's permission bits.
pub open spec fn materialize_actions(
    source: Seq<char>,
    dest: Seq<char>,
    use_symlinks: bool,
) -> Seq<ActionView> {
    if use_symlinks {
        seq![ActionView::Symlink { source, dest }]
    } else {
        seq![ActionView::Copy { source, dest }, ActionView::CopyPermissions { source, dest }]
    }
}

/// The operations that deploy an eligible source: the backup first.
pub open spec fn deploy_actions(
    source: Seq<char>,
    dest: Seq<char>,
    dest_exists: bool,
    use_symlinks: bool,
) -> Seq<ActionView> {
    backup_actions(dest, dest_exists) + materialize_actions(source, dest, use_symlinks)
}

/// What a pass decides for a tracked file, given what was observed of it.
pub open spec fn file_plan(
    source: Seq<char>,
    dest: Seq<char>,
    patterns: Seq<Seq<char>>,
    use_symlinks: bool,
    probe: ProbeView,
) -> FilePlanView {
    if !probe.source_exists {
        FilePlanView::SourceMissing
    } else if !eligible(probe.entries, patterns) {
        FilePlanView::Ignored
    } else {
        FilePlanView::Deploy(deploy_actions(source, dest, probe.dest_exists, use_symlinks))
    }
}

/// In symlink mode no operation of a deployment touches permission bits, and
/// none copies the source.
pub proof fn lemma_symlink_mode_sets_no_permissions(
    source: Seq<char>,
    dest: Seq<char>,
    dest_exists: bool,
)
    ensures
        forall|i: int|
            0 <= i < deploy_actions(source, dest, dest_exists, true).len() ==> {
                let a = #[trigger] deploy_actions(source, dest, dest_exists, true)[i];
                !(a is CopyPermissions) && !(a is Copy)
            },
        deploy_actions(source, dest, dest_exists, true).last() == (ActionView::Symlink {
            source,
            dest,
        }),
{
}

/// In copy mode a deployment ends with the copy of the source to the
/// destination, followed at once by the source's permission bits; nothing
/// comes after them, and no link is made.
pub proof fn lemma_copy_mode_sets_permissions_after_copy(
    source: Seq<char>,
    dest: Seq<char>,
    dest_exists: bool,
)
    ensures
        ({
            let actions = deploy_actions(source, dest, dest_exists, false);
            &&& actions.len() >= 2
            &&& actions[actions.len() - 2] == (ActionView::Copy { source, dest })
            &&& actions[actions.len() - 1] == (ActionView::CopyPermissions { source, dest })
            &&& forall|i: int| 0 <= i < actions.len() ==> !((#[trigger] actions[i]) is Symlink)
            &&& forall|i: int|
                0 <= i < actions.len() && (#[trigger] actions[i]) is Copy ==> i + 1 < actions.len()
                    && actions[i + 1] == (ActionView::CopyPermissions { source, dest })
        }),
{
}

/// A backup is made exactly when the destination exists, as the first
/// operation, from the destination to its backup path.
pub proof fn lemma_backup_comes_first(
    source: Seq<char>,
    dest: Seq<char>,
    dest_exists: bool,
    use_symlinks: bool,
)
    ensures
        ({
            let actions = deploy_actions(source, dest, dest_exists, use_symlinks);
            &&& dest_exists ==> actions[0] == (ActionView::Backup {
                from: dest,
                to: backup_path_of(dest),
            })
            &&& forall|i: int|
                0 <= i < actions.len() && (#[trigger] actions[i]) is Backup ==> dest_exists && i
                    == 0
        }),
{
}

/// The backup of the destination, made before it is overwritten: one copy to
/// the backup path where the destination exists, nothing where it does not.
pub fn backup_file(dest: &str, dest_exists: bool) -> (r: Option<Action>)
    ensures
        match r {
            Some(a) => dest_exists && a@ == (ActionView::Backup {
                from: dest@,
                to: backup_path_of(dest@),
            }),
            None => !dest_exists,
        },
{
    if dest_exists {
        Some(Action::Backup { from: dest.to_string(), to: backup_path(dest) })
    } else {
        None
    }
}

/// The operation that sets the permission bits of `dest` to those of `source`.
pub fn sync_permissions(source: &str, dest: &str) -> (r: Action)
    ensures
        r@ == (ActionView::CopyPermissions { source: source@, dest: dest@ }),
{
    Action::CopyPermissions { source: source.to_string(), dest: dest.to_string() }
}

/// The operations that deploy an eligible source to `dest`.
pub fn deploy(source: &str, dest: &str, dest_exists: bool, use_symlinks: bool) -> (r: Vec<Action>)
    ensures
        actions_view(r@) == deploy_actions(source@, dest@, dest_exists, use_symlinks),
{
    let mut actions: Vec<Action> = Vec::new();
    match backup_file(dest, dest_exists) {
        Some(a) => {
            actions.push(a);
        },
        None => {},
    }
    if use_symlinks {
        actions.push(Action::Symlink { source: source.to_string(), dest: dest.to_string() });
    } else {
        actions.push(Action::Copy { source: source.to_string(), dest: dest.to_string() });
        actions.push(sync_permissions(source, dest));
    }
    assert(actions_view(actions@) =~= deploy_actions(source@, dest@, dest_exists, use_symlinks));
    actions
}

/// What the pass does for the file with source `source` and destination
/// `dest` in the profile `profile_config`, given what was observed of it: a
/// missing source is passed over; so is a source that is not eligible; any
/// other is deployed, after a backup of an existing destination.
pub fn plan_file(source: &str, dest: &str, profile_config: &ProfileConfig, probe: &Probe) -> (r:
    FilePlan)
    ensures
        r@ == file_plan(
            source@,
            dest@,
            profile_config@.ignore_patterns,
            profile_config@.use_symlinks,
            probe@,
        ),
{
    if !probe.source_exists {
        FilePlan::SourceMissing
    } else if !should_sync(&probe.entries, profile_config) {
        FilePlan::Ignored
    } else {
        FilePlan::Deploy(deploy(source, dest, probe.dest_exists, profile_config.use_symlinks()))
    }
}

/// A tracked file with the place it is deployed to.
#[derive(Clone, Debug, PartialEq, Eq)]
pub struct Target {
    /// The path relative to the home directory, under which the file is
    /// tracked.
    pub relative_path: String,
    /// The canonical path of the source.
    pub source: String,
    /// The destination: the relative path below the home directory.
    pub dest: String,
}

/// A target as contracts see it.
pub struct TargetView {
    pub relative_path: Seq<char>,
    pub source: Seq<char>,
    pub dest: Seq<char>,
}

impl View for Target {
    type V = TargetView;

    open spec fn view(&self) -> TargetView {
        TargetView { relative_path: self.relative_path@, source: self.source@, dest: self.dest@ }
    }
}

/// The views of a vector of targets.
pub open spec fn targets_view(v: Seq<Target>) -> Seq<TargetView> {
    v.map_values(|t: Target| t@)
}

/// The target of a tracked file: its destination is its relative path below
/// `home`.
pub open spec fn target_of(entry: (Seq<char>, Seq<char>), home: Seq<char>) -> TargetView {
    TargetView { relative_path: entry.0, source: entry.1, dest: joined_path(home, entry.0) }
}

/// The targets of the tracked files `entries`, in their order.
pub open spec fn targets_in(entries: Seq<(Seq<char>, Seq<char>)>, home: Seq<char>) -> Seq<
    TargetView,
> {
    entries.map_values(|e: (Seq<char>, Seq<char>)| target_of(e, home))
}

/// The tracked files of a profile with their destinations below `home`, in
/// the order in which a pass visits them.
pub fn targets(profile_config: &ProfileConfig, home: &str) -> (r: Vec<Target>)
    ensures
        targets_view(r@) == targets_in(profile_config@.entries, home@),
{
    let files = profile_config.files();
    let mut out: Vec<Target> = Vec::new();
    let mut i: usize = 0;
    while i < files.len()
        invariant
            i <= files@.len(),
            files_view(files@) == profile_config@.entries,
            out@.len() == i,
            forall|j: int|
                0 <= j < i ==> (#[trigger] out@[j])@ == target_of(
                    profile_config@.entries[j],
                    home@,
                ),
        decreases files@.len() - i,
    {
        let file = &files[i];
        assert(files_view(files@)[i as int] == file@);
        out.push(
            Target {
                relative_path: file.relative_path.clone(),
                source: file.source_path.clone(),
                dest: join_path(home, file.relative_path.as_str()),
            },
        );
        i += 1;
    }
    assert(targets_view(out@) =~= targets_in(profile_config@.entries, home@));
    out
}

} // verus!
