//! One sync pass as a state machine: the diff report, then each tracked file
//! in turn, then the remote mirror; the first error aborts what is left.

use vstd::prelude::*;
use crate::error::SyncError;
use crate::plan::{targets_view, Target, TargetView};

verus! {

/// Where a pass stands.
#[derive(Clone, Copy, Debug, PartialEq, Eq, Structural)]
pub enum Stage {
    /// The diff report is due.
    Diffing,
    /// The tracked file with this index is due: filter, backup, deploy.
    Deploying(usize),
    /// The remote mirror is due.
    Mirroring,
    /// The pass is done; the time of the last sync is to be set.
    Completed,
    /// The pass was aborted by this error.
    Aborted(SyncError),
}

/// The stage that follows `stage` in a pass over `files` tracked files, when
/// the work of `stage` ended with `outcome`.  An error aborts the pass; a
/// pass that is done or aborted stays as it is.
pub open spec fn next_stage(stage: Stage, files: nat, outcome: Result<(), SyncError>) -> Stage {
    match stage {
        Stage::Completed => stage,
        Stage::Aborted(_) => stage,
        _ => match outcome {
            Err(e) => Stage::Aborted(e),
            Ok(_) => match stage {
                Stage::Diffing => if files > 0 {
                    Stage::Deploying(0)
                } else {
                    Stage::Mirroring
                },
                Stage::Deploying(i) => if i + 1 < files {
                    Stage::Deploying((i + 1) as usize)
                } else {
                    Stage::Mirroring
                },
                _ => Stage::Completed,
            },
        },
    }
}

/// The stage of a pass over `files` tracked files after `steps` stages that
/// all went well.
pub open spec fn stage_after(files: nat, steps: nat) -> Stage {
    if steps == 0 {
        Stage::Diffing
    } else if steps <= files {
        Stage::Deploying((steps - 1) as usize)
    } else if steps == files + 1 {
        Stage::Mirroring
    } else {
        Stage::Completed
    }
}

/// The order of a pass is strict: while all goes well, the diff report comes
/// first, then the tracked files one by one in their order, then the mirror,
/// and then the pass is done.
pub proof fn lemma_pass_order(files: nat, steps: nat)
    requires
        files <= usize::MAX,
    ensures
        next_stage(stage_after(files, steps), files, Ok(())) == stage_after(files, steps + 1),
{
}

/// The first error aborts the pass, whatever stage it comes in, and nothing
/// that comes later changes that: no file is deployed and no mirror is made
/// after it.
pub proof fn lemma_first_error_aborts(
    stage: Stage,
    files: nat,
    e: SyncError,
    later: Result<(), SyncError>,
)
    requires
        !(stage is Completed),
        !(stage is Aborted),
    ensures
        next_stage(stage, files, Err(e)) == Stage::Aborted(e),
        next_stage(next_stage(stage, files, Err(e)), files, later) == Stage::Aborted(e),
{
}

/// A sync pass over the tracked files of one profile.
#[derive(Debug)]
pub struct SyncPass {
    profile: String,
    targets: Vec<Target>,
    stage: Stage,
}

/// A pass as contracts see it.
pub struct PassView {
    pub profile: Seq<char>,
    pub targets: Seq<TargetView>,
    pub stage: Stage,
}

impl View for SyncPass {
    type V = PassView;

    closed spec fn view(&self) -> PassView {
        PassView {
            profile: self.profile@,
            targets: targets_view(self.targets@),
            stage: self.stage,
        }
    }
}

impl SyncPass {
    /// A pass for `profile` over `targets`, with the diff report due.
    pub fn begin(profile: String, targets: Vec<Target>) -> (r: SyncPass)
        ensures
            r@.profile == profile@,
            r@.targets == targets_view(targets@),
            r@.stage == Stage::Diffing,
    {
        SyncPass { profile, targets, stage: Stage::Diffing }
    }

    /// The profile that is synced.
    pub fn profile(&self) -> (r: &String)
        ensures
            r@ == self@.profile,
    {
        &self.profile
    }

    /// The tracked files with their destinations, in the order of their turns.
    pub fn targets(&self) -> (r: &Vec<Target>)
        ensures
            targets_view(r@) == self@.targets,
    {
        &self.targets
    }

    /// Where the pass stands.
    pub fn stage(&self) -> (r: Stage)
        ensures
            r == self@.stage,
    {
        self.stage
    }

    /// The tracked file that is due, while the pass is deploying.
    pub fn current(&self) -> (r: Option<&Target>)
        ensures
            match r {
                Some(t) => self@.stage is Deploying && self@.stage->Deploying_0
                    < self@.targets.len() && t@ == self@.targets[self@.stage->Deploying_0 as int],
                None => !(self@.stage is Deploying && self@.stage->Deploying_0
                    < self@.targets.len()),
            },
    {
        match self.stage {
            Stage::Deploying(i) => {
                if i < self.targets.len() {
                    Some(&self.targets[i])
                } else {
                    None
                }
            },
            _ => None,
        }
    }

    /// The error that aborted the pass, if one did.
    pub fn error(&self) -> (r: Option<SyncError>)
        ensures
            r == match self@.stage {
                Stage::Aborted(e) => Some(e),
                _ => None,
            },
    {
        match self.stage {
            Stage::Aborted(e) => Some(e),
            _ => None,
        }
    }

    /// Moves on when the work of the current stage has ended with `outcome`.
    pub fn advance(&mut self, outcome: Result<(), SyncError>)
        ensures
            final(self)@.stage == next_stage(
                old(self)@.stage,
                old(self)@.targets.len(),
                outcome,
            ),
            final(self)@.profile == old(self)@.profile,
            final(self)@.targets == old(self)@.targets,
    {
        let next = match self.stage {
            Stage::Completed => Stage::Completed,
            Stage::Aborted(e) => Stage::Aborted(e),
            Stage::Diffing => match outcome {
                Err(e) => Stage::Aborted(e),
                Ok(_) => if self.targets.len() > 0 {
                    Stage::Deploying(0)
                } else {
                    Stage::Mirroring
                },
            },
            Stage::Deploying(i) => match outcome {
                Err(e) => Stage::Aborted(e),
                Ok(_) => if i < self.targets.len() && i + 1 < self.targets.len() {
                    Stage::Deploying(i + 1)
                } else {
                    Stage::Mirroring
                },
            },
            Stage::Mirroring => match outcome {
                Err(e) => Stage::Aborted(e),
                Ok(_) => Stage::Completed,
            },
        };
        self.stage = next;
    }
}

} // verus!
