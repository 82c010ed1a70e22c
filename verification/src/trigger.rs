//! The two triggers of a sync pass: changes to the tracked sources, and a
//! fixed interval.

use vstd::prelude::*;
use crate::error::SyncError;

verus! {

/// What a watch needs to be set up: the profile to sync and the source paths
/// to observe, each by itself and not what lies below it, with changes that
/// follow each other within the window reported as one.
#[derive(Clone, Debug, PartialEq, Eq)]
pub struct WatchPlan {
    pub profile: String,
    pub paths: Vec<String>,
    pub debounce_secs: u64,
}

/// The window within which changes are reported as one, in seconds.
pub open spec fn debounce_window() -> u64 {
    1
}

/// Whether every path of a watch could be put under observation.
pub open spec fn all_observed(observed: Seq<bool>) -> bool {
    forall|i: int| 0 <= i < observed.len() ==> observed[i]
}

/// Decides whether a watch starts: `observed` says of each path of the plan
/// whether it could be put under observation.  One path that could not, such
/// as a source that does not exist, keeps the watch from starting.
pub fn confirm_watch(observed: &Vec<bool>) -> (r: Result<(), SyncError>)
    ensures
        r == if all_observed(observed@) {
            Ok::<(), SyncError>(())
        } else {
            Err::<(), SyncError>(SyncError::WatchSetupFailure)
        },
{
    let mut i: usize = 0;
    while i < observed.len()
        invariant
            i <= observed@.len(),
            forall|j: int| 0 <= j < i ==> observed@[j],
        decreases observed@.len() - i,
    {
        if !observed[i] {
            return Err(SyncError::WatchSetupFailure);
        }
        i += 1;
    }
    Ok(())
}

/// What the watch hears.
#[derive(Clone, Copy, Debug, PartialEq, Eq, Structural)]
pub enum WatchSignal {
    /// Some tracked source has changed.
    Changed,
    /// The source of change notifications has reported an error.
    Failed,
}

/// What a trigger does next.
#[derive(Clone, Copy, Debug, PartialEq, Eq, Structural)]
pub enum TriggerAction {
    /// Run a full sync pass for the trigger's profile; log its error, if it
    /// has one; go on.
    RunSync,
    /// Log the error and go on.
    LogError,
    /// Nothing is due; go on.
    Wait,
}

/// A change runs a pass; an error of the notification source is logged.  The
/// watch never stops by itself.
pub open spec fn reaction_to(signal: WatchSignal) -> TriggerAction {
    match signal {
        WatchSignal::Changed => TriggerAction::RunSync,
        WatchSignal::Failed => TriggerAction::LogError,
    }
}

/// What the watch does on `signal`.
pub fn on_watch_signal(signal: WatchSignal) -> (r: TriggerAction)
    ensures
        r == reaction_to(signal),
{
    match signal {
        WatchSignal::Changed => TriggerAction::RunSync,
        WatchSignal::Failed => TriggerAction::LogError,
    }
}

/// What a trigger does after a pass that ended with `result`: it goes on,
/// whatever the result; the error of a failed pass is logged.
pub open spec fn reaction_to_pass(result: Result<(), SyncError>) -> TriggerAction {
    match result {
        Ok(_) => TriggerAction::Wait,
        Err(_) => TriggerAction::LogError,
    }
}

/// What a trigger does after a pass that ended with `result`.
pub fn after_pass(result: &Result<(), SyncError>) -> (r: TriggerAction)
    ensures
        r == reaction_to_pass(*result),
{
    match result {
        Ok(_) => TriggerAction::Wait,
        Err(_) => TriggerAction::LogError,
    }
}

/// A schedule: a pass every `interval` minutes, counted in ticks of one
/// minute.
#[derive(Debug)]
pub struct ScheduleTrigger {
    profile: String,
    interval: u64,
    elapsed: u64,
}

/// A schedule as contracts see it.
pub struct ScheduleView {
    pub profile: Seq<char>,
    /// The minutes between two passes; above zero.
    pub interval: u64,
    /// The minutes since the last pass, or since the start; below `interval`.
    pub elapsed: u64,
}

impl View for ScheduleTrigger {
    type V = ScheduleView;

    closed spec fn view(&self) -> ScheduleView {
        ScheduleView { profile: self.profile@, interval: self.interval, elapsed: self.elapsed }
    }
}

/// Whether a pass is due at the `tick`th minute of a schedule with this
/// interval: at every multiple of the interval, not at the start.
pub open spec fn pass_due(interval: u64, tick: nat) -> bool {
    tick > 0 && tick % (interval as nat) == 0
}

/// The minutes since the last pass, after `tick` minutes.
pub open spec fn elapsed_after(interval: u64, tick: nat) -> u64 {
    (tick % (interval as nat)) as u64
}

/// What one tick does to the minutes counted: a pass is due when the interval
/// is full, and the count starts over.
pub open spec fn tick_of(interval: u64, elapsed: u64) -> (bool, u64) {
    if elapsed + 1 >= interval {
        (true, 0)
    } else {
        (false, (elapsed + 1) as u64)
    }
}

/// Passes come at a fixed interval: a schedule that has counted `tick`
/// minutes runs a pass on the next tick exactly when the number of minutes
/// is then a multiple of the interval.
pub proof fn lemma_fixed_interval(interval: u64, tick: nat)
    requires
        interval > 0,
    ensures
        tick_of(interval, elapsed_after(interval, tick)) == (
            pass_due(interval, tick + 1),
            elapsed_after(interval, tick + 1),
        ),
{
    let n = interval as nat;
    let q = tick / n;
    let r = tick % n;
    assert(tick == q * n + r && 0 <= r < n) by (nonlinear_arith)
        requires
            n > 0,
            q == tick / n,
            r == tick % n,
    ;
    if r + 1 < n {
        assert((tick + 1) % n == r + 1) by (nonlinear_arith)
            requires
                n > 0,
                tick == q * n + r,
                0 <= r,
                r + 1 < n,
        ;
    } else {
        assert((tick + 1) % n == 0) by (nonlinear_arith)
            requires
                n > 0,
                tick == q * n + r,
                r + 1 == n,
        ;
    }
}

impl ScheduleTrigger {
    #[verifier::type_invariant]
    spec fn inv(&self) -> bool {
        self.interval > 0 && self.elapsed < self.interval
    }

    /// A schedule for `profile` with a pass every `interval` minutes; none
    /// where the interval is zero.
    pub fn new(profile: String, interval: u64) -> (r: Result<ScheduleTrigger, SyncError>)
        ensures
            match r {
                Ok(t) => interval > 0 && t@ == (ScheduleView {
                    profile: profile@,
                    interval,
                    elapsed: 0,
                }),
                Err(e) => interval == 0 && e == SyncError::ScheduleFailure,
            },
    {
        if interval == 0 {
            Err(SyncError::ScheduleFailure)
        } else {
            Ok(ScheduleTrigger { profile, interval, elapsed: 0 })
        }
    }

    /// The profile that the schedule syncs.
    pub fn profile(&self) -> (r: &String)
        ensures
            r@ == self@.profile,
    {
        &self.profile
    }

    /// The minutes between two passes.
    pub fn interval(&self) -> (r: u64)
        ensures
            r == self@.interval,
            r > 0,
    {
        proof {
            use_type_invariant(self);
        }
        self.interval
    }

    /// Counts one minute.  Answers `RunSync` when the interval is full, for
    /// which the configuration is to be loaded afresh, and `Wait` otherwise.
    pub fn tick(&mut self) -> (r: TriggerAction)
        ensures
            final(self)@.profile == old(self)@.profile,
            final(self)@.interval == old(self)@.interval,
            final(self)@.elapsed == tick_of(old(self)@.interval, old(self)@.elapsed).1,
            r == if tick_of(old(self)@.interval, old(self)@.elapsed).0 {
                TriggerAction::RunSync
            } else {
                TriggerAction::Wait
            },
            old(self)@.interval > 0,
            old(self)@.elapsed < old(self)@.interval,
    {
        proof {
            use_type_invariant(&*self);
        }
        if self.elapsed + 1 >= self.interval {
            self.elapsed = 0;
            TriggerAction::RunSync
        } else {
            self.elapsed = self.elapsed + 1;
            TriggerAction::Wait
        }
    }
}

} // verus!
