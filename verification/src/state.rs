//! The shared clock snapshot: the one mutable value that the polling,
//! display and notification loops all go through.

use vstd::prelude::*;

verus! {

/// Snapshot of the currently clocked-in task, as reported by the external
/// timer at the last successful poll.  Replaced wholesale on each poll,
/// never mutated in place.
pub struct ActiveTask {
    /// Display name of the task.
    pub task_name: String,
    /// Clock-in time, in whole seconds since the Unix epoch.
    pub started_at: i64,
}

impl Clone for ActiveTask {
    fn clone(&self) -> (res: Self)
        ensures
            res == *self,
    {
        ActiveTask { task_name: self.task_name.clone(), started_at: self.started_at }
    }
}

/// Whole seconds elapsed between clock-in and `now`; a start time in the
/// future (clock skew, or a misread timestamp) counts as zero elapsed.
pub open spec fn spec_elapsed(now: int, started_at: int) -> int {
    if now <= started_at {
        0
    } else {
        now - started_at
    }
}

/// Elapsed whole seconds since `started_at`, exact for every pair of
/// timestamps; negative differences are treated as zero elapsed.
pub fn elapsed_seconds(now: i64, started_at: i64) -> (e: u64)
    ensures
        e == spec_elapsed(now as int, started_at as int),
{
    if now <= started_at {
        0
    } else {
        let wide: i128 = now as i128 - started_at as i128;
        wide as u64
    }
}

/// The single shared slot holding the current clock state.  `None` means
/// "no task active".  Exactly one writer (the poller) replaces the whole
/// value atomically; readers take an owned snapshot, so no reader ever
/// observes a half-written task.
///
/// The round trip is lossless: [`Self::write`] pins the slot's view to
/// exactly the written value, and [`Self::read`] returns exactly the
/// view, so a read after a write yields an equal task, name and
/// timestamp preserved.
pub struct SharedClockState {
    value: Option<ActiveTask>,
}

impl SharedClockState {
    /// The value a reader would currently snapshot.
    pub closed spec fn view(&self) -> Option<ActiveTask> {
        self.value
    }

    /// A fresh slot: no task active at startup.
    pub fn new() -> (s: Self)
        ensures
            s@ is None,
    {
        SharedClockState { value: None }
    }

    /// Atomically replace the whole slot with `new_value`.
    pub fn write(&mut self, new_value: Option<ActiveTask>)
        ensures
            final(self)@ == new_value,
    {
        self.value = new_value;
    }

    /// Take an owned snapshot of the slot; the snapshot equals the stored
    /// value exactly (name and timestamp preserved).
    pub fn read(&self) -> (r: Option<ActiveTask>)
        ensures
            r == self@,
    {
        match &self.value {
            Some(task) => Some(task.clone()),
            None => None,
        }
    }
}

} // verus!
