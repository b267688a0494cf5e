//! The state poller's write step: how one poll outcome changes the shared
//! slot.

use vstd::prelude::*;

use crate::error::QueryError;
use crate::state::{ActiveTask, SharedClockState};

verus! {

/// Apply the outcome of one poll of the external timer to the shared
/// slot.
///
/// A successful poll replaces the slot with exactly what was reported,
/// task present or not.  A failed poll leaves the slot untouched and
/// hands the error back for logging: the external source may be
/// transiently unavailable while a task is genuinely still running, so a
/// single failure must never clear an already-active task.
pub fn updater(state: &mut SharedClockState, poll: Result<Option<ActiveTask>, QueryError>) -> (r:
    Result<(), QueryError>)
    ensures
        match poll {
            Ok(value) => final(state)@ == value && r is Ok,
            Err(e) => final(state)@ == old(state)@ && r == Err::<(), QueryError>(e),
        },
{
    match poll {
        Ok(value) => {
            state.write(value);
            Ok(())
        },
        Err(e) => Err(e),
    }
}

} // verus!
