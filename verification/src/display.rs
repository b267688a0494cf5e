//! The display refresher's rendering: the elapsed-time line for the
//! status bar, and the sleep that keeps the refresh aligned to wall-clock
//! second boundaries.

use vstd::prelude::*;
use vstd::string::StringExecFns;

use crate::state::{spec_elapsed, ActiveTask};
use crate::text::{dec_str_pad2, push_decimal_pad2};
use crate::waybar::WaybarResponse;

verus! {

/// `elapsed` whole seconds rendered as `HH:MM:SS`: zero-padded two-digit
/// fields, with the hours field growing beyond two digits when needed.
pub open spec fn spec_hhmmss(elapsed: int) -> Seq<char>
    recommends
        elapsed >= 0,
{
    dec_str_pad2((elapsed / 3600) as nat) + seq![':'] + dec_str_pad2(((elapsed / 60) % 60) as nat)
        + seq![':'] + dec_str_pad2((elapsed % 60) as nat)
}

/// The bar text for the current clock state at time `now`: the task name
/// followed by its elapsed time, or the fixed no-task label.
pub open spec fn spec_status_text(state: Option<ActiveTask>, now: int) -> Seq<char> {
    match state {
        Some(task) => task.task_name@ + ": "@ + spec_hhmmss(
            spec_elapsed(now, task.started_at as int),
        ),
        None => "Untracked time"@,
    }
}

/// Append `HH:MM:SS` for `elapsed` seconds to `s`.
fn push_hhmmss(s: &mut String, elapsed: u64)
    ensures
        final(s)@ == old(s)@ + spec_hhmmss(elapsed as int),
{
    push_decimal_pad2(s, elapsed / 3600);
    s.append(":");
    push_decimal_pad2(s, (elapsed / 60) % 60);
    s.append(":");
    push_decimal_pad2(s, elapsed % 60);
    proof {
        reveal_strlit(":");
        assert(":"@ =~= seq![':']);
        assert(final(s)@ =~= old(s)@ + spec_hhmmss(elapsed as int));
    }
}

/// One display cycle at time `now`: the full status-bar line for the
/// current clock state.  The tooltip is empty and no styling classes are
/// emitted by this module.
pub fn render_status(state: &Option<ActiveTask>, now: i64) -> (r: WaybarResponse)
    ensures
        r.text@ == spec_status_text(*state, now as int),
        r.tooltip@ == Seq::<char>::empty(),
        r.class@.len() == 0,
{
    let text = match state {
        Some(task) => {
            let elapsed = crate::state::elapsed_seconds(now, task.started_at);
            let mut line = task.task_name.clone();
            line.append(": ");
            push_hhmmss(&mut line, elapsed);
            proof {
                assert(line@ =~= spec_status_text(*state, now as int));
            }
            line
        },
        None => "Untracked time".to_owned(),
    };
    WaybarResponse { text, tooltip: String::new(), class: Vec::new() }
}

/// Nanoseconds to sleep so the next refresh happens exactly on the next
/// integral second, given the current sub-second position; a fixed tick
/// would drift instead.
pub fn next_second_sleep_nanos(subsec_nanos: u32) -> (n: u32)
    requires
        subsec_nanos < 1_000_000_000,
    ensures
        n == 1_000_000_000 - subsec_nanos,
        0 < n <= 1_000_000_000,
{
    1_000_000_000 - subsec_nanos
}

} // verus!
