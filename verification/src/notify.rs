//! The break-reminder scheduler: decides each cycle whether a reminder is
//! due and how long to sleep so that the next wake-up lands exactly on the
//! reminder grid.
//!
//! Reminders are phase-locked to task start: once `notify_time` has
//! elapsed they recur every `notify_interval`, at points that are
//! `notify_time mod notify_interval` seconds past a multiple of
//! `notify_interval` measured from clock-in.  The sleep duration is
//! recomputed every cycle rather than ticking at a fixed rate, so the
//! schedule neither drifts nor busy-polls.

use vstd::prelude::*;
use vstd::arithmetic::div_mod::{
    lemma_fundamental_div_mod, lemma_fundamental_div_mod_converse_mod,
};
use vstd::string::StringExecFns;

use crate::config::OrgClockConfig;
use crate::state::{spec_elapsed, ActiveTask};
use crate::text::dec_str;

verus! {

/// The sleep the scheduler picks when `delta_secs` seconds have elapsed:
/// the distance to the first instant strictly after `delta_secs` that is
/// `notify_time_secs mod notify_interval_secs` past a multiple of
/// `notify_interval_secs`.
pub open spec fn spec_notify_sleep(
    notify_time_secs: int,
    notify_interval_secs: int,
    delta_secs: int,
) -> int
    recommends
        notify_interval_secs > 0,
{
    let offset = notify_time_secs % notify_interval_secs;
    ((delta_secs + notify_interval_secs - offset) / notify_interval_secs) * notify_interval_secs
        + offset - delta_secs
}

/// Seconds to sleep until the next reminder grid point.
///
/// The postcondition pins the whole schedule: the sleep is strictly
/// positive, never longer than one interval, and waking after it lands
/// exactly on the grid (`(delta + sleep) mod interval == notify_time mod
/// interval`, all in seconds).
pub fn get_notify_sleep_time(clock_config: &OrgClockConfig, delta_secs: u64) -> (sleep: u64)
    requires
        clock_config.notify_interval > 0,
        delta_secs + 60 * (clock_config.notify_interval as int) <= u64::MAX,
    ensures
        sleep == spec_notify_sleep(
            60 * (clock_config.notify_time as int),
            60 * (clock_config.notify_interval as int),
            delta_secs as int,
        ),
        0 < sleep <= 60 * (clock_config.notify_interval as int),
        (delta_secs + sleep) % (60 * (clock_config.notify_interval as int)) == (60 * (
        clock_config.notify_time as int)) % (60 * (clock_config.notify_interval as int)),
{
    let notify_time: u64 = clock_config.notify_time as u64 * 60;
    let notify_interval: u64 = clock_config.notify_interval as u64 * 60;

    let offset: u64 = notify_time % notify_interval;
    let ghost x: int = delta_secs + notify_interval - offset;
    let ghost q: int = x / (notify_interval as int);
    let ghost r: int = x % (notify_interval as int);
    proof {
        lemma_fundamental_div_mod(x, notify_interval as int);
    }
    let sleep: u64 = ((delta_secs + notify_interval - offset) / notify_interval) * notify_interval
        + offset - delta_secs;
    proof {
        assert(sleep == notify_interval - r);
        assert(delta_secs + sleep == q * (notify_interval as int) + offset);
        lemma_fundamental_div_mod_converse_mod(
            delta_secs + sleep,
            notify_interval as int,
            q,
            offset as int,
        );
    }
    sleep
}

/// The grid point the scheduler wakes at is the *next* one: no instant
/// strictly between the current elapsed time and the computed wake-up is
/// on the reminder grid.
pub proof fn lemma_sleep_is_next_grid_point(
    notify_time_secs: int,
    notify_interval_secs: int,
    delta_secs: int,
    s: int,
)
    requires
        notify_interval_secs > 0,
        notify_time_secs >= 0,
        delta_secs >= 0,
        0 < s < spec_notify_sleep(notify_time_secs, notify_interval_secs, delta_secs),
    ensures
        (delta_secs + s) % notify_interval_secs != notify_time_secs % notify_interval_secs,
{
    let i = notify_interval_secs;
    let offset = notify_time_secs % i;
    let x = delta_secs + i - offset;
    let q = x / i;
    let r = x % i;
    lemma_fundamental_div_mod(x, i);
    let sleep = spec_notify_sleep(notify_time_secs, i, delta_secs);
    assert(sleep == i - r);
    assert(delta_secs + sleep == q * i + offset);
    if (delta_secs + s) % i == offset {
        let q2 = (delta_secs + s) / i;
        let r2 = (delta_secs + s) % i;
        lemma_fundamental_div_mod(delta_secs + s, i);
        assert(delta_secs + s == i * q2 + offset);
        assert(i * (q - q2) == sleep - s) by (nonlinear_arith)
            requires
                delta_secs + sleep == q * i + offset,
                delta_secs + s == i * q2 + offset,
        ;
        assert(0 < i * (q - q2) < i);
        assert(false) by (nonlinear_arith)
            requires
                i > 0,
                0 < i * (q - q2) < i,
        ;
    }
}

/// What the scheduler does on one cycle: the reminder to send, if one is
/// due, and the seconds to sleep before the next check.
pub struct NotifyDecision {
    /// `Some(minutes)` when a reminder is due, carrying the whole minutes
    /// worked so far for the reminder text; `None` otherwise.
    pub reminder: Option<u64>,
    /// Seconds to sleep before the next check.
    pub sleep_secs: u64,
}

/// One scheduler cycle at time `now` against the current shared state.
///
/// With no active task the scheduler just re-checks one interval later.
/// With an active task, a reminder is due exactly when the whole minutes
/// elapsed exceed `notify_time`, and the sleep is the grid-aligned one of
/// [`get_notify_sleep_time`].  Whether the reminder can actually be
/// delivered does not enter into it: delivery failures must not alter the
/// schedule.
pub fn notify_step(clock_config: &OrgClockConfig, state: &Option<ActiveTask>, now: i64) -> (d:
    NotifyDecision)
    requires
        clock_config.notify_interval > 0,
        state matches Some(task) ==> spec_elapsed(now as int, task.started_at as int) + 60 * (
        clock_config.notify_interval as int) <= u64::MAX,
    ensures
        match *state {
            None => d.reminder is None && d.sleep_secs == 60 * (
            clock_config.notify_interval as int),
            Some(task) => {
                let delta = spec_elapsed(now as int, task.started_at as int);
                &&& d.reminder == (if delta / 60 > clock_config.notify_time as int {
                    Some((delta / 60) as u64)
                } else {
                    None::<u64>
                })
                &&& d.sleep_secs == spec_notify_sleep(
                    60 * (clock_config.notify_time as int),
                    60 * (clock_config.notify_interval as int),
                    delta,
                )
                &&& (delta + d.sleep_secs) % (60 * (clock_config.notify_interval as int)) == (60
                    * (clock_config.notify_time as int)) % (60 * (
                clock_config.notify_interval as int))
            },
        },
{
    match state {
        None => NotifyDecision {
            reminder: None,
            sleep_secs: clock_config.notify_interval as u64 * 60,
        },
        Some(task) => {
            let delta_secs = crate::state::elapsed_seconds(now, task.started_at);
            let minutes = delta_secs / 60;
            let reminder = if minutes > clock_config.notify_time as u64 {
                Some(minutes)
            } else {
                None
            };
            let sleep_secs = get_notify_sleep_time(clock_config, delta_secs);
            NotifyDecision { reminder, sleep_secs }
        },
    }
}

/// Text of the reminder body, naming the whole minutes worked.
pub fn render_reminder_body(minutes: u64) -> (r: String)
    ensures
        r@ == "You've worked for "@ + dec_str(minutes as nat) + " minutes"@,
{
    let mut body = String::new();
    body.append("You've worked for ");
    crate::text::push_decimal(&mut body, minutes);
    body.append(" minutes");
    proof {
        assert(body@ =~= "You've worked for "@ + dec_str(minutes as nat) + " minutes"@);
    }
    body
}

} // verus!

