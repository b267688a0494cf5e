use waybar_extensions::config::OrgClockConfig;
use waybar_extensions::display::{next_second_sleep_nanos, render_status};
use waybar_extensions::error::{QueryError, TimestampConversionError};
use waybar_extensions::notify::{get_notify_sleep_time, notify_step, render_reminder_body};
use waybar_extensions::poller::updater;
use waybar_extensions::source::{clock_running, get_start_time, get_task};
use waybar_extensions::state::{elapsed_seconds, ActiveTask, SharedClockState};

fn clock_config(notify_time: u32, notify_interval: u32) -> OrgClockConfig {
    OrgClockConfig {
        notify_time,
        notify_interval,
        alert_time: 0,
    }
}

#[test]
fn sleep_lands_on_grid() {
    let config = clock_config(30, 15);
    for delta in [0u64, 1, 59, 60, 899, 900, 901, 1740, 1800, 1860, 2760, 100_000] {
        let sleep = get_notify_sleep_time(&config, delta);
        assert!(sleep > 0);
        assert!(sleep <= 900);
        assert_eq!((delta + sleep) % 900, 1800 % 900);
    }
    let config = clock_config(25, 10);
    for delta in [0u64, 299, 300, 301, 1500, 1501, 7219] {
        let sleep = get_notify_sleep_time(&config, delta);
        assert!(sleep > 0);
        assert!(sleep <= 600);
        assert_eq!((delta + sleep) % 600, 1500 % 600);
    }
}

#[test]
fn no_reminder_at_or_below_threshold() {
    let config = clock_config(30, 15);
    let task = ActiveTask {
        task_name: String::from("Writing"),
        started_at: 0,
    };
    let state = Some(task);
    for minutes in [0i64, 1, 15, 29, 30] {
        let decision = notify_step(&config, &state, minutes * 60);
        assert!(decision.reminder.is_none());
    }
}

#[test]
fn reminder_above_threshold_with_next_grid_wakeup() {
    let config = clock_config(30, 15);
    let task = ActiveTask {
        task_name: String::from("Writing"),
        started_at: 0,
    };
    let state = Some(task);
    for minutes in [31u64, 44, 45, 46, 60, 1000] {
        let decision = notify_step(&config, &state, minutes as i64 * 60);
        assert_eq!(decision.reminder, Some(minutes));
        let delta = minutes * 60;
        assert!(decision.sleep_secs > 0 && decision.sleep_secs <= 900);
        assert_eq!((delta + decision.sleep_secs) % 900, 0);
    }
}

#[test]
fn scenario_thirty_fifteen() {
    let config = clock_config(30, 15);
    let task = ActiveTask {
        task_name: String::from("Writing"),
        started_at: 0,
    };
    let state = Some(task);

    let at_29 = notify_step(&config, &state, 29 * 60);
    assert!(at_29.reminder.is_none());
    assert_eq!(at_29.sleep_secs, 60);

    let at_31 = notify_step(&config, &state, 31 * 60);
    assert_eq!(at_31.reminder, Some(31));
    assert_eq!(at_31.sleep_secs, 14 * 60);

    let at_46 = notify_step(&config, &state, 46 * 60);
    assert_eq!(at_46.reminder, Some(46));
    assert_eq!(at_46.sleep_secs, 14 * 60);
}

#[test]
fn idle_scheduler_sleeps_one_interval() {
    let config = clock_config(30, 15);
    let decision = notify_step(&config, &None, 123_456);
    assert!(decision.reminder.is_none());
    assert_eq!(decision.sleep_secs, 15 * 60);
}

#[test]
fn config_validity() {
    assert!(clock_config(30, 15).is_valid());
    assert!(!clock_config(30, 0).is_valid());
}

#[test]
fn shared_state_round_trip() {
    let mut slot = SharedClockState::new();
    assert!(slot.read().is_none());
    slot.write(Some(ActiveTask {
        task_name: String::from("Deep work"),
        started_at: 1_697_040_000,
    }));
    let snapshot = slot.read().expect("a task was written");
    assert_eq!(snapshot.task_name, "Deep work");
    assert_eq!(snapshot.started_at, 1_697_040_000);
    slot.write(None);
    assert!(slot.read().is_none());
}

#[test]
fn failed_poll_keeps_previous_state() {
    let mut slot = SharedClockState::new();
    slot.write(Some(ActiveTask {
        task_name: String::from("Deep work"),
        started_at: 100,
    }));
    let outcome = updater(&mut slot, Err(QueryError::Unreachable));
    assert_eq!(outcome, Err(QueryError::Unreachable));
    let snapshot = slot.read().expect("state must survive a failed poll");
    assert_eq!(snapshot.task_name, "Deep work");
    assert_eq!(snapshot.started_at, 100);
}

#[test]
fn successful_poll_replaces_state() {
    let mut slot = SharedClockState::new();
    slot.write(Some(ActiveTask {
        task_name: String::from("Old"),
        started_at: 1,
    }));
    assert!(updater(&mut slot, Ok(None)).is_ok());
    assert!(slot.read().is_none());
    assert!(updater(
        &mut slot,
        Ok(Some(ActiveTask {
            task_name: String::from("New"),
            started_at: 2,
        }))
    )
    .is_ok());
    assert_eq!(slot.read().unwrap().task_name, "New");
}

#[test]
fn rendering_elapsed_times() {
    let task = Some(ActiveTask {
        task_name: String::from("Focus"),
        started_at: 0,
    });
    let line = render_status(&task, 3661);
    assert_eq!(line.text, "Focus: 01:01:01");
    assert_eq!(line.tooltip, "");
    assert!(line.class.is_empty());

    let zero = render_status(&task, 0);
    assert_eq!(zero.text, "Focus: 00:00:00");

    let idle = render_status(&None, 3661);
    assert_eq!(idle.text, "Untracked time");
    assert_eq!(idle.tooltip, "");
    assert!(idle.class.is_empty());
}

#[test]
fn rendering_long_and_skewed_times() {
    let task = Some(ActiveTask {
        task_name: String::from("Marathon"),
        started_at: 0,
    });
    let long = render_status(&task, 123 * 3600 + 2 * 60 + 5);
    assert_eq!(long.text, "Marathon: 123:02:05");
    // a start time in the future counts as zero elapsed
    let skewed = render_status(&task, -5);
    assert_eq!(skewed.text, "Marathon: 00:00:00");
}

#[test]
fn elapsed_is_exact_whole_seconds() {
    assert_eq!(elapsed_seconds(1_697_040_010, 1_697_040_000), 10);
    assert_eq!(elapsed_seconds(5, 5), 0);
    assert_eq!(elapsed_seconds(4, 5), 0);
    assert_eq!(elapsed_seconds(i64::MAX, i64::MIN), u64::MAX);
}

#[test]
fn liveness_marker() {
    assert!(!clock_running("#<marker in no buffer>"));
    assert!(clock_running("#<marker at 2094 in tasks.org>"));
    assert!(clock_running(""));
}

#[test]
fn task_name_is_unquoted() {
    assert_eq!(get_task("\"Write report\""), "Write report");
    assert_eq!(get_task("no quotes"), "no quotes");
    assert_eq!(get_task("\"\""), "");
    assert_eq!(get_task("\"a \"quoted\" part\""), "a \"quoted\" part");
    assert_eq!(get_task(""), "");
}

#[test]
fn start_time_parses_whole_seconds() {
    assert_eq!(get_start_time("1697040000.123456"), Ok(1_697_040_000));
    assert_eq!(get_start_time("0"), Ok(0));
    assert_eq!(get_start_time("42"), Ok(42));
    assert_eq!(get_start_time("42."), Ok(42));
    assert_eq!(get_start_time(".5"), Ok(0));
    assert_eq!(get_start_time("+7.9"), Ok(7));
    assert_eq!(get_start_time("-1.5"), Ok(-1));
    assert_eq!(get_start_time("-0.25"), Ok(0));
}

#[test]
fn start_time_range_limits() {
    assert_eq!(get_start_time("9223372036854775807"), Ok(i64::MAX));
    assert_eq!(
        get_start_time("9223372036854775808"),
        Err(TimestampConversionError::OutOfRange)
    );
    assert_eq!(get_start_time("-9223372036854775808"), Ok(i64::MIN));
    assert_eq!(
        get_start_time("-9223372036854775809"),
        Err(TimestampConversionError::OutOfRange)
    );
    assert_eq!(
        get_start_time("99999999999999999999999.5"),
        Err(TimestampConversionError::OutOfRange)
    );
}

#[test]
fn start_time_rejects_non_numbers() {
    for bad in ["", ".", "-", "+", "-.", "abc", "12a", "1.2.3", "1e5", " 1", "1 "] {
        assert_eq!(
            get_start_time(bad),
            Err(TimestampConversionError::NotANumber),
            "input {:?} must be rejected",
            bad
        );
    }
}

#[test]
fn reminder_body_text() {
    assert_eq!(render_reminder_body(90), "You've worked for 90 minutes");
    assert_eq!(render_reminder_body(0), "You've worked for 0 minutes");
}

#[test]
fn second_alignment_sleep() {
    assert_eq!(next_second_sleep_nanos(250_000_000), 750_000_000);
    assert_eq!(next_second_sleep_nanos(0), 1_000_000_000);
    assert_eq!(next_second_sleep_nanos(999_999_999), 1);
}
