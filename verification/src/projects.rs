//! The unfinished-projects module's severity rule: how old the oldest
//! uncommitted file is allowed to get before the bar escalates.

use vstd::prelude::*;

use crate::config::UnfinishedProjectsConfig;

verus! {

/// Seconds in a day.
pub const SECONDS_PER_DAY: u64 = 86400;

/// The severity class for the age of the oldest uncommitted file, by the
/// configured day thresholds: critical above `critical_age`, else warning
/// above `warning_age`, else active above `active_age`, else none.
pub open spec fn spec_age_class(
    oldest_age_secs: Option<int>,
    active: int,
    warning: int,
    critical: int,
) -> Option<Seq<char>> {
    match oldest_age_secs {
        None => None,
        Some(age) => {
            if age > 86400 * critical {
                Some("critical"@)
            } else if age > 86400 * warning {
                Some("warning"@)
            } else if age > 86400 * active {
                Some("active"@)
            } else {
                None
            }
        },
    }
}

/// Severity class of the oldest uncommitted file's age under the
/// configured thresholds.
pub fn age_class(oldest_age_secs: Option<u64>, config: &UnfinishedProjectsConfig) -> (r: Option<
    &'static str>)
    requires
        config.active_age <= u64::MAX / 86400,
        config.warning_age <= u64::MAX / 86400,
        config.critical_age <= u64::MAX / 86400,
    ensures
        match (r, spec_age_class(
            match oldest_age_secs {
                None => None,
                Some(a) => Some(a as int),
            },
            config.active_age as int,
            config.warning_age as int,
            config.critical_age as int,
        )) {
            (None, None) => true,
            (Some(s), Some(t)) => s@ == t,
            _ => false,
        },
{
    match oldest_age_secs {
        None => None,
        Some(age) => {
            if age > SECONDS_PER_DAY * config.critical_age {
                Some("critical")
            } else if age > SECONDS_PER_DAY * config.warning_age {
                Some("warning")
            } else if age > SECONDS_PER_DAY * config.active_age {
                Some("active")
            } else {
                None
            }
        },
    }
}

} // verus!
