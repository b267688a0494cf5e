//! Error kinds of the clock-tracking agent.  None of them is ever fatal:
//! the loops catch them at their boundary, report, and carry on.

use vstd::prelude::*;

verus! {

/// The reported clock-in time could not be turned into a timestamp.
#[derive(Clone, Copy, Debug, PartialEq, Eq, Structural)]
pub enum TimestampConversionError {
    /// The text was not a decimal number.
    NotANumber,
    /// The whole-second value does not fit the timestamp range.
    OutOfRange,
}

/// A query against the external timer failed.
#[derive(Clone, Copy, Debug, PartialEq, Eq, Structural)]
pub enum QueryError {
    /// The external process could not be invoked or exited non-zero.
    Unreachable,
    /// The query answered with output that is not valid text.
    MalformedOutput,
    /// The clock-in time in the answer was unusable.
    Timestamp(TimestampConversionError),
}

/// The configuration store had no usable module configuration.  Only the
/// notification scheduler is disabled by this; the other loops continue.
#[derive(Clone, Copy, Debug, PartialEq, Eq, Structural)]
pub enum ConfigLoadError {
    /// No configuration file was found.
    Missing,
    /// A configuration file was found but could not be used.
    Invalid,
}

/// A desktop alert could not be delivered.  Logged and ignored; it never
/// alters the computed schedule.
#[derive(Clone, Copy, Debug, PartialEq, Eq, Structural)]
pub struct NotifySinkError;

} // verus!
