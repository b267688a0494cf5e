//! The weather module's data records and the compass-point naming of a
//! wind direction.

use vstd::prelude::*;

verus! {

/// One weather condition entry of a weather report.
pub struct Weather {
    /// Condition id.
    pub id: i64,
    /// Condition group, e.g. "Rain".
    pub main: String,
    /// Condition text within the group.
    pub description: String,
    /// Icon name.
    pub icon: String,
}

/// Cloudiness of a weather report.
pub struct Clouds {
    /// Cloudiness in percent.
    pub all: i64,
}

/// System data of a weather report.
pub struct Sys {
    /// Internal parameter.
    pub type_field: i64,
    /// Internal parameter.
    pub id: i64,
    /// Country code.
    pub country: String,
    /// Sunrise, seconds since the epoch.
    pub sunrise: i64,
    /// Sunset, seconds since the epoch.
    pub sunset: i64,
}

/// The sixteen-point compass name for a wind direction given in degrees,
/// with north wrapping around at both ends of the scale.
pub open spec fn spec_wind_direction(angle: int) -> Seq<char>
    recommends
        0 <= angle <= 360,
{
    if angle <= 11 {
        "N"@
    } else if angle <= 33 {
        "NNE"@
    } else if angle <= 56 {
        "NE"@
    } else if angle <= 78 {
        "ENE"@
    } else if angle <= 101 {
        "E"@
    } else if angle <= 123 {
        "ESE"@
    } else if angle <= 146 {
        "SE"@
    } else if angle <= 168 {
        "SSE"@
    } else if angle <= 191 {
        "S"@
    } else if angle <= 213 {
        "SSW"@
    } else if angle <= 236 {
        "SW"@
    } else if angle <= 258 {
        "WSW"@
    } else if angle <= 281 {
        "W"@
    } else if angle <= 303 {
        "WNW"@
    } else if angle <= 326 {
        "NW"@
    } else if angle <= 348 {
        "NNW"@
    } else {
        "N"@
    }
}

/// Compass-point name of a wind direction; degrees beyond a full turn
/// have no name.
pub fn get_wind_direction(angle: u16) -> (r: &'static str)
    requires
        angle <= 360,
    ensures
        r@ == spec_wind_direction(angle as int),
{
    if angle <= 11 {
        "N"
    } else if angle <= 33 {
        "NNE"
    } else if angle <= 56 {
        "NE"
    } else if angle <= 78 {
        "ENE"
    } else if angle <= 101 {
        "E"
    } else if angle <= 123 {
        "ESE"
    } else if angle <= 146 {
        "SE"
    } else if angle <= 168 {
        "SSE"
    } else if angle <= 191 {
        "S"
    } else if angle <= 213 {
        "SSW"
    } else if angle <= 236 {
        "SW"
    } else if angle <= 258 {
        "WSW"
    } else if angle <= 281 {
        "W"
    } else if angle <= 303 {
        "WNW"
    } else if angle <= 326 {
        "NW"
    } else if angle <= 348 {
        "NNW"
    } else {
        "N"
    }
}

} // verus!
