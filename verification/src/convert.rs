//! The one conversion routine behind every unit method, together with the
//! model of the opaque `Duration` type it produces.

use vstd::prelude::*;
use core::time::Duration;
use crate::Error;

verus! {

/// The exact length of a duration value, in nanoseconds. `Duration` is an
/// opaque external type; this name ties the four unit-scaled constructors
/// below to a single arithmetic scale, so that contracts can compare what
/// they build.
pub uninterp spec fn duration_nanos(d: Duration) -> int;

/// Relies on `core::time::Duration::from_nanos`: a duration of exactly the
/// given number of nanoseconds.
pub assume_specification[ Duration::from_nanos ](nanos: u64) -> (d: Duration)
    ensures
        duration_nanos(d) == nanos as int,
;

/// Relies on `core::time::Duration::from_micros`: a duration of exactly the
/// given number of microseconds, each 1 000 nanoseconds.
pub assume_specification[ Duration::from_micros ](micros: u64) -> (d: Duration)
    ensures
        duration_nanos(d) == micros as int * 1_000,
;

/// Relies on `core::time::Duration::from_millis`: a duration of exactly the
/// given number of milliseconds, each 1 000 000 nanoseconds.
pub assume_specification[ Duration::from_millis ](millis: u64) -> (d: Duration)
    ensures
        duration_nanos(d) == millis as int * 1_000_000,
;

/// Relies on `core::time::Duration::from_secs`: a duration of exactly the
/// given number of seconds, each 1 000 000 000 nanoseconds.
pub assume_specification[ Duration::from_secs ](secs: u64) -> (d: Duration)
    ensures
        duration_nanos(d) == secs as int * 1_000_000_000,
;

/// The time units a duration can be built from.
#[derive(Clone, Copy, Debug)]
pub enum Unit {
    Nanos,
    Micros,
    Millis,
    Secs,
}

/// How many nanoseconds one tick of each unit lasts.
pub open spec fn unit_nanos(unit: Unit) -> int {
    match unit {
        Unit::Nanos => 1,
        Unit::Micros => 1_000,
        Unit::Millis => 1_000_000,
        Unit::Secs => 1_000_000_000,
    }
}

/// What every conversion returns, stated once over the input's mathematical
/// value: a negative input is rejected as [`Error::Convert`], a magnitude
/// above `u64::MAX` as [`Error::OverFlow`], and anything else becomes a
/// duration of exactly `value` ticks of `unit`. Both errors carry the input.
pub open spec fn conversion_result_matches(
    value: int,
    unit: Unit,
    r: Result<Duration, Error>,
) -> bool {
    if value < 0 {
        r matches Err(Error::Convert { number }) && number as int == value
    } else if value > u64::MAX as int {
        r matches Err(Error::OverFlow { number }) && number as int == value
    } else {
        r matches Ok(d) && duration_nanos(d) == value * unit_nanos(unit)
    }
}

/// Builds the duration for an in-range tick count: exactly `count` ticks of
/// `unit`.
pub fn duration_of(count: u64, unit: Unit) -> (d: Duration)
    ensures
        duration_nanos(d) == count as int * unit_nanos(unit),
{
    match unit {
        Unit::Nanos => Duration::from_nanos(count),
        Unit::Micros => Duration::from_micros(count),
        Unit::Millis => Duration::from_millis(count),
        Unit::Secs => Duration::from_secs(count),
    }
}

/// The conversion routine shared by every unsigned representation, widened
/// to `u128`: values up to `u64::MAX` convert exactly, larger ones are
/// rejected.
pub fn convert_unsigned(value: u128, unit: Unit) -> (r: Result<Duration, Error>)
    ensures
        conversion_result_matches(value as int, unit, r),
{
    if value > u64::MAX as u128 {
        Err(Error::OverFlow { number: value })
    } else {
        Ok(duration_of(value as u64, unit))
    }
}

/// The conversion routine shared by every signed representation, widened to
/// `i128`: negative values are rejected, the rest convert as unsigned ones
/// do.
pub fn convert_signed(value: i128, unit: Unit) -> (r: Result<Duration, Error>)
    ensures
        conversion_result_matches(value as int, unit, r),
{
    if value < 0 {
        Err(Error::Convert { number: value })
    } else {
        convert_unsigned(value as u128, unit)
    }
}

} // verus!
