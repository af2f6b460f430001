//! Ergonomic conversion of primitive integers into `std::time::Duration`.
//!
//! Every primitive integer type gets the four methods of [`During`], one per
//! time unit, which build a duration of exactly that many ticks or report
//! why they cannot: a negative input, or a magnitude above `u64::MAX`.

use vstd::prelude::*;

pub mod convert;
pub mod laws;

use core::time::Duration;
use convert::{conversion_result_matches, convert_signed, convert_unsigned, Unit};

verus! {

/// Why a conversion into a duration failed. A failed conversion returns no
/// duration at all; the offending input rides along, widened to 128 bits,
/// for diagnostics.
#[derive(Debug, PartialEq, Eq, Structural)]
#[allow(inconsistent_fields)]
pub enum Error {
    /// The input was a negative signed number; durations are non-negative.
    Convert { number: i128 },
    /// The input exceeded `u64::MAX`, the largest tick count the duration
    /// constructors accept.
    OverFlow { number: u128 },
}

/// Conversion of one primitive integer into a `Duration`, one method per
/// time unit. All four share a single contract: the input, read as a
/// mathematical integer, either becomes a duration of exactly that many
/// ticks of the method's unit, or the conversion fails with the error that
/// [`conversion_result_matches`] assigns to it.
pub trait During: Sized {
    /// The mathematical value of the input.
    spec fn as_integer(self) -> int;

    fn micros(self) -> (r: Result<Duration, Error>)
        ensures
            conversion_result_matches(self.as_integer(), Unit::Micros, r),
    ;

    fn millis(self) -> (r: Result<Duration, Error>)
        ensures
            conversion_result_matches(self.as_integer(), Unit::Millis, r),
    ;

    fn nanos(self) -> (r: Result<Duration, Error>)
        ensures
            conversion_result_matches(self.as_integer(), Unit::Nanos, r),
    ;

    fn sec(self) -> (r: Result<Duration, Error>)
        ensures
            conversion_result_matches(self.as_integer(), Unit::Secs, r),
    ;
}

impl During for u8 {
    open spec fn as_integer(self) -> int {
        self as int
    }

    fn micros(self) -> Result<Duration, Error> {
        convert_unsigned(self as u128, Unit::Micros)
    }

    fn millis(self) -> Result<Duration, Error> {
        convert_unsigned(self as u128, Unit::Millis)
    }

    fn nanos(self) -> Result<Duration, Error> {
        convert_unsigned(self as u128, Unit::Nanos)
    }

    fn sec(self) -> Result<Duration, Error> {
        convert_unsigned(self as u128, Unit::Secs)
    }
}

impl During for u16 {
    open spec fn as_integer(self) -> int {
        self as int
    }

    fn micros(self) -> Result<Duration, Error> {
        convert_unsigned(self as u128, Unit::Micros)
    }

    fn millis(self) -> Result<Duration, Error> {
        convert_unsigned(self as u128, Unit::Millis)
    }

    fn nanos(self) -> Result<Duration, Error> {
        convert_unsigned(self as u128, Unit::Nanos)
    }

    fn sec(self) -> Result<Duration, Error> {
        convert_unsigned(self as u128, Unit::Secs)
    }
}

impl During for u32 {
    open spec fn as_integer(self) -> int {
        self as int
    }

    fn micros(self) -> Result<Duration, Error> {
        convert_unsigned(self as u128, Unit::Micros)
    }

    fn millis(self) -> Result<Duration, Error> {
        convert_unsigned(self as u128, Unit::Millis)
    }

    fn nanos(self) -> Result<Duration, Error> {
        convert_unsigned(self as u128, Unit::Nanos)
    }

    fn sec(self) -> Result<Duration, Error> {
        convert_unsigned(self as u128, Unit::Secs)
    }
}

impl During for u64 {
    open spec fn as_integer(self) -> int {
        self as int
    }

    fn micros(self) -> Result<Duration, Error> {
        convert_unsigned(self as u128, Unit::Micros)
    }

    fn millis(self) -> Result<Duration, Error> {
        convert_unsigned(self as u128, Unit::Millis)
    }

    fn nanos(self) -> Result<Duration, Error> {
        convert_unsigned(self as u128, Unit::Nanos)
    }

    fn sec(self) -> Result<Duration, Error> {
        convert_unsigned(self as u128, Unit::Secs)
    }
}

impl During for u128 {
    open spec fn as_integer(self) -> int {
        self as int
    }

    fn micros(self) -> Result<Duration, Error> {
        convert_unsigned(self, Unit::Micros)
    }

    fn millis(self) -> Result<Duration, Error> {
        convert_unsigned(self, Unit::Millis)
    }

    fn nanos(self) -> Result<Duration, Error> {
        convert_unsigned(self, Unit::Nanos)
    }

    fn sec(self) -> Result<Duration, Error> {
        convert_unsigned(self, Unit::Secs)
    }
}

impl During for i8 {
    open spec fn as_integer(self) -> int {
        self as int
    }

    fn micros(self) -> Result<Duration, Error> {
        convert_signed(self as i128, Unit::Micros)
    }

    fn millis(self) -> Result<Duration, Error> {
        convert_signed(self as i128, Unit::Millis)
    }

    fn nanos(self) -> Result<Duration, Error> {
        convert_signed(self as i128, Unit::Nanos)
    }

    fn sec(self) -> Result<Duration, Error> {
        convert_signed(self as i128, Unit::Secs)
    }
}

impl During for i16 {
    open spec fn as_integer(self) -> int {
        self as int
    }

    fn micros(self) -> Result<Duration, Error> {
        convert_signed(self as i128, Unit::Micros)
    }

    fn millis(self) -> Result<Duration, Error> {
        convert_signed(self as i128, Unit::Millis)
    }

    fn nanos(self) -> Result<Duration, Error> {
        convert_signed(self as i128, Unit::Nanos)
    }

    fn sec(self) -> Result<Duration, Error> {
        convert_signed(self as i128, Unit::Secs)
    }
}

impl During for i32 {
    open spec fn as_integer(self) -> int {
        self as int
    }

    fn micros(self) -> Result<Duration, Error> {
        convert_signed(self as i128, Unit::Micros)
    }

    fn millis(self) -> Result<Duration, Error> {
        convert_signed(self as i128, Unit::Millis)
    }

    fn nanos(self) -> Result<Duration, Error> {
        convert_signed(self as i128, Unit::Nanos)
    }

    fn sec(self) -> Result<Duration, Error> {
        convert_signed(self as i128, Unit::Secs)
    }
}

impl During for i64 {
    open spec fn as_integer(self) -> int {
        self as int
    }

    fn micros(self) -> Result<Duration, Error> {
        convert_signed(self as i128, Unit::Micros)
    }

    fn millis(self) -> Result<Duration, Error> {
        convert_signed(self as i128, Unit::Millis)
    }

    fn nanos(self) -> Result<Duration, Error> {
        convert_signed(self as i128, Unit::Nanos)
    }

    fn sec(self) -> Result<Duration, Error> {
        convert_signed(self as i128, Unit::Secs)
    }
}

impl During for i128 {
    open spec fn as_integer(self) -> int {
        self as int
    }

    fn micros(self) -> Result<Duration, Error> {
        convert_signed(self, Unit::Micros)
    }

    fn millis(self) -> Result<Duration, Error> {
        convert_signed(self, Unit::Millis)
    }

    fn nanos(self) -> Result<Duration, Error> {
        convert_signed(self, Unit::Nanos)
    }

    fn sec(self) -> Result<Duration, Error> {
        convert_signed(self, Unit::Secs)
    }
}

} // verus!
