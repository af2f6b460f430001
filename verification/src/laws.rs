//! The guarantees every conversion gives, stated once over the shared
//! contract [`conversion_result_matches`] that each [`During`] method and
//! each routine in [`convert`] ensures.
//!
//! [`During`]: crate::During
//! [`convert`]: crate::convert

use vstd::prelude::*;
use core::time::Duration;
use crate::convert::{conversion_result_matches, duration_nanos, unit_nanos, Unit};
use crate::Error;

verus! {

/// Exactness: every value between zero and `u64::MAX` converts successfully,
/// for every unit, and the duration measures exactly `value` ticks of that
/// unit — the same length the unit's constructor gives that count.
pub proof fn lemma_exact_in_range(value: int, unit: Unit, r: Result<Duration, Error>)
    requires
        0 <= value <= u64::MAX as int,
        conversion_result_matches(value, unit, r),
    ensures
        r matches Ok(d) && duration_nanos(d) == value * unit_nanos(unit),
{
}

/// Negative rejection: every negative value fails, for every unit, with
/// `Error::Convert` carrying that value.
pub proof fn lemma_negative_rejected(value: int, unit: Unit, r: Result<Duration, Error>)
    requires
        value < 0,
        conversion_result_matches(value, unit, r),
    ensures
        r matches Err(Error::Convert { number }) && number as int == value,
{
}

/// Overflow rejection: every value above `u64::MAX` fails, for every unit,
/// with `Error::OverFlow` carrying that value.
pub proof fn lemma_overflow_rejected(value: int, unit: Unit, r: Result<Duration, Error>)
    requires
        value > u64::MAX as int,
        conversion_result_matches(value, unit, r),
    ensures
        r matches Err(Error::OverFlow { number }) && number as int == value,
{
}

/// Zero identity: zero converts successfully, for every representation and
/// every unit, to a zero-length duration.
pub proof fn lemma_zero_converts(unit: Unit, r: Result<Duration, Error>)
    requires
        conversion_result_matches(0, unit, r),
    ensures
        r matches Ok(d) && duration_nanos(d) == 0,
{
}

/// Narrow widths never overflow: no input that fits below `u64::MAX` — in
/// particular no 8-, 16- or 32-bit input, signed or unsigned — is ever
/// rejected for overflow, whatever the unit.
pub proof fn lemma_narrow_never_overflows(value: int, unit: Unit, r: Result<Duration, Error>)
    requires
        value <= u32::MAX as int,
        conversion_result_matches(value, unit, r),
    ensures
        !(r matches Err(Error::OverFlow { number: _ })),
{
}

} // verus!
