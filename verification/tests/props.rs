use std::time::Duration;
use tarde::convert::{convert_signed, convert_unsigned, duration_of, Unit};
use tarde::{During, Error};

#[test]
fn exact_for_each_unit() {
    let v: u64 = 12345;
    assert_eq!(v.nanos(), Ok(Duration::from_nanos(12345)));
    assert_eq!(v.micros(), Ok(Duration::from_micros(12345)));
    assert_eq!(v.millis(), Ok(Duration::from_millis(12345)));
    assert_eq!(v.sec(), Ok(Duration::from_secs(12345)));
}

#[test]
fn exact_units_are_distinct() {
    // One millisecond is a thousand microseconds: the unit methods must not
    // collapse into one another.
    assert_eq!(1u8.millis(), Ok(Duration::from_micros(1000)));
    assert_ne!(1u8.millis(), Ok(Duration::from_micros(1)));
    assert_eq!(2u8.sec(), Ok(Duration::from_millis(2000)));
    assert_ne!(2u8.sec(), Ok(Duration::from_millis(2)));
}

#[test]
fn zero_for_every_representation() {
    assert_eq!(0u8.millis(), Ok(Duration::from_millis(0)));
    assert_eq!(0u16.millis(), Ok(Duration::from_millis(0)));
    assert_eq!(0u32.millis(), Ok(Duration::from_millis(0)));
    assert_eq!(0u64.millis(), Ok(Duration::from_millis(0)));
    assert_eq!(0u128.millis(), Ok(Duration::from_millis(0)));
    assert_eq!(0i8.millis(), Ok(Duration::from_millis(0)));
    assert_eq!(0i16.millis(), Ok(Duration::from_millis(0)));
    assert_eq!(0i32.millis(), Ok(Duration::from_millis(0)));
    assert_eq!(0i64.millis(), Ok(Duration::from_millis(0)));
    assert_eq!(0i128.millis(), Ok(Duration::from_millis(0)));
}

#[test]
fn zero_for_every_unit() {
    assert_eq!(0i64.nanos(), Ok(Duration::from_nanos(0)));
    assert_eq!(0i64.micros(), Ok(Duration::from_micros(0)));
    assert_eq!(0i64.millis(), Ok(Duration::from_millis(0)));
    assert_eq!(0i64.sec(), Ok(Duration::from_secs(0)));
}

#[test]
fn negative_carries_the_value() {
    assert_eq!((-42i8).nanos(), Err(Error::Convert { number: -42 }));
    assert_eq!((-42i16).micros(), Err(Error::Convert { number: -42 }));
    assert_eq!((-42i32).millis(), Err(Error::Convert { number: -42 }));
    assert_eq!((-42i64).sec(), Err(Error::Convert { number: -42 }));
    assert_eq!(
        i128::MIN.sec(),
        Err(Error::Convert {
            number: i128::MIN
        })
    );
    assert_eq!(
        (i64::MIN).millis(),
        Err(Error::Convert {
            number: i64::MIN as i128
        })
    );
}

#[test]
fn overflow_carries_the_value() {
    assert_eq!(
        u128::MAX.nanos(),
        Err(Error::OverFlow { number: u128::MAX })
    );
    assert_eq!(
        i128::MAX.micros(),
        Err(Error::OverFlow {
            number: i128::MAX as u128
        })
    );
}

#[test]
fn boundary_milliseconds() {
    let max: u128 = u64::MAX as u128;
    assert_eq!(max.millis(), Ok(Duration::from_millis(u64::MAX)));
    assert_eq!(
        (max + 1).millis(),
        Err(Error::OverFlow {
            number: 18446744073709551616
        })
    );
}

#[test]
fn signed_boundary_seconds() {
    assert_eq!((-1i64).sec(), Err(Error::Convert { number: -1 }));
    assert_eq!(1i64.sec(), Ok(Duration::from_secs(1)));
}

#[test]
fn narrow_widths_never_overflow() {
    assert_eq!(u8::MAX.nanos(), Ok(Duration::from_nanos(255)));
    assert_eq!(u16::MAX.micros(), Ok(Duration::from_micros(65535)));
    assert_eq!(u32::MAX.sec(), Ok(Duration::from_secs(4294967295)));
    assert_eq!(i8::MAX.millis(), Ok(Duration::from_millis(127)));
    assert_eq!(i16::MAX.nanos(), Ok(Duration::from_nanos(32767)));
    assert_eq!(i32::MAX.micros(), Ok(Duration::from_micros(2147483647)));
}

#[test]
fn unsigned_top_values_fit() {
    assert_eq!(u64::MAX.sec(), Ok(Duration::from_secs(u64::MAX)));
    assert_eq!(u64::MAX.nanos(), Ok(Duration::from_nanos(u64::MAX)));
    assert_eq!(
        i64::MAX.sec(),
        Ok(Duration::from_secs(i64::MAX as u64))
    );
}

#[test]
fn shared_routines_match_the_methods() {
    assert_eq!(convert_unsigned(7, Unit::Secs), Ok(Duration::from_secs(7)));
    assert_eq!(
        convert_unsigned(u64::MAX as u128 + 1, Unit::Nanos),
        Err(Error::OverFlow {
            number: u64::MAX as u128 + 1
        })
    );
    assert_eq!(convert_signed(-3, Unit::Nanos), Err(Error::Convert { number: -3 }));
    assert_eq!(convert_signed(9, Unit::Micros), Ok(Duration::from_micros(9)));
    assert_eq!(duration_of(31, Unit::Millis), Duration::from_millis(31));
}
