use todoproxy::habitica_integration::client::{answer_error, HabiticaError};
use todoproxy::utils::{i64_to_decimal, millis_since_epoch, u16_to_decimal, u64_to_decimal};

#[test]
fn decimal_rendering() {
    assert_eq!(u64_to_decimal(0), "0");
    assert_eq!(u64_to_decimal(9), "9");
    assert_eq!(u64_to_decimal(10), "10");
    assert_eq!(u64_to_decimal(1234567890), "1234567890");
    assert_eq!(u64_to_decimal(u64::MAX), u64::MAX.to_string());
    assert_eq!(u16_to_decimal(404), "404");
    assert_eq!(u16_to_decimal(u16::MAX), "65535");
    assert_eq!(i64_to_decimal(0), "0");
    assert_eq!(i64_to_decimal(-7), "-7");
    assert_eq!(i64_to_decimal(120), "120");
    assert_eq!(i64_to_decimal(i64::MIN), i64::MIN.to_string());
    assert_eq!(i64_to_decimal(i64::MAX), i64::MAX.to_string());
}

#[test]
fn clock_reading_conversion() {
    assert_eq!(millis_since_epoch(None), None);
    assert_eq!(millis_since_epoch(Some(1_700_000_000_123)), Some(1_700_000_000_123));
    assert_eq!(millis_since_epoch(Some(i64::MAX as u128)), Some(i64::MAX));
    // past i64::MAX the value wraps as `as i64` does
    assert_eq!(millis_since_epoch(Some(1u128 << 63)), Some(i64::MIN));
    let (a, b) = (millis_since_epoch(Some(1000)).unwrap(), millis_since_epoch(Some(2500)).unwrap());
    assert!(a <= b && b - a == 1500);
}

#[test]
fn answers_by_status() {
    assert!(answer_error(200, "ok".into()).is_none());
    match answer_error(429, "slow down".into()) {
        Some(HabiticaError::UnsuccessfulRequest(status, text)) => {
            assert_eq!(status, 429);
            assert_eq!(text, "slow down");
        }
        _ => panic!("expected an unsuccessful request"),
    }
    assert!(answer_error(201, String::new()).is_some());
}
