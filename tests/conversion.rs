use punctual_sleep::ticks::{ConversionError, SleepRequest, NANOS_PER_SEC, TICKS_PER_SEC};

#[test]
fn five_millis_is_fifty_thousand_ticks() {
    let req = SleepRequest::from_millis(5);
    assert_eq!(req.secs, 0);
    assert_eq!(req.nanos, 5_000_000);
    assert_eq!(req.to_ticks(), Ok(50_000));
    assert_eq!(req.relative_due_time(), Ok(-50_000));
}

#[test]
fn five_hundred_micros_is_five_thousand_ticks() {
    let req = SleepRequest::from_micros(500);
    assert_eq!(req, SleepRequest::new(0, 500_000));
    assert_eq!(req.to_ticks(), Ok(5_000));
    assert_eq!(req.relative_due_time(), Ok(-5_000));
}

#[test]
fn seconds_and_nanos_combine() {
    let req = SleepRequest::new(3, 250_000_123);
    assert_eq!(req.to_ticks(), Ok(3 * 10_000_000 + 2_500_001));
    assert_eq!(SleepRequest::from_millis(2_500), SleepRequest::new(2, 500_000_000));
    assert_eq!(SleepRequest::from_micros(1_000_001), SleepRequest::new(1, 1_000));
}

#[test]
fn part_below_one_tick_is_dropped() {
    assert_eq!(SleepRequest::new(0, 99).to_ticks(), Ok(0));
    assert_eq!(SleepRequest::new(0, 199).to_ticks(), Ok(1));
    assert_eq!(SleepRequest::new(0, NANOS_PER_SEC - 1).to_ticks(), Ok(9_999_999));
}

#[test]
fn zero_duration_is_zero_ticks() {
    let req = SleepRequest::new(0, 0);
    assert_eq!(req.to_ticks(), Ok(0));
    assert_eq!(req.relative_due_time(), Ok(0));
}

#[test]
fn largest_request_that_fits() {
    let req = SleepRequest::new(922_337_203_685, 477_580_799);
    assert_eq!(req.to_ticks(), Ok(i64::MAX));
    assert_eq!(req.relative_due_time(), Ok(-i64::MAX));
}

#[test]
fn just_past_the_largest_request_fails() {
    let req = SleepRequest::new(922_337_203_685, 477_580_800);
    assert_eq!(req.to_ticks(), Err(ConversionError::TooLong));
    assert_eq!(req.relative_due_time(), Err(ConversionError::TooLong));
}

#[test]
fn seconds_past_the_range_fail() {
    assert_eq!(SleepRequest::new(922_337_203_686, 0).to_ticks(), Err(ConversionError::TooLong));
    assert_eq!(SleepRequest::new(u64::MAX, 0).to_ticks(), Err(ConversionError::TooLong));
    assert_eq!(
        SleepRequest::new(i64::MAX as u64, 0).relative_due_time(),
        Err(ConversionError::TooLong)
    );
    let secs = i64::MAX as u64 / TICKS_PER_SEC;
    assert_eq!(secs, 922_337_203_685);
    assert!(SleepRequest::new(secs, 0).to_ticks().is_ok());
}
