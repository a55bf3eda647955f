use postbot::configuration::Timeout;
use postbot::error::Error;

#[test]
fn timeout_accepts_range_inside_limits() {
    let timeout = Timeout::new(3, 720).unwrap();
    assert_eq!(timeout.min(), 3);
    assert_eq!(timeout.max(), 720);
}

#[test]
fn timeout_rejects_low_minimum() {
    assert_eq!(Timeout::new(2, 10).unwrap_err(), Error::MinTimeoutTooLow);
}

#[test]
fn timeout_rejects_high_maximum() {
    assert_eq!(Timeout::new(3, 721).unwrap_err(), Error::MaxTimeoutTooHigh);
}

#[test]
fn timeout_tests_minimum_first() {
    assert_eq!(Timeout::new(0, 100000).unwrap_err(), Error::MinTimeoutTooLow);
}
