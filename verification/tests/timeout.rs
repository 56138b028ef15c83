use pooler::timeout::timeout_reached;
use pooler::{ErrorCode, FORCE_REFUND_TIMEOUT_SLOTS};

#[test]
fn timeout_threshold_is_five_slots() {
    assert_eq!(FORCE_REFUND_TIMEOUT_SLOTS, 5);
}

#[test]
fn elapsed_below_threshold_is_not_eligible() {
    assert_eq!(timeout_reached(0, 0), Ok(false));
    assert_eq!(timeout_reached(104, 100), Ok(false));
}

#[test]
fn elapsed_at_threshold_is_eligible() {
    assert_eq!(timeout_reached(105, 100), Ok(true));
    assert_eq!(timeout_reached(u64::MAX, 0), Ok(true));
}

#[test]
fn backward_clock_is_an_arithmetic_error() {
    assert_eq!(timeout_reached(99, 100), Err(ErrorCode::MathOverflow));
}
