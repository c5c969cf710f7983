use sol_adz::{accrue, percentage, ErrorCode};

#[test]
fn percentage_rounds_down() {
    assert_eq!(percentage(1000, 5, 100), Ok(50));
    assert_eq!(percentage(1000, 25, 1000), Ok(25));
    assert_eq!(percentage(199, 1, 100), Ok(1));
    assert_eq!(percentage(99, 1, 100), Ok(0));
    assert_eq!(percentage(7, 1, 2), Ok(3));
    assert_eq!(percentage(0, 30, 100), Ok(0));
    assert_eq!(percentage(12345, 0, 100), Ok(0));
}

#[test]
fn percentage_truncates_each_step_on_its_own() {
    let five = percentage(39, 5, 100).unwrap();
    let two_and_a_half = percentage(39, 25, 1000).unwrap();
    let combined = percentage(39, 75, 1000).unwrap();
    assert_eq!(five, 1);
    assert_eq!(two_and_a_half, 0);
    assert_eq!(combined, 2);
    assert_ne!(five + two_and_a_half, combined);
}

#[test]
fn percentage_uses_a_wide_product() {
    assert_eq!(percentage(u64::MAX, 100, 100), Ok(u64::MAX));
    assert_eq!(percentage(u64::MAX, 30, 100), Ok(5534023222112865484));
    assert_eq!(percentage(u64::MAX, u64::MAX, u64::MAX), Ok(u64::MAX));
    assert_eq!(percentage(u64::MAX, 1, 100), Ok(184467440737095516));
}

#[test]
fn percentage_at_a_rate_of_at_most_one_stays_below_the_base() {
    let bases = [0u64, 1, 99, 100, 101, 1000, 123456789, u64::MAX - 1, u64::MAX];
    let rates = [(0u64, 1u64), (1, 100), (5, 100), (25, 1000), (30, 100), (100, 100), (7, 7)];
    for base in bases {
        for (numerator, denominator) in rates {
            let share = percentage(base, numerator, denominator).unwrap();
            assert!(share <= base);
            let exact = (base as u128) * (numerator as u128) / (denominator as u128);
            assert_eq!(share as u128, exact);
        }
    }
}

#[test]
fn percentage_overflows_when_the_quotient_does_not_fit() {
    assert_eq!(percentage(u64::MAX, 2, 1), Err(ErrorCode::Overflow));
    assert_eq!(percentage(u64::MAX, 101, 100), Err(ErrorCode::Overflow));
    assert_eq!(percentage(u64::MAX / 2 + 1, 2, 1), Err(ErrorCode::Overflow));
    assert_eq!(percentage(u64::MAX / 2, 2, 1), Ok(u64::MAX - 1));
}

#[test]
fn accrue_adds_or_overflows() {
    assert_eq!(accrue(0, 0), Ok(0));
    assert_eq!(accrue(40, 2), Ok(42));
    assert_eq!(accrue(u64::MAX - 1, 1), Ok(u64::MAX));
    assert_eq!(accrue(u64::MAX, 0), Ok(u64::MAX));
    assert_eq!(accrue(u64::MAX, 1), Err(ErrorCode::Overflow));
    assert_eq!(accrue(1, u64::MAX), Err(ErrorCode::Overflow));
}

#[test]
fn error_messages_differ() {
    assert_eq!(
        ErrorCode::InvestmentBelowMinimum.message(),
        "The investment amount is below the minimum required for the current cycle."
    );
    assert_eq!(ErrorCode::Overflow.message(), "An amount exceeds the representable range.");
    assert_ne!(ErrorCode::InvestmentBelowMinimum, ErrorCode::Overflow);
}
