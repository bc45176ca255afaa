use oyster_market::billing::{calculate_amount_used, calculate_token_split};

#[test]
fn ceiling_exact_multiple() {
    // 2 units per time-unit for 3 time-units is exactly 6 whole units.
    assert_eq!(calculate_amount_used(2_000_000_000_000, 3), 6);
}

#[test]
fn ceiling_rounds_tiny_fraction_up() {
    // The smallest nonzero usage still bills one whole unit, never zero.
    assert_eq!(calculate_amount_used(1, 1), 1);
}

#[test]
fn ceiling_zero_duration_bills_nothing() {
    assert_eq!(calculate_amount_used(5_000_000_000_000, 0), 0);
}

#[test]
fn ceiling_zero_rate_bills_nothing() {
    assert_eq!(calculate_amount_used(0, 1_000_000), 0);
}

#[test]
fn ceiling_rounds_partial_unit_up() {
    // 1.5 units per time-unit for 3 time-units is 4.5, billed as 5.
    assert_eq!(calculate_amount_used(1_500_000_000_000, 3), 5);
}

#[test]
fn split_partial_credit() {
    assert_eq!(calculate_token_split(100, 40), (40, 60));
}

#[test]
fn split_no_credit() {
    assert_eq!(calculate_token_split(100, 0), (0, 100));
}

#[test]
fn split_excess_credit() {
    assert_eq!(calculate_token_split(100, 150), (100, 0));
}
