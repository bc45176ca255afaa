//! Pro-rata usage billing and the credit/primary balance split.

use vstd::prelude::*;
use vstd::arithmetic::div_mod::{lemma_basic_div, lemma_div_is_ordered, lemma_fundamental_div_mod};
use vstd::arithmetic::mul::{lemma_mul_inequality, lemma_mul_nonnegative};

verus! {

/// Fixed precision factor: a job's `rate` is expressed in
/// currency-units times `PRECISION` per elapsed time-unit.
pub const PRECISION: u64 = 1_000_000_000_000;

/// Whole currency units owed for `duration` elapsed time-units at `rate`:
/// the ceiling of `rate * duration / PRECISION`, so the provider is never
/// shorted a fractional unit.
pub open spec fn amount_used_spec(rate: u64, duration: u64) -> int {
    (rate * duration + (PRECISION - 1)) / (PRECISION as int)
}

/// Greedy credit-first split of a payment: credits are consumed first,
/// exhaustively, before the primary currency is touched. Returns
/// `(credit_amount, primary_amount)`.
pub open spec fn split_spec(total_amount: u64, available_credit: u64) -> (int, int) {
    if total_amount > available_credit {
        (available_credit as int, total_amount - available_credit)
    } else {
        (total_amount as int, 0int)
    }
}

/// Pro-rata usage billing: whole currency units owed for `usage_duration`
/// elapsed time-units at `rate`, rounded up to the next whole unit.
pub fn calculate_amount_used(rate: u64, usage_duration: u64) -> (amount: u64)
    requires
        rate * usage_duration + (PRECISION - 1) <= u64::MAX,
    ensures
        amount == amount_used_spec(rate, usage_duration),
{
    (rate * usage_duration + (PRECISION - 1)) / PRECISION
}

/// Split `total_amount` into a credit-backed portion and a primary-currency
/// portion, drawing on credits first.
pub fn calculate_token_split(total_amount: u64, credit_balance: u64) -> (r: (u64, u64))
    ensures
        r.0 == split_spec(total_amount, credit_balance).0,
        r.1 == split_spec(total_amount, credit_balance).1,
        r.0 + r.1 == total_amount,
        r.0 <= credit_balance,
{
    if total_amount > credit_balance {
        (credit_balance, total_amount - credit_balance)
    } else {
        (total_amount, 0)
    }
}

/// The billed amount is exactly the ceiling of `rate * duration / PRECISION`:
/// it covers the raw product, it overshoots by less than one whole unit, and
/// any nonzero usage is billed at least one whole unit.
pub proof fn lemma_amount_used_is_ceiling(rate: u64, duration: u64)
    ensures
        rate * duration <= amount_used_spec(rate, duration) * PRECISION,
        (amount_used_spec(rate, duration) - 1) * PRECISION < rate * duration,
        rate * duration > 0 ==> amount_used_spec(rate, duration) >= 1,
        rate * duration == 0 ==> amount_used_spec(rate, duration) == 0,
{
    let x = rate * duration;
    let p = PRECISION as int;
    lemma_mul_nonnegative(rate as int, duration as int);
    lemma_fundamental_div_mod(x + (p - 1), p);
    vstd::arithmetic::div_mod::lemma_mod_division_less_than_divisor(x + (p - 1), p);
    if x == 0 {
        lemma_basic_div(p - 1, p);
    }
}

/// Billing is monotone in the rate: for the same duration, a higher rate is
/// never billed less.
pub proof fn lemma_amount_used_monotone_in_rate(r1: u64, r2: u64, duration: u64)
    requires
        r1 <= r2,
    ensures
        amount_used_spec(r1, duration) <= amount_used_spec(r2, duration),
{
    let p = PRECISION as int;
    lemma_mul_inequality(r1 as int, r2 as int, duration as int);
    lemma_div_is_ordered(r1 * duration + (p - 1), r2 * duration + (p - 1), p);
}

} // verus!
