//! Job escrow records and the settlement engine.
//!
//! A job escrows funds for a single owner/provider agreement. Settlement
//! computes the pro-rata amount owed since the last watermark, splits it
//! between the credit sub-balance and the primary currency, debits the
//! escrow and advances the watermark. The actual currency movement is the
//! host's transfer primitive: each operation returns the exact amounts to
//! move as a [`Payment`], which the host must execute atomically with the
//! call.
//!
//! Identities (owner, provider, currency ids) are modeled as plain `u64`
//! values; `0` is the null sentinel. A `credit_mint` of `0` means credits
//! are disabled for the market.

use vstd::prelude::*;
use vstd::math::min;
use crate::billing::{
    amount_used_spec, calculate_amount_used, calculate_token_split, split_spec, PRECISION,
};

verus! {

/// Per-job escrow state.
pub struct Job {
    /// Job index, assigned at creation from the market's counter; immutable.
    pub index: u64,
    /// Opaque job metadata; immutable.
    pub metadata: String,
    /// Identity of the job owner (buyer); immutable.
    pub owner: u64,
    /// Identity of the provider (seller); immutable.
    pub provider: u64,
    /// Currency-units times `PRECISION` owed per elapsed time-unit.
    pub rate: u64,
    /// Total escrowed funds: primary plus credit.
    pub balance: u64,
    /// Portion of `balance` backed by the credit currency.
    pub credit_balance: u64,
    /// Settlement watermark: usage up to this time has been paid for.
    pub last_settled: u64,
}

/// Amounts the host must transfer to complete an operation: a credit-currency
/// portion and a primary-currency portion. A zero portion needs no transfer.
#[derive(Clone, Copy, Debug, PartialEq, Eq, Structural)]
pub struct Payment {
    pub credit_amount: u64,
    pub token_amount: u64,
}

/// Errors surfaced by job operations. A failed call leaves the job record
/// exactly as it was before the call.
#[derive(Clone, Copy, Debug, PartialEq, Eq, Structural)]
pub enum ErrorCodes {
    ProviderAlreadyExists,
    InvalidControlPlaneUrl,
    ProviderNotFound,
    Unauthorized,
    InvalidAmount,
    InvalidRate,
    UnchangedRate,
    InsufficientFundsToReviseRate,
    JobNotFound,
    InsufficientBalance,
    InvalidMint,
}

/// Well-formedness of a job record under a market whose credit currency is
/// `credit_mint`: the credit sub-balance never exceeds the total balance,
/// and a market without a credit currency holds no credit at all.
pub open spec fn job_wf(job: Job, credit_mint: u64) -> bool {
    &&& job.credit_balance <= job.balance
    &&& credit_mint == 0 ==> job.credit_balance == 0
}

/// The arithmetic of settling `job` at `rate` up to `settle_till` stays
/// within machine bounds, and the watermark does not move backwards.
pub open spec fn settle_fits(job: Job, rate: u64, settle_till: u64) -> bool {
    &&& job.last_settled <= settle_till
    &&& rate * (settle_till - job.last_settled) + (PRECISION - 1) <= u64::MAX
}

/// Amount actually paid by a settlement: the billed usage, capped at the
/// available escrow balance.
pub open spec fn settle_amount_spec(job: Job, rate: u64, settle_till: u64) -> int {
    min(
        amount_used_spec(rate, (settle_till - job.last_settled) as u64),
        job.balance as int,
    )
}

/// Credit-backed portion of a settlement payment.
pub open spec fn settle_credit_spec(job: Job, rate: u64, settle_till: u64, credit_mint: u64) -> int {
    if credit_mint != 0 {
        min(settle_amount_spec(job, rate, settle_till), job.credit_balance as int)
    } else {
        0
    }
}

/// The transfer a settlement hands to the host.
pub open spec fn settle_payment_spec(job: Job, rate: u64, settle_till: u64, credit_mint: u64) -> Payment {
    Payment {
        credit_amount: settle_credit_spec(job, rate, settle_till, credit_mint) as u64,
        token_amount: (settle_amount_spec(job, rate, settle_till)
            - settle_credit_spec(job, rate, settle_till, credit_mint)) as u64,
    }
}

/// The job record after settling at `rate` up to `settle_till`.
pub open spec fn settled_job_spec(job: Job, rate: u64, settle_till: u64, credit_mint: u64) -> Job {
    Job {
        balance: (job.balance - settle_amount_spec(job, rate, settle_till)) as u64,
        credit_balance: (job.credit_balance
            - settle_credit_spec(job, rate, settle_till, credit_mint)) as u64,
        last_settled: settle_till,
        ..job
    }
}

/// A settlement fully covers the billed usage, with nothing left owing.
pub open spec fn settle_fully_funded(job: Job, rate: u64, settle_till: u64) -> bool {
    amount_used_spec(rate, (settle_till - job.last_settled) as u64) <= job.balance
}

/// Debit `amount` from the job's escrow, drawing on the credit sub-balance
/// first, and report the credit and primary portions the host must transfer
/// to the provider.
pub fn settle_tokens(job: &mut Job, credit_mint: u64, amount: u64) -> (payment: Payment)
    requires
        job_wf(*old(job), credit_mint),
        amount <= old(job).balance,
    ensures
        job_wf(*final(job), credit_mint),
        final(job).balance == old(job).balance - amount,
        payment.credit_amount == (if credit_mint != 0 {
            min(amount as int, old(job).credit_balance as int)
        } else {
            0int
        }),
        payment.credit_amount + payment.token_amount == amount,
        final(job).credit_balance == old(job).credit_balance - payment.credit_amount,
        *final(job) == (Job {
            balance: (old(job).balance - amount) as u64,
            credit_balance: (old(job).credit_balance - payment.credit_amount) as u64,
            ..*old(job)
        }),
{
    job.balance = job.balance - amount;

    let mut token_amount = amount;
    let mut credit_amount: u64 = 0;

    if credit_mint != 0 {
        let credit_balance = job.credit_balance;
        if credit_balance > 0 {
            let (c, t) = calculate_token_split(amount, credit_balance);
            credit_amount = c;
            token_amount = t;
            job.credit_balance = job.credit_balance - c;
        }
    }

    Payment { credit_amount, token_amount }
}

/// Settle the job at `rate` for the window from its watermark up to
/// `settle_till`: bill the pro-rata usage, pay as much of it as the escrow
/// holds (credit first), and advance the watermark. Returns whether the
/// billed usage was fully covered, and the amounts the host must transfer to
/// the provider. Settling exactly at the watermark is a no-op that succeeds.
pub fn job_settle_internal(job: &mut Job, rate: u64, settle_till: u64, credit_mint: u64) -> (r: (
    bool,
    Payment,
))
    requires
        job_wf(*old(job), credit_mint),
        settle_fits(*old(job), rate, settle_till),
    ensures
        job_wf(*final(job), credit_mint),
        *final(job) == settled_job_spec(*old(job), rate, settle_till, credit_mint),
        r.1 == settle_payment_spec(*old(job), rate, settle_till, credit_mint),
        r.0 == settle_fully_funded(*old(job), rate, settle_till),
        final(job).last_settled == settle_till,
        old(job).last_settled <= final(job).last_settled,
        final(job).balance + r.1.credit_amount + r.1.token_amount == old(job).balance,
        settle_till == old(job).last_settled ==> *final(job) == *old(job) && r.1
            == (Payment { credit_amount: 0, token_amount: 0 }) && r.0,
{
    let last_settled = job.last_settled;
    if settle_till == last_settled {
        proof {
            lemma_noop_settlement(*old(job), rate, credit_mint);
        }
        return (true, Payment { credit_amount: 0, token_amount: 0 });
    }

    let usage_duration = settle_till - last_settled;
    let amount_used = calculate_amount_used(rate, usage_duration);
    proof {
        crate::billing::lemma_amount_used_is_ceiling(rate, usage_duration);
    }
    let settle_amount = if amount_used < job.balance {
        amount_used
    } else {
        job.balance
    };

    let payment = settle_tokens(job, credit_mint, settle_amount);
    job.last_settled = settle_till;

    (amount_used <= settle_amount, payment)
}

/// Credit `amount` into the job's escrow, drawing on the depositor's
/// spendable credit allowance first, and report the credit and primary
/// portions the host must pull from the depositor's holdings.
/// `available_credit` is the depositor's credit balance capped by any
/// delegated-spend limit they have granted.
pub fn deposit_token(job: &mut Job, credit_mint: u64, available_credit: u64, amount: u64) -> (payment: Payment)
    requires
        job_wf(*old(job), credit_mint),
        old(job).balance + amount <= u64::MAX,
    ensures
        job_wf(*final(job), credit_mint),
        payment.credit_amount == (if credit_mint != 0 {
            min(amount as int, available_credit as int)
        } else {
            0int
        }),
        payment.credit_amount + payment.token_amount == amount,
        *final(job) == (Job {
            balance: (old(job).balance + amount) as u64,
            credit_balance: (old(job).credit_balance + payment.credit_amount) as u64,
            ..*old(job)
        }),
{
    let mut token_amount = amount;
    let mut credit_amount: u64 = 0;

    if credit_mint != 0 {
        if available_credit > 0 {
            let (c, t) = calculate_token_split(amount, available_credit);
            credit_amount = c;
            token_amount = t;
            job.credit_balance = job.credit_balance + c;
        }
    }

    job.balance = job.balance + amount;

    Payment { credit_amount, token_amount }
}

/// Pay `amount` out of the job's escrow back towards the owner, drawing on
/// the credit sub-balance first, and report the credit and primary portions
/// the host must transfer. Rejects a withdrawal that exceeds the escrowed
/// balance, leaving the job unchanged.
pub fn withdraw_internal(job: &mut Job, credit_mint: u64, amount: u64) -> (r: Result<
    Payment,
    ErrorCodes,
>)
    requires
        job_wf(*old(job), credit_mint),
    ensures
        job_wf(*final(job), credit_mint),
        amount > old(job).balance ==> r == Err::<Payment, ErrorCodes>(
            ErrorCodes::InsufficientBalance,
        ) && *final(job) == *old(job),
        amount <= old(job).balance ==> (r matches Ok(payment) && {
            &&& payment.credit_amount == split_spec(amount, old(job).credit_balance).0
            &&& payment.token_amount == split_spec(amount, old(job).credit_balance).1
            &&& payment.credit_amount + payment.token_amount == amount
            &&& *final(job) == (Job {
                balance: (old(job).balance - amount) as u64,
                credit_balance: (old(job).credit_balance - payment.credit_amount) as u64,
                ..*old(job)
            })
        }),
{
    if amount > job.balance {
        return Err(ErrorCodes::InsufficientBalance);
    }

    let (credit_amount, token_amount) = calculate_token_split(amount, job.credit_balance);

    job.balance = job.balance - amount;
    job.credit_balance = job.credit_balance - credit_amount;

    Ok(Payment { credit_amount, token_amount })
}

/// The higher of two rates.
pub open spec fn max_rate(a: u64, b: u64) -> u64 {
    if a > b {
        a
    } else {
        b
    }
}

/// The job after the flush-to-now step of a rate revision: settled at its
/// current rate up to `now`, unless the watermark already stands at or past
/// `now` (a pre-paid notice window), in which case nothing is owed yet.
pub open spec fn pre_settled_job(job: Job, now: u64, credit_mint: u64) -> Job {
    if now > job.last_settled {
        settled_job_spec(job, job.rate, now, credit_mint)
    } else {
        job
    }
}

/// The transfer produced by the flush-to-now step of a rate revision.
pub open spec fn pre_settle_payment(job: Job, now: u64, credit_mint: u64) -> Payment {
    if now > job.last_settled {
        settle_payment_spec(job, job.rate, now, credit_mint)
    } else {
        Payment { credit_amount: 0, token_amount: 0 }
    }
}

/// The arithmetic of a rate revision stays within machine bounds: the notice
/// deadline fits, the watermark never stands past it, and both settlements
/// fit.
pub open spec fn revise_fits(job: Job, new_rate: u64, notice_period: u64, now: u64, credit_mint: u64) -> bool {
    &&& now + notice_period <= u64::MAX
    &&& job.last_settled <= now + notice_period
    &&& now > job.last_settled ==> settle_fits(job, job.rate, now)
    &&& settle_fits(
        pre_settled_job(job, now, credit_mint),
        max_rate(job.rate, new_rate),
        (now + notice_period) as u64,
    )
}

/// The complete outcome of a rate revision: either the revised job together
/// with the flush payment and the notice-window payment, or the error that
/// rejects the call. A revision first settles owed usage at the old rate up
/// to `now`, then commits the new rate, then pre-pays the notice window at
/// the higher of the two rates; a funding shortfall at either step rejects
/// the whole revision.
pub open spec fn revise_outcome(job: Job, new_rate: u64, notice_period: u64, now: u64, credit_mint: u64) -> Result<
    (Job, Payment, Payment),
    ErrorCodes,
> {
    if new_rate == 0 {
        Err(ErrorCodes::InvalidRate)
    } else if job.rate == new_rate {
        Err(ErrorCodes::UnchangedRate)
    } else if now > job.last_settled && !settle_fully_funded(job, job.rate, now) {
        Err(ErrorCodes::InsufficientFundsToReviseRate)
    } else {
        let flushed = Job { rate: new_rate, ..pre_settled_job(job, now, credit_mint) };
        let deadline = (now + notice_period) as u64;
        let higher = max_rate(job.rate, new_rate);
        if !settle_fully_funded(flushed, higher, deadline) {
            Err(ErrorCodes::InsufficientFundsToReviseRate)
        } else {
            Ok(
                (
                    settled_job_spec(flushed, higher, deadline, credit_mint),
                    pre_settle_payment(job, now, credit_mint),
                    settle_payment_spec(flushed, higher, deadline, credit_mint),
                ),
            )
        }
    }
}

/// Revise the job's billing rate under a notice period: flush usage owed at
/// the old rate up to `now`, commit `new_rate`, and pre-pay the window up to
/// `now + notice_period` at the higher of the two rates, so that neither
/// party can be shorted by the change. Rejects a zero or unchanged rate, and
/// rejects the whole revision if the escrow cannot cover either settlement
/// in full; a rejected call leaves the job exactly as it was.
pub fn job_revise_rate_internal(
    job: &mut Job,
    new_rate: u64,
    notice_period: u64,
    now: u64,
    credit_mint: u64,
) -> (r: Result<(Payment, Payment), ErrorCodes>)
    requires
        job_wf(*old(job), credit_mint),
        new_rate != 0 && old(job).rate != new_rate ==> revise_fits(
            *old(job),
            new_rate,
            notice_period,
            now,
            credit_mint,
        ),
    ensures
        job_wf(*final(job), credit_mint),
        (match r {
            Ok(payments) => revise_outcome(*old(job), new_rate, notice_period, now, credit_mint)
                == Ok::<_, ErrorCodes>((*final(job), payments.0, payments.1)),
            Err(e) => revise_outcome(*old(job), new_rate, notice_period, now, credit_mint)
                == Err::<(Job, Payment, Payment), _>(e) && *final(job) == *old(job),
        }),
        r is Ok ==> final(job).rate == new_rate && final(job).last_settled == now + notice_period,
{
    if new_rate == 0 {
        return Err(ErrorCodes::InvalidRate);
    }
    if job.rate == new_rate {
        return Err(ErrorCodes::UnchangedRate);
    }

    let old_rate = job.rate;
    let saved_balance = job.balance;
    let saved_credit_balance = job.credit_balance;
    let saved_last_settled = job.last_settled;

    let mut flush_payment = Payment { credit_amount: 0, token_amount: 0 };
    if now > job.last_settled {
        let (funded, payment) = job_settle_internal(job, old_rate, now, credit_mint);
        if !funded {
            job.balance = saved_balance;
            job.credit_balance = saved_credit_balance;
            job.last_settled = saved_last_settled;
            return Err(ErrorCodes::InsufficientFundsToReviseRate);
        }
        flush_payment = payment;
    }

    job.rate = new_rate;
    let higher_rate = if old_rate > new_rate {
        old_rate
    } else {
        new_rate
    };

    let (funded, notice_payment) = job_settle_internal(
        job,
        higher_rate,
        now + notice_period,
        credit_mint,
    );
    if !funded {
        job.rate = old_rate;
        job.balance = saved_balance;
        job.credit_balance = saved_credit_balance;
        job.last_settled = saved_last_settled;
        return Err(ErrorCodes::InsufficientFundsToReviseRate);
    }

    Ok((flush_payment, notice_payment))
}

/// Settling a job exactly at its watermark is a no-op for every rate: the
/// job record is unchanged, no transfer is produced, and the settlement
/// counts as fully funded.
pub proof fn lemma_noop_settlement(job: Job, rate: u64, credit_mint: u64)
    ensures
        settled_job_spec(job, rate, job.last_settled, credit_mint) == job,
        settle_payment_spec(job, rate, job.last_settled, credit_mint) == (Payment {
            credit_amount: 0,
            token_amount: 0,
        }),
        settle_fully_funded(job, rate, job.last_settled),
{
    crate::billing::lemma_amount_used_is_ceiling(rate, 0);
    assert(rate * 0u64 == 0) by {
        vstd::arithmetic::mul::lemma_mul_by_zero_is_zero(rate as int);
    }
    assert(amount_used_spec(rate, (job.last_settled - job.last_settled) as u64) == 0);
}

/// Balance invariant: settlement preserves well-formedness — after settling,
/// the credit sub-balance still lies between zero and the total balance, for
/// every rate, target time and credit currency.
pub proof fn lemma_settlement_preserves_wf(job: Job, rate: u64, settle_till: u64, credit_mint: u64)
    requires
        job_wf(job, credit_mint),
    ensures
        job_wf(settled_job_spec(job, rate, settle_till, credit_mint), credit_mint),
{
}

/// Length of the notice window a rate revision pre-pays: from the watermark
/// left by the flush-to-now step up to the notice deadline.
pub open spec fn notice_window_duration(job: Job, notice_period: u64, now: u64, credit_mint: u64) -> u64 {
    ((now + notice_period) - pre_settled_job(job, now, credit_mint).last_settled) as u64
}

/// Rate-revision safety: after a successful revision the watermark stands
/// pre-paid at `now + notice_period`, and the notice window was billed at
/// the higher of the two rates — at least what either rate alone would have
/// billed, so neither party can use the change to underpay the other. In
/// particular a raised rate bills the window at the new rate.
pub proof fn lemma_revision_window_protected(
    job: Job,
    new_rate: u64,
    notice_period: u64,
    now: u64,
    credit_mint: u64,
    revised: Job,
    flush: Payment,
    notice: Payment,
)
    requires
        job_wf(job, credit_mint),
        now + notice_period <= u64::MAX,
        revise_outcome(job, new_rate, notice_period, now, credit_mint) == Ok::<
            (Job, Payment, Payment),
            ErrorCodes,
        >((revised, flush, notice)),
    ensures
        revised.last_settled == now + notice_period,
        revised.rate == new_rate,
        job_wf(revised, credit_mint),
        notice.credit_amount + notice.token_amount == amount_used_spec(
            max_rate(job.rate, new_rate),
            notice_window_duration(job, notice_period, now, credit_mint),
        ),
        amount_used_spec(
            max_rate(job.rate, new_rate),
            notice_window_duration(job, notice_period, now, credit_mint),
        ) >= amount_used_spec(job.rate, notice_window_duration(job, notice_period, now, credit_mint)),
        amount_used_spec(
            max_rate(job.rate, new_rate),
            notice_window_duration(job, notice_period, now, credit_mint),
        ) >= amount_used_spec(new_rate, notice_window_duration(job, notice_period, now, credit_mint)),
        new_rate > job.rate ==> notice.credit_amount + notice.token_amount == amount_used_spec(
            new_rate,
            notice_window_duration(job, notice_period, now, credit_mint),
        ),
{
    let flushed = Job { rate: new_rate, ..pre_settled_job(job, now, credit_mint) };
    let deadline = (now + notice_period) as u64;
    let higher = max_rate(job.rate, new_rate);
    let duration = notice_window_duration(job, notice_period, now, credit_mint);
    assert(settle_fully_funded(flushed, higher, deadline));
    assert(notice == settle_payment_spec(flushed, higher, deadline, credit_mint));
    assert(settle_amount_spec(flushed, higher, deadline) == amount_used_spec(higher, duration));
    if now > job.last_settled {
        lemma_settlement_preserves_wf(job, job.rate, now, credit_mint);
    }
    lemma_settlement_preserves_wf(flushed, higher, deadline, credit_mint);
    crate::billing::lemma_amount_used_monotone_in_rate(job.rate, higher, duration);
    crate::billing::lemma_amount_used_monotone_in_rate(new_rate, higher, duration);
}

} // verus!
