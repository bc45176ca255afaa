//! Marketplace records and the per-operation entry points.
//!
//! Every operation that can leave a job owing usage first flushes the
//! settlement engine before applying its own effect: deposits, withdrawals
//! and closes pre-settle through the notice window at the job's rate, and a
//! rate revision runs the full two-step protocol of
//! [`crate::job::job_revise_rate_internal`]. Each entry point validates its
//! inputs first and mutates nothing on rejection; on success it returns the
//! exact transfer amounts the host must execute.

use vstd::prelude::*;
use vstd::math::min;
use crate::billing::{split_spec, PRECISION};
use crate::job::{
    job_revise_rate_internal, job_settle_internal, job_wf, deposit_token, revise_fits,
    revise_outcome, settle_fits, settle_fully_funded, settle_payment_spec, settled_job_spec,
    withdraw_internal, ErrorCodes, Job, Payment,
};
use crate::lock::{update_lock_wait_time_util, LockWaitTime};

verus! {

/// Process-wide configuration of one marketplace instance.
pub struct Market {
    /// Identity of the administrator.
    pub admin: u64,
    /// The accepted primary currency.
    pub token_mint: u64,
    /// The accepted credit currency; `0` means credits are disabled.
    pub credit_mint: u64,
    /// Monotonically increasing counter; the sole source of job indices.
    pub job_index: u64,
    /// Mandatory delay pre-paid by rate revisions and balance mutations.
    pub notice_period: u64,
}

/// Directory entry of a compute provider.
pub struct Provider {
    /// Control-plane URL; empty while the provider is not registered.
    pub cp: String,
    /// Identity of the provider's authority.
    pub owner: u64,
}

/// Set up a marketplace instance: fix the administrator, the accepted
/// primary currency and the notice period, start the job counter at zero,
/// and register the initial timelock wait time for the given selector's
/// records.
pub fn initialize(
    admin: u64,
    token_mint: u64,
    notice_period: u64,
    lock_wait_time: &mut LockWaitTime,
    wait_time: u64,
) -> (market: Market)
    ensures
        market == (Market { admin, token_mint, credit_mint: 0, job_index: 0, notice_period }),
        *final(lock_wait_time) == (LockWaitTime { wait_time }),
{
    update_lock_wait_time_util(lock_wait_time, wait_time);
    Market { admin, token_mint, credit_mint: 0, job_index: 0, notice_period }
}

/// Replace the market's accepted primary currency.
pub fn update_token_util(market: &mut Market, new_token_mint: u64)
    ensures
        *final(market) == (Market { token_mint: new_token_mint, ..*old(market) }),
{
    market.token_mint = new_token_mint;
}

/// Administrator-only entry point to replace the accepted primary currency;
/// any other caller is rejected with the market unchanged.
pub fn update_token(market: &mut Market, caller: u64, new_token_mint: u64) -> (r: Result<
    (),
    ErrorCodes,
>)
    ensures
        caller != old(market).admin ==> r == Err::<(), ErrorCodes>(ErrorCodes::Unauthorized)
            && *final(market) == *old(market),
        caller == old(market).admin ==> r == Ok::<(), ErrorCodes>(()) && *final(market) == (Market {
            token_mint: new_token_mint,
            ..*old(market)
        }),
{
    if caller != market.admin {
        return Err(ErrorCodes::Unauthorized);
    }
    update_token_util(market, new_token_mint);
    Ok(())
}

/// Register a provider: fails if the record is already in use or if the
/// control-plane URL is empty; otherwise stores the URL and the authority.
pub fn provider_add(provider: &mut Provider, authority: u64, cp: String) -> (r: Result<
    (),
    ErrorCodes,
>)
    ensures
        old(provider).cp@.len() != 0 ==> r == Err::<(), ErrorCodes>(
            ErrorCodes::ProviderAlreadyExists,
        ) && *final(provider) == *old(provider),
        old(provider).cp@.len() == 0 && cp@.len() == 0 ==> r == Err::<(), ErrorCodes>(
            ErrorCodes::InvalidControlPlaneUrl,
        ) && *final(provider) == *old(provider),
        old(provider).cp@.len() == 0 && cp@.len() != 0 ==> r == Ok::<(), ErrorCodes>(())
            && final(provider).cp == cp && final(provider).owner == authority,
{
    if !provider.cp.as_str().is_empty() {
        return Err(ErrorCodes::ProviderAlreadyExists);
    }
    if cp.as_str().is_empty() {
        return Err(ErrorCodes::InvalidControlPlaneUrl);
    }
    provider.cp = cp;
    provider.owner = authority;
    Ok(())
}

/// Authorize removal of a provider record: only the provider's own
/// authority may remove it. On success the host destroys the record.
pub fn provider_remove(provider: &Provider, authority: u64) -> (r: Result<(), ErrorCodes>)
    ensures
        authority != provider.owner ==> r == Err::<(), ErrorCodes>(ErrorCodes::Unauthorized),
        authority == provider.owner ==> r == Ok::<(), ErrorCodes>(()),
{
    if authority != provider.owner {
        return Err(ErrorCodes::Unauthorized);
    }
    Ok(())
}

/// Update a registered provider's control-plane URL: fails if the provider
/// is not registered or if the new URL is empty.
pub fn provider_update_with_cp(provider: &mut Provider, new_cp: String) -> (r: Result<
    (),
    ErrorCodes,
>)
    ensures
        old(provider).cp@.len() == 0 ==> r == Err::<(), ErrorCodes>(ErrorCodes::ProviderNotFound)
            && *final(provider) == *old(provider),
        old(provider).cp@.len() != 0 && new_cp@.len() == 0 ==> r == Err::<(), ErrorCodes>(
            ErrorCodes::InvalidControlPlaneUrl,
        ) && *final(provider) == *old(provider),
        old(provider).cp@.len() != 0 && new_cp@.len() != 0 ==> r == Ok::<(), ErrorCodes>(())
            && final(provider).cp == new_cp && final(provider).owner == old(provider).owner,
{
    if provider.cp.as_str().is_empty() {
        return Err(ErrorCodes::ProviderNotFound);
    }
    if new_cp.as_str().is_empty() {
        return Err(ErrorCodes::InvalidControlPlaneUrl);
    }
    provider.cp = new_cp;
    Ok(())
}

/// Settle a job up to the current time at its current rate. Rejects a call
/// with the wrong primary currency, leaving the job unchanged; otherwise
/// behaves as [`job_settle_internal`], reporting whether the billed usage
/// was fully covered and the amounts the host must transfer to the provider.
pub fn job_settle(job: &mut Job, market: &Market, token_mint: u64, now: u64, credit_mint: u64) -> (r: Result<
    (bool, Payment),
    ErrorCodes,
>)
    requires
        job_wf(*old(job), credit_mint),
        token_mint == market.token_mint ==> settle_fits(*old(job), old(job).rate, now),
    ensures
        job_wf(*final(job), credit_mint),
        token_mint != market.token_mint ==> r == Err::<(bool, Payment), ErrorCodes>(
            ErrorCodes::InvalidMint,
        ) && *final(job) == *old(job),
        token_mint == market.token_mint ==> (r matches Ok(settled) && {
            &&& *final(job) == settled_job_spec(*old(job), old(job).rate, now, credit_mint)
            &&& settled.1 == settle_payment_spec(*old(job), old(job).rate, now, credit_mint)
            &&& settled.0 == settle_fully_funded(*old(job), old(job).rate, now)
        }),
{
    if token_mint != market.token_mint {
        return Err(ErrorCodes::InvalidMint);
    }
    let job_rate = job.rate;
    Ok(job_settle_internal(job, job_rate, now, credit_mint))
}

/// Revise a job's billing rate under the market's notice period; see
/// [`job_revise_rate_internal`] for the protocol and its guarantees.
pub fn job_revise_rate(job: &mut Job, market: &Market, new_rate: u64, now: u64, credit_mint: u64) -> (r: Result<
    (Payment, Payment),
    ErrorCodes,
>)
    requires
        job_wf(*old(job), credit_mint),
        new_rate != 0 && old(job).rate != new_rate ==> revise_fits(
            *old(job),
            new_rate,
            market.notice_period,
            now,
            credit_mint,
        ),
    ensures
        job_wf(*final(job), credit_mint),
        (match r {
            Ok(payments) => revise_outcome(
                *old(job),
                new_rate,
                market.notice_period,
                now,
                credit_mint,
            ) == Ok::<_, ErrorCodes>((*final(job), payments.0, payments.1)),
            Err(e) => revise_outcome(*old(job), new_rate, market.notice_period, now, credit_mint)
                == Err::<(Job, Payment, Payment), _>(e) && *final(job) == *old(job),
        }),
        r is Ok ==> final(job).rate == new_rate && final(job).last_settled == now
            + market.notice_period,
{
    job_revise_rate_internal(job, new_rate, market.notice_period, now, credit_mint)
}

/// The complete outcome of a deposit: either the funded job together with
/// the pre-settlement payment and the deposit transfer, or the error that
/// rejects the call. A deposit first pre-settles the job through the notice
/// window at its current rate — so a pending revision window can never be
/// underfunded by interleaved balance changes — and rejects the whole call
/// on a funding shortfall.
pub open spec fn deposit_outcome(
    job: Job,
    market: Market,
    token_mint: u64,
    amount: u64,
    now: u64,
    credit_mint: u64,
    available_credit: u64,
) -> Result<(Job, Payment, Payment), ErrorCodes> {
    if job.owner == 0 {
        Err(ErrorCodes::JobNotFound)
    } else if token_mint != market.token_mint {
        Err(ErrorCodes::InvalidMint)
    } else if amount == 0 {
        Err(ErrorCodes::InvalidAmount)
    } else {
        let deadline = (now + market.notice_period) as u64;
        if !settle_fully_funded(job, job.rate, deadline) {
            Err(ErrorCodes::InsufficientFundsToReviseRate)
        } else {
            let settled = settled_job_spec(job, job.rate, deadline, credit_mint);
            let credit = if credit_mint != 0 {
                min(amount as int, available_credit as int)
            } else {
                0int
            };
            Ok(
                (
                    Job {
                        balance: (settled.balance + amount) as u64,
                        credit_balance: (settled.credit_balance + credit) as u64,
                        ..settled
                    },
                    settle_payment_spec(job, job.rate, deadline, credit_mint),
                    Payment { credit_amount: credit as u64, token_amount: (amount - credit) as u64 },
                ),
            )
        }
    }
}

/// Deposit `amount` into a job's escrow: validate the call, pre-settle the
/// job through the notice window at its current rate (rejecting the whole
/// call if the escrow cannot cover that in full), then credit the deposit,
/// drawing on the depositor's credit allowance first. A rejected call
/// leaves the job exactly as it was.
pub fn job_deposit(
    job: &mut Job,
    market: &Market,
    token_mint: u64,
    amount: u64,
    now: u64,
    credit_mint: u64,
    available_credit: u64,
) -> (r: Result<(Payment, Payment), ErrorCodes>)
    requires
        job_wf(*old(job), credit_mint),
        old(job).owner != 0 && token_mint == market.token_mint && amount != 0 ==> {
            &&& now + market.notice_period <= u64::MAX
            &&& settle_fits(*old(job), old(job).rate, (now + market.notice_period) as u64)
            &&& old(job).balance + amount <= u64::MAX
        },
    ensures
        job_wf(*final(job), credit_mint),
        (match r {
            Ok(payments) => deposit_outcome(
                *old(job),
                *market,
                token_mint,
                amount,
                now,
                credit_mint,
                available_credit,
            ) == Ok::<_, ErrorCodes>((*final(job), payments.0, payments.1)),
            Err(e) => deposit_outcome(
                *old(job),
                *market,
                token_mint,
                amount,
                now,
                credit_mint,
                available_credit,
            ) == Err::<(Job, Payment, Payment), _>(e) && *final(job) == *old(job),
        }),
{
    if job.owner == 0 {
        return Err(ErrorCodes::JobNotFound);
    }
    if token_mint != market.token_mint {
        return Err(ErrorCodes::InvalidMint);
    }
    if amount == 0 {
        return Err(ErrorCodes::InvalidAmount);
    }

    let saved_balance = job.balance;
    let saved_credit_balance = job.credit_balance;
    let saved_last_settled = job.last_settled;

    let job_rate = job.rate;
    let (funded, settle_payment) = job_settle_internal(
        job,
        job_rate,
        now + market.notice_period,
        credit_mint,
    );
    if !funded {
        job.balance = saved_balance;
        job.credit_balance = saved_credit_balance;
        job.last_settled = saved_last_settled;
        return Err(ErrorCodes::InsufficientFundsToReviseRate);
    }

    let deposit_payment = deposit_token(job, credit_mint, available_credit, amount);
    Ok((settle_payment, deposit_payment))
}

/// The complete outcome of a withdrawal: either the reduced job together
/// with the pre-settlement payment and the payout transfer, or the error
/// that rejects the call. Like a deposit, a withdrawal first pre-settles
/// the job through the notice window at its current rate, then pays out of
/// the remaining escrow, credits first.
pub open spec fn withdraw_outcome(
    job: Job,
    caller: u64,
    market: Market,
    token_mint: u64,
    amount: u64,
    now: u64,
    credit_mint: u64,
) -> Result<(Job, Payment, Payment), ErrorCodes> {
    if job.owner == 0 {
        Err(ErrorCodes::JobNotFound)
    } else if caller != job.owner {
        Err(ErrorCodes::Unauthorized)
    } else if token_mint != market.token_mint {
        Err(ErrorCodes::InvalidMint)
    } else if amount == 0 {
        Err(ErrorCodes::InvalidAmount)
    } else {
        let deadline = (now + market.notice_period) as u64;
        if !settle_fully_funded(job, job.rate, deadline) {
            Err(ErrorCodes::InsufficientFundsToReviseRate)
        } else {
            let settled = settled_job_spec(job, job.rate, deadline, credit_mint);
            if amount > settled.balance {
                Err(ErrorCodes::InsufficientBalance)
            } else {
                let credit = split_spec(amount, settled.credit_balance).0;
                Ok(
                    (
                        Job {
                            balance: (settled.balance - amount) as u64,
                            credit_balance: (settled.credit_balance - credit) as u64,
                            ..settled
                        },
                        settle_payment_spec(job, job.rate, deadline, credit_mint),
                        Payment {
                            credit_amount: credit as u64,
                            token_amount: (amount - credit) as u64,
                        },
                    ),
                )
            }
        }
    }
}

/// Withdraw `amount` from a job's escrow back to its owner: validate the
/// call, pre-settle the job through the notice window at its current rate
/// (rejecting the whole call on a shortfall), then pay out of the remaining
/// escrow, credits first. A rejected call — including a withdrawal
/// exceeding the post-settlement balance — leaves the job exactly as it
/// was.
pub fn job_withdraw(
    job: &mut Job,
    caller: u64,
    market: &Market,
    token_mint: u64,
    amount: u64,
    now: u64,
    credit_mint: u64,
) -> (r: Result<(Payment, Payment), ErrorCodes>)
    requires
        job_wf(*old(job), credit_mint),
        old(job).owner != 0 && caller == old(job).owner && token_mint == market.token_mint
            && amount != 0 ==> {
            &&& now + market.notice_period <= u64::MAX
            &&& settle_fits(*old(job), old(job).rate, (now + market.notice_period) as u64)
        },
    ensures
        job_wf(*final(job), credit_mint),
        (match r {
            Ok(payments) => withdraw_outcome(
                *old(job),
                caller,
                *market,
                token_mint,
                amount,
                now,
                credit_mint,
            ) == Ok::<_, ErrorCodes>((*final(job), payments.0, payments.1)),
            Err(e) => withdraw_outcome(
                *old(job),
                caller,
                *market,
                token_mint,
                amount,
                now,
                credit_mint,
            ) == Err::<(Job, Payment, Payment), _>(e) && *final(job) == *old(job),
        }),
{
    if job.owner == 0 {
        return Err(ErrorCodes::JobNotFound);
    }
    if caller != job.owner {
        return Err(ErrorCodes::Unauthorized);
    }
    if token_mint != market.token_mint {
        return Err(ErrorCodes::InvalidMint);
    }
    if amount == 0 {
        return Err(ErrorCodes::InvalidAmount);
    }

    let saved_balance = job.balance;
    let saved_credit_balance = job.credit_balance;
    let saved_last_settled = job.last_settled;

    let job_rate = job.rate;
    let (funded, settle_payment) = job_settle_internal(
        job,
        job_rate,
        now + market.notice_period,
        credit_mint,
    );
    if !funded {
        job.balance = saved_balance;
        job.credit_balance = saved_credit_balance;
        job.last_settled = saved_last_settled;
        return Err(ErrorCodes::InsufficientFundsToReviseRate);
    }

    match withdraw_internal(job, credit_mint, amount) {
        Ok(payout) => Ok((settle_payment, payout)),
        Err(e) => {
            job.balance = saved_balance;
            job.credit_balance = saved_credit_balance;
            job.last_settled = saved_last_settled;
            Err(e)
        }
    }
}

/// The complete outcome of closing a job: the drained job record together
/// with the final settlement payment to the provider and the refund
/// transfer to the owner. A close settles once more through the notice
/// window at the job's rate — a funding shortfall is tolerated: the
/// provider simply receives whatever escrow remains — and then refunds the
/// remainder, credits first. On success the host destroys the record.
pub open spec fn close_outcome(
    job: Job,
    caller: u64,
    market: Market,
    token_mint: u64,
    now: u64,
    credit_mint: u64,
) -> Result<(Job, Payment, Payment), ErrorCodes> {
    if caller != job.owner {
        Err(ErrorCodes::Unauthorized)
    } else if token_mint != market.token_mint {
        Err(ErrorCodes::InvalidMint)
    } else {
        let deadline = (now + market.notice_period) as u64;
        let settled = settled_job_spec(job, job.rate, deadline, credit_mint);
        Ok(
            (
                Job { balance: 0, credit_balance: 0, ..settled },
                settle_payment_spec(job, job.rate, deadline, credit_mint),
                Payment {
                    credit_amount: settled.credit_balance,
                    token_amount: (settled.balance - settled.credit_balance) as u64,
                },
            ),
        )
    }
}

/// Close a job: settle once more through the notice window at the job's
/// rate (a shortfall pays out whatever escrow remains), then refund the
/// whole remaining balance to the owner, credits first, leaving the record
/// drained for the host to destroy. Only the job's owner may close it; a
/// rejected call leaves the job exactly as it was.
pub fn job_close(
    job: &mut Job,
    caller: u64,
    market: &Market,
    token_mint: u64,
    now: u64,
    credit_mint: u64,
) -> (r: Result<(Payment, Payment), ErrorCodes>)
    requires
        job_wf(*old(job), credit_mint),
        caller == old(job).owner && token_mint == market.token_mint ==> {
            &&& now + market.notice_period <= u64::MAX
            &&& settle_fits(*old(job), old(job).rate, (now + market.notice_period) as u64)
        },
    ensures
        job_wf(*final(job), credit_mint),
        (match r {
            Ok(payments) => close_outcome(*old(job), caller, *market, token_mint, now, credit_mint)
                == Ok::<_, ErrorCodes>((*final(job), payments.0, payments.1)),
            Err(e) => close_outcome(*old(job), caller, *market, token_mint, now, credit_mint)
                == Err::<(Job, Payment, Payment), _>(e) && *final(job) == *old(job),
        }),
        r is Ok ==> final(job).balance == 0 && final(job).credit_balance == 0,
{
    if caller != job.owner {
        return Err(ErrorCodes::Unauthorized);
    }
    if token_mint != market.token_mint {
        return Err(ErrorCodes::InvalidMint);
    }

    let job_rate = job.rate;
    let (_funded, settle_payment) = job_settle_internal(
        job,
        job_rate,
        now + market.notice_period,
        credit_mint,
    );

    let balance = job.balance;
    let mut refund = Payment { credit_amount: 0, token_amount: 0 };
    if balance > 0 {
        match withdraw_internal(job, credit_mint, balance) {
            Ok(payout) => {
                refund = payout;
            }
            Err(_) => {
                proof {
                    assert(false);
                }
            }
        }
    }
    Ok((settle_payment, refund))
}

/// The complete outcome of opening a job: the market with its counter
/// advanced, the new job record, the deposit transfer into escrow and the
/// notice-window settlement to the provider — or the error that rejects
/// the call. Opening deposits the initial balance (credits first) into a
/// record watermarked at `now`, then installs the billing rate through the
/// rate-revision protocol, which pre-pays the notice window at that rate.
pub open spec fn open_outcome(
    market: Market,
    metadata: String,
    owner: u64,
    provider: u64,
    rate: u64,
    balance: u64,
    now: u64,
    credit_mint: u64,
    available_credit: u64,
) -> Result<(Market, Job, Payment, Payment), ErrorCodes> {
    let opened = Job {
        index: market.job_index,
        metadata,
        owner,
        provider,
        rate: 0,
        balance: 0,
        credit_balance: 0,
        last_settled: now,
    };
    let credit = if credit_mint != 0 {
        min(balance as int, available_credit as int)
    } else {
        0int
    };
    let funded = Job { balance, credit_balance: credit as u64, ..opened };
    let deposit = Payment { credit_amount: credit as u64, token_amount: (balance - credit) as u64 };
    match revise_outcome(funded, rate, market.notice_period, now, credit_mint) {
        Ok(revised) => Ok(
            (
                Market { job_index: (market.job_index + 1) as u64, ..market },
                revised.0,
                deposit,
                revised.2,
            ),
        ),
        Err(e) => Err(e),
    }
}

/// Open a new job: assign it the next index from the market's counter,
/// escrow the initial `balance` (drawing on the depositor's credit
/// allowance first), and install `rate` through the rate-revision protocol,
/// which pre-pays the notice window at that rate. Rejects a zero rate, or a
/// balance that cannot cover the notice window; a rejected call leaves the
/// market unchanged and creates nothing.
pub fn job_open(
    market: &mut Market,
    metadata: String,
    owner: u64,
    provider: u64,
    rate: u64,
    balance: u64,
    now: u64,
    credit_mint: u64,
    available_credit: u64,
) -> (r: Result<(Job, Payment, Payment), ErrorCodes>)
    requires
        old(market).job_index < u64::MAX,
        rate != 0 ==> now + old(market).notice_period <= u64::MAX && rate * old(
            market,
        ).notice_period + (PRECISION - 1) <= u64::MAX,
    ensures
        (match r {
            Ok(results) => open_outcome(
                *old(market),
                metadata,
                owner,
                provider,
                rate,
                balance,
                now,
                credit_mint,
                available_credit,
            ) == Ok::<_, ErrorCodes>((*final(market), results.0, results.1, results.2)),
            Err(e) => open_outcome(
                *old(market),
                metadata,
                owner,
                provider,
                rate,
                balance,
                now,
                credit_mint,
                available_credit,
            ) == Err::<(Market, Job, Payment, Payment), _>(e) && *final(market) == *old(market),
        }),
        r matches Ok(results) ==> {
            &&& final(market).job_index == old(market).job_index + 1
            &&& results.0.index == old(market).job_index
            &&& results.0.owner == owner
            &&& results.0.provider == provider
            &&& results.0.rate == rate
            &&& results.0.last_settled == now + old(market).notice_period
            &&& job_wf(results.0, credit_mint)
        },
{
    let mut job = Job {
        index: market.job_index,
        metadata,
        owner,
        provider,
        rate: 0,
        balance: 0,
        credit_balance: 0,
        last_settled: now,
    };

    let deposit_payment = deposit_token(&mut job, credit_mint, available_credit, balance);

    proof {
        if rate != 0 {
            assert(crate::job::max_rate(job.rate, rate) == rate);
        }
    }
    match job_revise_rate_internal(&mut job, rate, market.notice_period, now, credit_mint) {
        Ok((_flush, notice_payment)) => {
            market.job_index = market.job_index + 1;
            Ok((job, deposit_payment, notice_payment))
        }
        Err(e) => Err(e),
    }
}

} // verus!
