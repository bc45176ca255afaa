//! Credit-currency administration: minting, burning and redemption of the
//! admin-issued credit currency that backs jobs' credit sub-balances.
//!
//! These operations only validate and decide; the actual mint, burn and
//! transfer instructions are the host's, executed exactly when the
//! corresponding call returns `Ok`.

use vstd::prelude::*;

verus! {

/// Process-wide state of the credit program.
pub struct State {
    /// Identity of the administrator.
    pub admin: u64,
    /// Identity of the marketplace instance whose escrow holds the credits.
    pub oyster_market: u64,
    /// The primary currency credits redeem into.
    pub usdc_mint: u64,
    /// Set once by [`initialize`]; a second initialization is rejected.
    pub initialized: bool,
}

/// Errors surfaced by credit operations. A failed call leaves the state
/// exactly as it was before the call.
#[derive(Clone, Copy, Debug, PartialEq, Eq, Structural)]
pub enum ErrorCodes {
    AlreadyInitialized,
    OnlyAdmin,
    NotEnoughUSDC,
}

/// Set up the credit program once: fix the administrator, the marketplace
/// it serves and the redemption currency. A repeated initialization is
/// rejected with the state unchanged.
pub fn initialize(state: &mut State, admin: u64, oyster_market: u64, usdc_mint: u64) -> (r: Result<
    (),
    ErrorCodes,
>)
    ensures
        old(state).initialized ==> r == Err::<(), ErrorCodes>(ErrorCodes::AlreadyInitialized)
            && *final(state) == *old(state),
        !old(state).initialized ==> r == Ok::<(), ErrorCodes>(()) && *final(state) == (State {
            admin,
            oyster_market,
            usdc_mint,
            initialized: true,
        }),
{
    if state.initialized {
        return Err(ErrorCodes::AlreadyInitialized);
    }
    state.admin = admin;
    state.oyster_market = oyster_market;
    state.usdc_mint = usdc_mint;
    state.initialized = true;
    Ok(())
}

/// Authorize minting `amount` credits: only the administrator may mint. On
/// `Ok` the host mints the amount into the target holding.
pub fn mint(state: &State, signer: u64, amount: u64) -> (r: Result<u64, ErrorCodes>)
    ensures
        signer != state.admin ==> r == Err::<u64, ErrorCodes>(ErrorCodes::OnlyAdmin),
        signer == state.admin ==> r == Ok::<u64, ErrorCodes>(amount),
{
    if signer != state.admin {
        return Err(ErrorCodes::OnlyAdmin);
    }
    Ok(amount)
}

/// Authorize burning `amount` credits: only the administrator may burn. On
/// `Ok` the host burns the amount from the target holding.
pub fn burn(state: &State, authority: u64, amount: u64) -> (r: Result<u64, ErrorCodes>)
    ensures
        authority != state.admin ==> r == Err::<u64, ErrorCodes>(ErrorCodes::OnlyAdmin),
        authority == state.admin ==> r == Ok::<u64, ErrorCodes>(amount),
{
    if authority != state.admin {
        return Err(ErrorCodes::OnlyAdmin);
    }
    Ok(amount)
}

/// Authorize redeeming `amount` credits into the primary currency: rejected
/// if the program's primary-currency pool, `program_usdc_balance`, cannot
/// cover it. On `Ok` the host transfers `amount` primary currency to the
/// redeemer and burns `amount` credits from the marketplace's escrow.
pub fn redeem_and_burn(state: &State, program_usdc_balance: u64, amount: u64) -> (r: Result<
    u64,
    ErrorCodes,
>)
    ensures
        program_usdc_balance < amount ==> r == Err::<u64, ErrorCodes>(ErrorCodes::NotEnoughUSDC),
        program_usdc_balance >= amount ==> r == Ok::<u64, ErrorCodes>(amount),
{
    if program_usdc_balance < amount {
        return Err(ErrorCodes::NotEnoughUSDC);
    }
    Ok(amount)
}

} // verus!
