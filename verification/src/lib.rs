//! Escrow and settlement engine for a pay-per-use compute marketplace.
//!
//! A job escrows funds between an owner (buyer) and a provider (seller).
//! As time elapses, the settlement engine computes the pro-rata amount owed
//! to the provider, splits it across a credit sub-balance and the primary
//! currency, and advances the job's settlement watermark. A rate-revision
//! protocol pre-pays a notice window at the higher of the old and new rate so
//! that neither party can be shorted by an abrupt rate change, and a generic
//! timelock primitive supports staged, delayed actions.
//!
//! The engine itself is pure state-transition logic: it decides which
//! transfers must happen and mutates the ledger records accordingly, while
//! the host environment is expected to execute the returned transfer amounts
//! atomically with the call, supply the current time, and store the records.

pub mod billing;
pub mod credits;
pub mod job;
pub mod lock;
pub mod market;
