//! A verified ledger-mutation routine: moves the spendable balance of a
//! source account to a destination account, deducting a proportional tax
//! whose burn half is credited to a dedicated sink account, unless the
//! source's authority is exempt.
//!
//! The routine is stateless: every invocation reads the accounts it is
//! handed, validates them, computes the amounts, and mutates balances and
//! the destination's data buffer in place. It performs no compensation on
//! failure; it is meant to run inside a host that commits or discards all
//! mutations atomically based on the returned result.

pub mod account;
pub mod amounts;
pub mod processor;
