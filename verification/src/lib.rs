//! A custodial vault: a pool of native currency units that arbitrary users
//! may pay into, and that only a single designated authority may pay out of.
//!
//! The library is the vault's decision logic: the three state transitions
//! (initialize, deposit, withdraw) over plain balances and identities, each
//! with a contract that pins down the resulting balances and the exact error
//! on every rejected request. The host ledger runtime, which resolves
//! accounts, verifies signatures and moves the actual currency, stays outside.

pub mod keys;
pub mod record;
pub mod vault;
