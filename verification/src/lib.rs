//! A custodial vault over native balances: one derived account per owner,
//! funded by a single deposit and emptied by a full withdrawal.

pub mod laws;
pub mod ledger;
pub mod resolver;
pub mod vault;

pub use vault::{deposit, withdraw, Account, Authority, Transfer, VaultAction, VaultError};
