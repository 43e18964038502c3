//! Custody protocols for an account-based ledger: a single-owner vault and a
//! two-party escrow. Both hold native-currency balances at program-derived
//! addresses, and both gate every outgoing transfer on re-deriving those
//! addresses from protocol-defined seeds.

pub mod derivation;
pub mod ledger;
pub mod vault;
pub mod escrow;
