//! The rate-limited origination front door: a quota- and payment-gated
//! entry point that triggers a fresh mint on a deterministically chosen
//! remote ledger, optionally chaining an immediate relocation back.

pub mod execute;
pub mod ibc;
pub mod instantiate;
pub mod msg;
pub mod query;
pub mod state;
