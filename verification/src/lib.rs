//! Cross-ledger NFT hub: a verified model of the relocation protocol,
//! remote-mint admission, account-identity resolution, deterministic
//! identifier allocation and the rate-limited origination front door.
//!
//! The library is split into the per-ledger decision logic (the hub and
//! minter handlers, which map state and a decoded request to a new state
//! and a list of actions) and a two-ledger protocol layer that models the
//! token collaborator and the message transport, where the cross-ledger
//! guarantees are stated and proved.

pub mod admission;
pub mod error;
pub mod execute;
pub mod helpers;
pub mod identity;
pub mod instantiate;
pub mod internal;
pub mod metadata;
pub mod minter;
pub mod module_ibc;
pub mod msg;
pub mod protocol;
pub mod query;
pub mod replies;
pub mod state;
pub mod transfer;
