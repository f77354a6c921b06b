//! Message surfaces of the origination front door.

use vstd::prelude::*;

use crate::identity::AccountId;
use crate::metadata::Metadata;

verus! {

/// One amount of one funds denomination.
pub struct Coin {
    pub denom: String,
    pub amount: u128,
}

/// Copies a coin.
pub fn clone_coin(c: &Coin) -> (r: Coin)
    ensures
        r.denom@ == c.denom@,
        r.amount == c.amount,
{
    Coin { denom: c.denom.clone(), amount: c.amount }
}

/// Front-door instantiation parameters.
pub struct MinterInstantiateMsg {
    pub admin_account: AccountId,
    pub metadata_base: Metadata,
    pub token_uri_base: String,
    pub mint_limit: usize,
    pub mint_cost: Coin,
}

/// Client-facing front-door requests.
pub enum MinterExecuteMsg {
    /// Originate a fresh asset on a remote ledger; with `send_back` set,
    /// the fresh asset is immediately relocated back to this ledger.
    Mint { send_back: bool },
}

/// Front-door queries.
pub enum MinterQueryMsg {
    Config {},
}

/// Front-door migrations (none are supported; the type has no useful
/// value).
pub struct MinterMigrateMsg {}

/// Answer to [`MinterQueryMsg::Config`].
pub struct ConfigResponse {
    pub admin_account: AccountId,
    pub metadata_base: Metadata,
    pub token_uri_base: String,
    pub mint_limit: usize,
    pub mint_cost: Coin,
}

/// Answers of the front door's query surface.
pub enum MinterQueryAnswer {
    Config(ConfigResponse),
}

/// The cross-ledger payload the front door sends to its counterpart on
/// the chosen destination ledger.
pub enum MinterIbcMsg {
    /// Mint a fresh asset on the receiving ledger for `local_account_id`
    /// as known on the sending ledger; with `send_back` set, relocate it
    /// back right after.
    IbcMint { local_account_id: AccountId, send_back: bool },
}

/// An action a front-door handler asks the host ledger to perform.
pub enum MinterAction {
    /// Transfer the fixed mint price from the requester's funds to the
    /// configured beneficiary.
    Pay { amount: u128, denom: String, recipient: String },
    /// Hand the cross-ledger origination request to the transport.
    SendIbcMint { host_chain: String, msg: MinterIbcMsg },
    /// Call the local hub's privileged mint on behalf of the account at
    /// `proxy`.
    CallHubMint { proxy: String, module_id: String, token_uri: String, metadata: Metadata },
    /// Call the local hub's relocation entry on behalf of the account at
    /// `proxy`.
    CallHubIbcTransfer { proxy: String, token_id: String, recipient_chain: String },
}

} // verus!
