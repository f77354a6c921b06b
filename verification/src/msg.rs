//! The hub's message surfaces: client requests, the cross-ledger mint
//! payload, the finalize callback directive, queries and their answers,
//! and the actions a handler asks the host ledger to perform.

use vstd::prelude::*;

use crate::identity::AccountId;
use crate::metadata::Metadata;

verus! {

/// Hub instantiation parameters.
pub struct HubInstantiateMsg {
    pub admin_account: AccountId,
    pub nft_code_id: u64,
    pub lost_token_uri: String,
    pub lost_metadata: Metadata,
}

/// Client-facing hub requests.
pub enum HubExecuteMsg {
    /// Relocate the asset `token_id` to the ledger named
    /// `recipient_chain`, preserving its id.
    IbcTransfer { token_id: String, recipient_chain: String },
    /// Mint a fresh local asset; a privileged entry, callable only by a
    /// registered module of the trusted namespace.
    Mint { module_id: String, token_uri: String, metadata: Metadata },
}

/// The cross-ledger payload a relocation carries to the destination
/// ledger's remote mint handler.
pub enum HubIbcMsg {
    /// Mint the asset on the receiving ledger, preserving `token_id`, for
    /// the account `local_account_id` as known on the sending ledger.
    IbcMint {
        local_account_id: AccountId,
        token_id: String,
        token_uri: Option<String>,
        extension: Option<Metadata>,
    },
}

/// The callback directive embedded in an outbound relocation: delivered
/// back to the origin ledger once the transport confirms delivery.
pub enum HubIbcCallbackMsg {
    BurnToken { token_id: String },
}

/// Hub queries.
pub enum HubQueryMsg {
    Config {},
    NextTokenId {},
}

/// Hub migrations (none are supported; the type has no useful value).
pub struct HubMigrateMsg {}

/// Answer to [`HubQueryMsg::Config`].
pub struct ConfigResponse {
    pub nft: String,
    pub next_token_id: u64,
}

/// Answer to [`HubQueryMsg::NextTokenId`]: a preview of the id the next
/// allocation will produce, without allocating it.
pub struct NextTokenIdResponse {
    pub next_token_id: String,
}

/// A simple counter answer.
pub struct CountResponse {
    pub count: i32,
}

/// Answers of the hub's query surface.
pub enum HubQueryAnswer {
    Config(ConfigResponse),
    NextTokenId(NextTokenIdResponse),
}

/// The result reported by the transport for one outbound message, as
/// delivered to the origin ledger's callback entry point.
pub enum CallbackResult {
    /// The message was executed on the destination; carries the remote
    /// execution outcome.
    Execute(Result<(), String>),
    /// The transport failed terminally before execution.
    FatalError(String),
}

/// An action a hub handler asks the host ledger to perform: an operation
/// on the token-ownership collaborator, or an outbound cross-ledger
/// message handed to the transport.
pub enum HubAction {
    /// Transfer custody of `token_id` to `recipient` on the local token
    /// ledger.
    TransferNft { token_id: String, recipient: String },
    /// Create the record for `token_id` on the local token ledger.
    MintNft {
        token_id: String,
        owner: String,
        token_uri: Option<String>,
        extension: Option<Metadata>,
    },
    /// Destroy the record for `token_id` on the local token ledger.
    BurnNft { token_id: String },
    /// Hand one cross-ledger message to the transport, with an optional
    /// callback directive to be returned on completion.
    SendIbcMint { host_chain: String, msg: HubIbcMsg, callback: Option<HubIbcCallbackMsg> },
}

} // verus!
