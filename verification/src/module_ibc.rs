//! The remote mint handler: the inbound half of a relocation. An
//! admitted cross-ledger message resolves the true local recipient of the
//! asset and creates its custody record here, preserving the id chosen on
//! the origin ledger.

use vstd::prelude::*;

use crate::error::AppError;
use crate::identity::registry_lookup;
use crate::identity::resolve_incoming;
use crate::identity::spec_registry_lookup;
use crate::identity::spec_resolve_trace;
use crate::identity::spec_trace;
use crate::identity::AccountId;
use crate::identity::RegisteredAccount;
use crate::metadata::spec_opt_metadata;
use crate::metadata::spec_opt_str;
use crate::metadata::Metadata;
use crate::metadata::MetadataV;
use crate::msg::HubAction;
use crate::msg::HubIbcMsg;

verus! {

/// What minting an inbound asset returns: the identity is translated to
/// this ledger's viewpoint (a returning hop is popped, a forward hop
/// appends the sending ledger), and on success exactly one mint of the
/// preserved id is requested, owned by the address the account registry
/// holds for the translated identity; a collaborator error reports an
/// unregistered identity.
pub open spec fn spec_internal_mint_post(
    client_chain: Seq<char>,
    viewing_chain: Seq<char>,
    registry: Seq<RegisteredAccount>,
    account_id: AccountId,
    token_id: Seq<char>,
    token_uri: Option<Seq<char>>,
    extension: Option<MetadataV>,
    r: Result<Vec<HubAction>, AppError>,
) -> bool {
    let target_trace = spec_resolve_trace(spec_trace(account_id), client_chain, viewing_chain);
    let resolved = spec_registry_lookup(registry, account_id.seq as nat, target_trace);
    match r {
        Ok(actions) => {
            &&& resolved is Some
            &&& actions@.len() == 1
            &&& (actions@[0] matches HubAction::MintNft {
                token_id: tid,
                owner,
                token_uri: u,
                extension: e,
            } && {
                &&& tid@ == token_id
                &&& Some(owner@) == resolved
                &&& spec_opt_str(u) == token_uri
                &&& spec_opt_metadata(e) == extension
            })
        },
        Err(e) => resolved is None && e is Std,
    }
}

/// Mints one inbound asset: translates the sender-side identity into the
/// local viewpoint, resolves it through the account registry, and
/// requests the mint of the preserved id for that owner.
pub fn internal_ibc_mint_token(
    viewing_chain: &String,
    registry: &Vec<RegisteredAccount>,
    client_chain: &String,
    account_id: AccountId,
    token_id: String,
    token_uri: Option<String>,
    extension: Option<Metadata>,
) -> (r: Result<Vec<HubAction>, AppError>)
    ensures
        spec_internal_mint_post(
            client_chain@,
            viewing_chain@,
            registry@,
            account_id,
            token_id@,
            spec_opt_str(token_uri),
            spec_opt_metadata(extension),
            r,
        ),
{
    let target_account = resolve_incoming(&account_id, client_chain, viewing_chain);
    match registry_lookup(registry, &target_account) {
        None => Err(AppError::Std(String::from_str("account not registered"))),
        Some(proxy) => {
            let mut actions: Vec<HubAction> = Vec::new();
            actions.push(
                HubAction::MintNft { token_id, owner: proxy, token_uri, extension },
            );
            Ok(actions)
        },
    }
}

/// Receives one cross-ledger module message: the declared namespace of
/// the sending module, as authenticated by the transport, must equal the
/// trusted namespace (else the call is turned away as `WrongNamespace`),
/// and the decoded mint payload is then handled by
/// [`internal_ibc_mint_token`].
pub fn receive_module_ibc(
    viewing_chain: &String,
    registry: &Vec<RegisteredAccount>,
    trusted_namespace: &String,
    source_namespace: &String,
    client_chain: &String,
    msg: HubIbcMsg,
) -> (r: Result<Vec<HubAction>, AppError>)
    ensures
        source_namespace@ != trusted_namespace@ ==> (r matches Err(e) && e is WrongNamespace),
        source_namespace@ == trusted_namespace@ ==> (msg matches HubIbcMsg::IbcMint {
            local_account_id,
            token_id,
            token_uri,
            extension,
        } && spec_internal_mint_post(
            client_chain@,
            viewing_chain@,
            registry@,
            local_account_id,
            token_id@,
            spec_opt_str(token_uri),
            spec_opt_metadata(extension),
            r,
        )),
{
    if let Err(e) = crate::admission::check_sender_namespace(source_namespace, trusted_namespace) {
        return Err(e);
    }
    match msg {
        HubIbcMsg::IbcMint { local_account_id, token_id, token_uri, extension } => {
            internal_ibc_mint_token(
                viewing_chain,
                registry,
                client_chain,
                local_account_id,
                token_id,
                token_uri,
                extension,
            )
        },
    }
}

} // verus!
