//! The front door's remote handler: an admitted cross-ledger origination
//! request drives the local hub's privileged mint on behalf of the
//! resolved requester, optionally chaining the relocation back.

use vstd::prelude::*;

use crate::error::MinterError;
use crate::helpers::spec_token_id;
use crate::identity::client_to_host_account_id;
use crate::identity::registry_lookup;
use crate::identity::spec_push_hop;
use crate::identity::spec_registry_lookup;
use crate::identity::spec_trace;
use crate::identity::AccountId;
use crate::identity::RegisteredAccount;
use crate::metadata::clone_metadata;
use crate::minter::msg::MinterAction;
use crate::minter::msg::MinterIbcMsg;
use crate::minter::state::Config;

verus! {

/// What handling an admitted origination request returns: the requester's
/// identity gains the forward hop from the sending ledger, and on success
/// the local hub is called to mint (with the configured uri and metadata
/// template) for the resolved account, followed, when the request asks to
/// send the asset back, by a relocation of the previewed fresh id towards
/// the sending ledger; an unregistered identity is a collaborator error.
pub open spec fn spec_minter_mint_post(
    config: Config,
    registry: Seq<RegisteredAccount>,
    own_module_id: Seq<char>,
    chain_name: Seq<char>,
    next_token_id: nat,
    client_chain: Seq<char>,
    account_id: AccountId,
    send_back: bool,
    r: Result<Vec<MinterAction>, MinterError>,
) -> bool {
    let target_trace = spec_push_hop(spec_trace(account_id), client_chain);
    let resolved = spec_registry_lookup(registry, account_id.seq as nat, target_trace);
    match r {
        Ok(actions) => {
            &&& resolved is Some
            &&& actions@.len() == (if send_back {
                2int
            } else {
                1int
            })
            &&& (actions@[0] matches MinterAction::CallHubMint {
                proxy,
                module_id,
                token_uri,
                metadata,
            } && {
                &&& Some(proxy@) == resolved
                &&& module_id@ == own_module_id
                &&& token_uri@ == config.token_uri_base@
                &&& metadata@ == config.metadata_base@
            })
            &&& send_back ==> (actions@[1] matches MinterAction::CallHubIbcTransfer {
                proxy,
                token_id,
                recipient_chain,
            } && {
                &&& Some(proxy@) == resolved
                &&& token_id@ == spec_token_id(chain_name, next_token_id)
                &&& recipient_chain@ == client_chain
            })
        },
        Err(e) => resolved is None && e is Std,
    }
}

/// Handles one admitted origination request: resolves the requester's
/// account as viewed from this ledger, calls the hub's privileged mint on
/// its behalf, and, when asked, previews the fresh id and issues the
/// relocation back to the sending ledger.
pub fn internal_ibc_mint_token(
    config: &Config,
    registry: &Vec<RegisteredAccount>,
    own_module_id: &String,
    hub_config: &crate::state::Config,
    chain_name: &String,
    client_chain: &String,
    account_id: AccountId,
    send_back: bool,
) -> (r: Result<Vec<MinterAction>, MinterError>)
    ensures
        spec_minter_mint_post(
            *config,
            registry@,
            own_module_id@,
            chain_name@,
            hub_config.next_token_id as nat,
            client_chain@,
            account_id,
            send_back,
            r,
        ),
{
    let target_account = client_to_host_account_id(client_chain, &account_id);
    let resolved_proxy = match registry_lookup(registry, &target_account) {
        None => {
            return Err(MinterError::Std(String::from_str("account not registered")));
        },
        Some(proxy) => proxy,
    };
    let mut actions: Vec<MinterAction> = Vec::new();
    actions.push(
        MinterAction::CallHubMint {
            proxy: resolved_proxy.clone(),
            module_id: own_module_id.clone(),
            token_uri: config.token_uri_base.clone(),
            metadata: clone_metadata(&config.metadata_base),
        },
    );
    if send_back {
        let next_token_id = crate::helpers::next_token_id(hub_config, chain_name);
        actions.push(
            MinterAction::CallHubIbcTransfer {
                proxy: resolved_proxy,
                token_id: next_token_id,
                recipient_chain: client_chain.clone(),
            },
        );
    }
    Ok(actions)
}

/// Receives one cross-ledger module message for the front door: the
/// declared namespace of the sending module, as authenticated by the
/// transport, must equal the trusted namespace; anything else is turned
/// away as `WrongNamespace`.
pub fn receive_module_ibc(
    config: &Config,
    registry: &Vec<RegisteredAccount>,
    own_module_id: &String,
    hub_config: &crate::state::Config,
    chain_name: &String,
    trusted_namespace: &String,
    source_namespace: &String,
    client_chain: &String,
    msg: MinterIbcMsg,
) -> (r: Result<Vec<MinterAction>, MinterError>)
    ensures
        source_namespace@ != trusted_namespace@ ==> (r matches Err(e) && e is WrongNamespace),
        source_namespace@ == trusted_namespace@ ==> (msg matches MinterIbcMsg::IbcMint {
            local_account_id,
            send_back,
        } && spec_minter_mint_post(
            *config,
            registry@,
            own_module_id@,
            chain_name@,
            hub_config.next_token_id as nat,
            client_chain@,
            local_account_id,
            send_back,
            r,
        )),
{
    if !source_namespace.eq(trusted_namespace) {
        return Err(MinterError::WrongNamespace);
    }
    match msg {
        MinterIbcMsg::IbcMint { local_account_id, send_back } => internal_ibc_mint_token(
            config,
            registry,
            own_module_id,
            hub_config,
            chain_name,
            client_chain,
            local_account_id,
            send_back,
        ),
    }
}

} // verus!
