//! Client-facing hub handlers: the outbound half of the relocation
//! protocol (ownership check, custody lock, outbound message with its
//! finalize directive) and the privileged local mint.

use vstd::prelude::*;
use vstd::string::StringExecFns;

use crate::admission::check_local_module;
use crate::admission::spec_module_namespace;
use crate::error::AppError;
use crate::helpers::next_token_id_mut;
use crate::helpers::spec_token_id;
use crate::identity::clone_account_id;
use crate::identity::AccountId;
use crate::identity::AccountIdV;
use crate::metadata::clone_opt_metadata;
use crate::metadata::clone_opt_str;
use crate::metadata::spec_opt_metadata;
use crate::metadata::spec_opt_str;
use crate::metadata::Metadata;
use crate::metadata::MetadataV;
use crate::msg::HubAction;
use crate::msg::HubExecuteMsg;
use crate::msg::HubIbcCallbackMsg;
use crate::msg::HubIbcMsg;
use crate::state::find_token;
use crate::state::spec_find_token;
use crate::state::spec_module_lookup;
use crate::state::Config;
use crate::state::ModuleEntry;
use crate::state::Token;

verus! {

/// What a relocation request returns: on success, exactly the custody
/// lock (a transfer of the asset to the module's own escrow address) and
/// one outbound message carrying the preserved id, the stored uri and
/// extension, the requester's identity, and the burn directive to be
/// called back on completion; `Unauthorized` when the requester does not
/// own the asset; a collaborator error when the asset does not exist.
pub open spec fn spec_ibc_transfer_post(
    tokens: Seq<Token>,
    requester_addr: Seq<char>,
    requester_account_id: AccountIdV,
    contract_addr: Seq<char>,
    token_id: Seq<char>,
    recipient_chain: Seq<char>,
    r: Result<Vec<HubAction>, AppError>,
) -> bool {
    let found = spec_find_token(tokens, token_id);
    match r {
        Ok(actions) => {
            &&& found matches Some(t) && t.owner@ == requester_addr
            &&& actions@.len() == 2
            &&& (actions@[0] matches HubAction::TransferNft { token_id: tid, recipient }
                && tid@ == token_id && recipient@ == contract_addr)
            &&& (actions@[1] matches HubAction::SendIbcMint { host_chain, msg, callback } && {
                &&& host_chain@ == recipient_chain
                &&& (msg matches HubIbcMsg::IbcMint {
                    local_account_id,
                    token_id: mid,
                    token_uri,
                    extension,
                } && {
                    &&& local_account_id@ == requester_account_id
                    &&& mid@ == token_id
                    &&& spec_opt_str(token_uri) == spec_opt_str(found->Some_0.token_uri)
                    &&& spec_opt_metadata(extension) == spec_opt_metadata(found->Some_0.extension)
                })
                &&& (callback matches Some(cb) && (cb matches HubIbcCallbackMsg::BurnToken {
                    token_id: bid,
                } && bid@ == token_id))
            })
        },
        Err(e) => match e {
            AppError::Unauthorized => found matches Some(t) && t.owner@ != requester_addr,
            AppError::Std(_) => found is None,
            _ => false,
        },
    }
}

/// Starts a relocation: verifies that the requesting account's resolved
/// top-level owner holds the asset, locks the asset by transferring it to
/// the module's escrow address, and emits the outbound message whose
/// callback will finalize the hand-off.
pub fn ibc_transfer(
    tokens: &Vec<Token>,
    requester_addr: &String,
    requester_account_id: &AccountId,
    contract_addr: &String,
    token_id: String,
    recipient_chain: String,
) -> (r: Result<Vec<HubAction>, AppError>)
    ensures
        spec_ibc_transfer_post(
            tokens@,
            requester_addr@,
            requester_account_id@,
            contract_addr@,
            token_id@,
            recipient_chain@,
            r,
        ),
{
    match find_token(tokens, &token_id) {
        None => Err(AppError::Std(String::from_str("token not found"))),
        Some(i) => {
            let t = &tokens[i];
            if !t.owner.eq(requester_addr) {
                return Err(AppError::Unauthorized);
            }
            let mut actions: Vec<HubAction> = Vec::new();
            actions.push(
                HubAction::TransferNft {
                    token_id: token_id.clone(),
                    recipient: contract_addr.clone(),
                },
            );
            actions.push(
                HubAction::SendIbcMint {
                    host_chain: recipient_chain,
                    msg: HubIbcMsg::IbcMint {
                        local_account_id: clone_account_id(requester_account_id),
                        token_id: token_id.clone(),
                        token_uri: clone_opt_str(&t.token_uri),
                        extension: clone_opt_metadata(&t.extension),
                    },
                    callback: Some(HubIbcCallbackMsg::BurnToken { token_id }),
                },
            );
            Ok(actions)
        },
    }
}

/// What the privileged local mint returns: on success (the caller is the
/// registered module it claims to be, and that module's namespace is the
/// trusted one) the counter advances by one and exactly one mint of the
/// freshly allocated id is requested, owned by the requesting account's
/// custodial address; the admission errors say exactly which check
/// failed, and no state changes on an error.
pub open spec fn spec_mint_post(
    old_config: Config,
    new_config: Config,
    chain_name: Seq<char>,
    modules: Seq<ModuleEntry>,
    sender: Seq<char>,
    module_id: Seq<char>,
    trusted_namespace: Seq<char>,
    account_proxy: Seq<char>,
    token_uri: Seq<char>,
    metadata: MetadataV,
    r: Result<Vec<HubAction>, AppError>,
) -> bool {
    let registered = spec_module_lookup(modules, module_id);
    match r {
        Ok(actions) => {
            &&& registered == Some(sender)
            &&& spec_module_namespace(module_id) == Some(trusted_namespace)
            &&& new_config.next_token_id == old_config.next_token_id + 1
            &&& new_config.lost_token_uri == old_config.lost_token_uri
            &&& new_config.lost_metadata == old_config.lost_metadata
            &&& actions@.len() == 1
            &&& (actions@[0] matches HubAction::MintNft {
                token_id,
                owner,
                token_uri: u,
                extension,
            } && {
                &&& token_id@ == spec_token_id(chain_name, old_config.next_token_id as nat)
                &&& owner@ == account_proxy
                &&& spec_opt_str(u) == Some(token_uri)
                &&& spec_opt_metadata(extension) == Some(metadata)
            })
        },
        Err(e) => new_config == old_config && match e {
            AppError::Std(_) => registered is None || (registered == Some(sender)
                && spec_module_namespace(module_id) is None),
            AppError::Unauthorized => registered is Some && registered != Some(sender),
            AppError::WrongNamespace => registered == Some(sender) && spec_module_namespace(
                module_id,
            ) is Some && spec_module_namespace(module_id) != Some(trusted_namespace),
            AppError::Transfer(_) => false,
        },
    }
}

/// The privileged local mint: only a registered module of the trusted
/// namespace may call it; it allocates a fresh chain-scoped id and mints
/// the asset to the requesting account's custodial address.
pub fn mint(
    config: &mut Config,
    chain_name: &String,
    modules: &Vec<ModuleEntry>,
    sender: &String,
    module_id: &String,
    trusted_namespace: &String,
    account_proxy: &String,
    token_uri: String,
    metadata: Metadata,
) -> (r: Result<Vec<HubAction>, AppError>)
    requires
        old(config).next_token_id < u64::MAX,
    ensures
        spec_mint_post(
            *old(config),
            *final(config),
            chain_name@,
            modules@,
            sender@,
            module_id@,
            trusted_namespace@,
            account_proxy@,
            token_uri@,
            metadata@,
            r,
        ),
{
    let module_addr = match crate::state::module_lookup(modules, module_id) {
        None => {
            return Err(AppError::Std(String::from_str("module not registered")));
        },
        Some(addr) => addr,
    };
    if let Err(e) = check_local_module(&module_addr, sender, module_id, trusted_namespace) {
        return Err(e);
    }
    let token_id = next_token_id_mut(config, chain_name);
    let mut actions: Vec<HubAction> = Vec::new();
    actions.push(
        HubAction::MintNft {
            token_id,
            owner: account_proxy.clone(),
            token_uri: Some(token_uri),
            extension: Some(metadata),
        },
    );
    Ok(actions)
}

/// Dispatches one client request to the matching handler; the outcome is
/// exactly that handler's.
pub fn execute_handler(
    config: &mut Config,
    chain_name: &String,
    tokens: &Vec<Token>,
    modules: &Vec<ModuleEntry>,
    sender: &String,
    requester_addr: &String,
    requester_account_id: &AccountId,
    contract_addr: &String,
    trusted_namespace: &String,
    msg: HubExecuteMsg,
) -> (r: Result<Vec<HubAction>, AppError>)
    requires
        old(config).next_token_id < u64::MAX,
    ensures
        match msg {
            HubExecuteMsg::IbcTransfer { token_id, recipient_chain } => *final(config) == *old(
                config,
            ) && spec_ibc_transfer_post(
                tokens@,
                requester_addr@,
                requester_account_id@,
                contract_addr@,
                token_id@,
                recipient_chain@,
                r,
            ),
            HubExecuteMsg::Mint { module_id, token_uri, metadata } => spec_mint_post(
                *old(config),
                *final(config),
                chain_name@,
                modules@,
                sender@,
                module_id@,
                trusted_namespace@,
                requester_addr@,
                token_uri@,
                metadata@,
                r,
            ),
        },
{
    match msg {
        HubExecuteMsg::IbcTransfer { token_id, recipient_chain } => ibc_transfer(
            tokens,
            requester_addr,
            requester_account_id,
            contract_addr,
            token_id,
            recipient_chain,
        ),
        HubExecuteMsg::Mint { module_id, token_uri, metadata } => mint(
            config,
            chain_name,
            modules,
            sender,
            &module_id,
            trusted_namespace,
            requester_addr,
            token_uri,
            metadata,
        ),
    }
}

} // verus!
