//! Per-ledger handler behaviour on concrete values: admission, quota,
//! identity translation, finalize callbacks and reply parsing.

use cosmos_adventures_hub::error::AppError;
use cosmos_adventures_hub::error::MinterError;
use cosmos_adventures_hub::execute::mint;
use cosmos_adventures_hub::identity::resolve_incoming;
use cosmos_adventures_hub::identity::AccountId;
use cosmos_adventures_hub::internal::is_whitelisted;
use cosmos_adventures_hub::internal::remove_whitelist;
use cosmos_adventures_hub::internal::whitelist;
use cosmos_adventures_hub::metadata::Metadata;
use cosmos_adventures_hub::minter::execute::assert_mint_limit;
use cosmos_adventures_hub::minter::msg::Coin;
use cosmos_adventures_hub::minter::state::minted_amount;
use cosmos_adventures_hub::msg::CallbackResult;
use cosmos_adventures_hub::msg::HubAction;
use cosmos_adventures_hub::msg::HubIbcCallbackMsg;
use cosmos_adventures_hub::identity::RegisteredAccount;
use cosmos_adventures_hub::module_ibc::receive_module_ibc;
use cosmos_adventures_hub::msg::HubIbcMsg;
use cosmos_adventures_hub::replies::account_creation_reply;
use cosmos_adventures_hub::replies::Event;
use cosmos_adventures_hub::replies::EventAttribute;
use cosmos_adventures_hub::replies::ReplyAction;
use cosmos_adventures_hub::state::Config;
use cosmos_adventures_hub::state::ModuleEntry;
use cosmos_adventures_hub::transfer::transfer_callback;

fn hub_config() -> Config {
    Config {
        next_token_id: 0,
        lost_token_uri: "https://link.org".to_string(),
        lost_metadata: Metadata::empty(),
    }
}

fn minter_config(limit: usize) -> cosmos_adventures_hub::minter::state::Config {
    cosmos_adventures_hub::minter::state::Config {
        admin_account: AccountId::local(0),
        metadata_base: Metadata::empty(),
        token_uri_base: "https://link.org".to_string(),
        mint_limit: limit,
        mint_cost: Coin { denom: "uluna".to_string(), amount: 453687 },
    }
}

#[test]
fn mint_rejects_wrong_namespace() {
    // The registered module calls from its own address, but its id
    // declares a namespace other than the trusted one.
    let mut config = hub_config();
    let modules = vec![ModuleEntry {
        module_id: "intruders:mint".to_string(),
        address: "juno1minter".to_string(),
    }];
    let r = mint(
        &mut config,
        &"juno".to_string(),
        &modules,
        &"juno1minter".to_string(),
        &"intruders:mint".to_string(),
        &"cosmos-adventures".to_string(),
        &"juno1proxy".to_string(),
        "https://link.org".to_string(),
        Metadata::empty(),
    );
    assert!(matches!(r, Err(AppError::WrongNamespace)));
    assert_eq!(config.next_token_id, 0);
}

#[test]
fn mint_rejects_unregistered_caller() {
    // The caller's address does not match the registered address of the
    // module it claims to be.
    let mut config = hub_config();
    let modules = vec![ModuleEntry {
        module_id: "cosmos-adventures:cross-chain-mint".to_string(),
        address: "juno1minter".to_string(),
    }];
    let r = mint(
        &mut config,
        &"juno".to_string(),
        &modules,
        &"juno1someoneelse".to_string(),
        &"cosmos-adventures:cross-chain-mint".to_string(),
        &"cosmos-adventures".to_string(),
        &"juno1proxy".to_string(),
        "https://link.org".to_string(),
        Metadata::empty(),
    );
    assert!(matches!(r, Err(AppError::Unauthorized)));
    assert_eq!(config.next_token_id, 0);
}

#[test]
fn mint_allocates_for_admitted_module() {
    let mut config = hub_config();
    let modules = vec![ModuleEntry {
        module_id: "cosmos-adventures:cross-chain-mint".to_string(),
        address: "juno1minter".to_string(),
    }];
    let r = mint(
        &mut config,
        &"juno".to_string(),
        &modules,
        &"juno1minter".to_string(),
        &"cosmos-adventures:cross-chain-mint".to_string(),
        &"cosmos-adventures".to_string(),
        &"juno1proxy".to_string(),
        "https://link.org".to_string(),
        Metadata::empty(),
    )
    .unwrap();
    assert_eq!(r.len(), 1);
    match &r[0] {
        HubAction::MintNft { token_id, owner, token_uri, .. } => {
            assert_eq!(token_id, "juno>0");
            assert_eq!(owner, "juno1proxy");
            assert_eq!(token_uri.as_deref(), Some("https://link.org"));
        }
        other => panic!("unexpected action {:?}", action_name(other)),
    }
    assert_eq!(config.next_token_id, 1);
}

fn action_name(a: &HubAction) -> &'static str {
    match a {
        HubAction::TransferNft { .. } => "transfer",
        HubAction::MintNft { .. } => "mint",
        HubAction::BurnNft { .. } => "burn",
        HubAction::SendIbcMint { .. } => "send",
    }
}

#[test]
fn quota_is_enforced_and_not_reset() {
    let config = minter_config(1);
    let mut quota = Vec::new();
    let account = AccountId::local(7);
    assert!(assert_mint_limit(&config, &mut quota, &account).is_ok());
    assert_eq!(minted_amount(&quota, &account), 1);
    let second = assert_mint_limit(&config, &mut quota, &account);
    assert!(matches!(second, Err(MinterError::TooMuchMinted(1))));
    assert_eq!(minted_amount(&quota, &account), 1);
    // Another account's counter is untouched.
    let other = AccountId::local(8);
    assert_eq!(minted_amount(&quota, &other), 0);
    assert!(assert_mint_limit(&config, &mut quota, &other).is_ok());
}

#[test]
fn identity_translation_pushes_and_pops() {
    // A local account leaving its home ledger gains the forward hop.
    let local = AccountId::local(3);
    let remote = resolve_incoming(&local, &"juno".to_string(), &"stargaze".to_string());
    assert_eq!(remote.seq, 3);
    assert_eq!(remote.trace, vec!["juno".to_string()]);
    // Returning to the home ledger pops the hop: the round trip cancels.
    let back = resolve_incoming(&remote, &"stargaze".to_string(), &"juno".to_string());
    assert_eq!(back.seq, 3);
    assert!(back.trace.is_empty());
}

#[test]
fn callback_success_burns() {
    let r = transfer_callback(
        CallbackResult::Execute(Ok(())),
        Some(HubIbcCallbackMsg::BurnToken { token_id: "juno>0".to_string() }),
    )
    .unwrap();
    assert_eq!(r.len(), 1);
    assert!(matches!(&r[0], HubAction::BurnNft { token_id } if token_id == "juno>0"));
}

#[test]
fn callback_without_payload_is_transfer_error() {
    let r = transfer_callback(CallbackResult::Execute(Ok(())), None);
    match r {
        Err(AppError::Transfer(m)) => {
            assert_eq!(m, "There needs to be a message on callback");
        }
        _ => panic!("expected a transfer error"),
    }
}

#[test]
fn callback_failures_are_transfer_errors() {
    let remote = transfer_callback(
        CallbackResult::Execute(Err("remote execution failed".to_string())),
        Some(HubIbcCallbackMsg::BurnToken { token_id: "juno>0".to_string() }),
    );
    assert!(matches!(remote, Err(AppError::Transfer(m)) if m == "remote execution failed"));
    let fatal = transfer_callback(
        CallbackResult::FatalError("channel closed".to_string()),
        Some(HubIbcCallbackMsg::BurnToken { token_id: "juno>0".to_string() }),
    );
    assert!(matches!(fatal, Err(AppError::Transfer(m)) if m == "channel closed"));
}

#[test]
fn whitelist_updates_only_named_account() {
    let mut w = Vec::new();
    let a = AccountId::local(1);
    let b = AccountId::local(2);
    assert!(!is_whitelisted(&w, &a));
    whitelist(&mut w, &a);
    assert!(is_whitelisted(&w, &a));
    assert!(!is_whitelisted(&w, &b));
    remove_whitelist(&mut w, &a);
    assert!(!is_whitelisted(&w, &a));
}

#[test]
fn account_creation_reply_reads_identity() {
    let events = vec![
        Event { ty: "transfer".to_string(), attributes: vec![] },
        Event {
            ty: "wasm-abstract".to_string(),
            attributes: vec![
                EventAttribute {
                    key: "account_sequence".to_string(),
                    value: "12".to_string(),
                },
                EventAttribute { key: "trace".to_string(), value: "juno>terra".to_string() },
            ],
        },
    ];
    let (account, action) =
        account_creation_reply(&events, &"wasm-abstract".to_string()).unwrap();
    assert_eq!(account.account_id.seq, 12);
    assert_eq!(account.account_id.trace, vec!["juno".to_string(), "terra".to_string()]);
    // The reply's second effect: cross-ledger operation is enabled for
    // exactly the created account.
    let ReplyAction::UpdateIbcEnabled { account_id, enabled } = action;
    assert!(enabled);
    assert_eq!(account_id.seq, 12);
    assert_eq!(account_id.trace, vec!["juno".to_string(), "terra".to_string()]);

    let local_events = vec![Event {
        ty: "wasm-abstract".to_string(),
        attributes: vec![
            EventAttribute { key: "account_sequence".to_string(), value: "0".to_string() },
            EventAttribute { key: "trace".to_string(), value: "local".to_string() },
        ],
    }];
    let (local, _) = account_creation_reply(&local_events, &"wasm-abstract".to_string()).unwrap();
    assert_eq!(local.account_id.seq, 0);
    assert!(local.account_id.trace.is_empty());
}

#[test]
fn account_creation_reply_requires_the_event() {
    let events = vec![Event { ty: "transfer".to_string(), attributes: vec![] }];
    let r = account_creation_reply(&events, &"wasm-abstract".to_string());
    assert!(matches!(r, Err(AppError::Std(_))));
}

#[test]
fn remote_mint_rejects_foreign_namespace() {
    // A cross-ledger request whose declared namespace differs from the
    // configured trusted namespace is turned away as WrongNamespace
    // before anything is resolved or minted.
    let registry = vec![RegisteredAccount {
        account_id: AccountId { seq: 3, trace: vec!["juno".to_string()] },
        proxy: "stars1proxy".to_string(),
    }];
    let r = receive_module_ibc(
        &"stargaze".to_string(),
        &registry,
        &"cosmos-adventures".to_string(),
        &"intruders".to_string(),
        &"juno".to_string(),
        HubIbcMsg::IbcMint {
            local_account_id: AccountId::local(3),
            token_id: "juno>0".to_string(),
            token_uri: None,
            extension: None,
        },
    );
    assert!(matches!(r, Err(AppError::WrongNamespace)));
}

#[test]
fn front_door_rejects_foreign_namespace() {
    let config = minter_config(1);
    let hub_config = hub_config();
    let registry = vec![RegisteredAccount {
        account_id: AccountId { seq: 3, trace: vec!["juno".to_string()] },
        proxy: "terra1proxy".to_string(),
    }];
    let r = cosmos_adventures_hub::minter::ibc::receive_module_ibc(
        &config,
        &registry,
        &"cosmos-adventures:cross-chain-mint".to_string(),
        &hub_config,
        &"phoenix".to_string(),
        &"cosmos-adventures".to_string(),
        &"intruders".to_string(),
        &"juno".to_string(),
        cosmos_adventures_hub::minter::msg::MinterIbcMsg::IbcMint {
            local_account_id: AccountId::local(3),
            send_back: false,
        },
    );
    assert!(matches!(r, Err(MinterError::WrongNamespace)));
}
