//! The remaining public surfaces on concrete values: dispatchers, the
//! query handlers, module-internal administration, error rendering and
//! metadata pass-through.

use cosmos_adventures_hub::error::AppError;
use cosmos_adventures_hub::error::MinterError;
use cosmos_adventures_hub::execute::execute_handler;
use cosmos_adventures_hub::identity::AccountId;
use cosmos_adventures_hub::identity::RegisteredAccount;
use cosmos_adventures_hub::internal::internal_handler;
use cosmos_adventures_hub::internal::InternalExecuteMsg;
use cosmos_adventures_hub::internal::InternalOutcome;
use cosmos_adventures_hub::metadata::Metadata;
use cosmos_adventures_hub::minter::msg::Coin;
use cosmos_adventures_hub::minter::msg::MinterExecuteMsg;
use cosmos_adventures_hub::minter::msg::MinterQueryAnswer;
use cosmos_adventures_hub::minter::msg::MinterQueryMsg;
use cosmos_adventures_hub::msg::HubAction;
use cosmos_adventures_hub::msg::HubExecuteMsg;
use cosmos_adventures_hub::msg::HubIbcCallbackMsg;
use cosmos_adventures_hub::msg::HubIbcMsg;
use cosmos_adventures_hub::msg::HubQueryAnswer;
use cosmos_adventures_hub::msg::HubQueryMsg;
use cosmos_adventures_hub::state::Config;
use cosmos_adventures_hub::state::Token;

fn hub_config() -> Config {
    Config {
        next_token_id: 0,
        lost_token_uri: "https://link.org".to_string(),
        lost_metadata: Metadata::empty(),
    }
}

fn named_metadata(name: &str) -> Metadata {
    let mut m = Metadata::empty();
    m.name = Some(name.to_string());
    m
}

#[test]
fn execute_dispatches_relocation() {
    let mut config = hub_config();
    let tokens = vec![Token {
        token_id: "juno>0".to_string(),
        owner: "juno1owner".to_string(),
        token_uri: Some("https://link.org".to_string()),
        extension: Some(named_metadata("adventurer")),
    }];
    let requester = AccountId::local(9);
    let actions = execute_handler(
        &mut config,
        &"juno".to_string(),
        &tokens,
        &Vec::new(),
        &"juno1caller".to_string(),
        &"juno1owner".to_string(),
        &requester,
        &"juno1hub".to_string(),
        &"cosmos-adventures".to_string(),
        HubExecuteMsg::IbcTransfer {
            token_id: "juno>0".to_string(),
            recipient_chain: "stargaze".to_string(),
        },
    )
    .unwrap();
    assert_eq!(actions.len(), 2);
    assert!(
        matches!(&actions[0], HubAction::TransferNft { token_id, recipient }
            if token_id == "juno>0" && recipient == "juno1hub")
    );
    match &actions[1] {
        HubAction::SendIbcMint { host_chain, msg, callback } => {
            assert_eq!(host_chain, "stargaze");
            let HubIbcMsg::IbcMint { local_account_id, token_id, token_uri, extension } = msg;
            assert_eq!(local_account_id.seq, 9);
            assert!(!local_account_id.is_remote());
            assert_eq!(token_id, "juno>0");
            assert_eq!(token_uri.as_deref(), Some("https://link.org"));
            // The opaque metadata travels unchanged.
            assert_eq!(
                extension.as_ref().and_then(|m| m.name.as_deref()),
                Some("adventurer")
            );
            assert!(matches!(
                callback,
                Some(HubIbcCallbackMsg::BurnToken { token_id }) if token_id == "juno>0"
            ));
        }
        _ => panic!("expected the outbound relocation message"),
    }
    // The relocation path never allocates.
    assert_eq!(config.next_token_id, 0);
}

#[test]
fn hub_queries_answer_config_and_preview() {
    let config = hub_config();
    let nft = "juno1nft".to_string();
    let chain = "juno".to_string();
    match cosmos_adventures_hub::query::query_handler(&config, &nft, &chain, HubQueryMsg::Config {})
    {
        HubQueryAnswer::Config(c) => {
            assert_eq!(c.nft, "juno1nft");
            assert_eq!(c.next_token_id, 0);
        }
        _ => panic!("expected the config answer"),
    }
    match cosmos_adventures_hub::query::query_handler(
        &config,
        &nft,
        &chain,
        HubQueryMsg::NextTokenId {},
    ) {
        HubQueryAnswer::NextTokenId(n) => assert_eq!(n.next_token_id, "juno>0"),
        _ => panic!("expected the preview answer"),
    }
}

#[test]
fn minter_query_answers_config() {
    let config = cosmos_adventures_hub::minter::state::Config {
        admin_account: AccountId::local(0),
        metadata_base: Metadata::empty(),
        token_uri_base: "https://link.org".to_string(),
        mint_limit: 1,
        mint_cost: Coin { denom: "uluna".to_string(), amount: 453687 },
    };
    let MinterQueryAnswer::Config(c) =
        cosmos_adventures_hub::minter::query::query_handler(&config, MinterQueryMsg::Config {});
    assert_eq!(c.mint_limit, 1);
    assert_eq!(c.token_uri_base, "https://link.org");
    assert_eq!(c.mint_cost.denom, "uluna");
    assert_eq!(c.mint_cost.amount, 453687);
}

#[test]
fn minter_execute_dispatches_origination() {
    let config = cosmos_adventures_hub::minter::state::Config {
        admin_account: AccountId::local(0),
        metadata_base: Metadata::empty(),
        token_uri_base: "https://link.org".to_string(),
        mint_limit: 2,
        mint_cost: Coin { denom: "uluna".to_string(), amount: 453687 },
    };
    let mut quota = Vec::new();
    let account = AccountId::local(3);
    let counterparties = vec!["phoenix".to_string(), "stargaze".to_string()];
    let actions = cosmos_adventures_hub::minter::execute::execute_handler(
        &config,
        &mut quota,
        &account,
        &"juno1admin".to_string(),
        &counterparties,
        MinterExecuteMsg::Mint { send_back: true },
    )
    .unwrap();
    assert_eq!(actions.len(), 2);
    // The destination is picked by sequence modulo the number of known
    // counterparties: 3 mod 2 selects the second.
    match &actions[0] {
        cosmos_adventures_hub::minter::msg::MinterAction::SendIbcMint { host_chain, .. } => {
            assert_eq!(host_chain, "stargaze");
        }
        _ => panic!("expected the outbound origination message"),
    }
}

#[test]
fn internal_requests_administer_the_module() {
    let mut w = Vec::new();
    let registry = vec![RegisteredAccount {
        account_id: AccountId { seq: 2, trace: vec!["juno".to_string()] },
        proxy: "stars1proxy".to_string(),
    }];
    let viewing = "stargaze".to_string();
    let module_id = "cosmos-adventures:hub".to_string();

    let account = AccountId::local(6);
    let r = internal_handler(
        &mut w,
        &viewing,
        &registry,
        &module_id,
        InternalExecuteMsg::Whitelist { account },
    );
    assert!(matches!(r, Ok(InternalOutcome::Whitelist)));
    assert!(cosmos_adventures_hub::internal::is_whitelisted(&w, &AccountId::local(6)));

    let r = internal_handler(
        &mut w,
        &viewing,
        &registry,
        &module_id,
        InternalExecuteMsg::Connect { chain: "osmosis".to_string() },
    );
    match r {
        Ok(InternalOutcome::Connect { host_chain, module_id }) => {
            assert_eq!(host_chain, "osmosis");
            assert_eq!(module_id, "cosmos-adventures:hub");
        }
        _ => panic!("expected the install request"),
    }

    // The module-internal mint resolves through the registry like the
    // cross-ledger one: account 2 arriving from juno is the registered
    // remote identity.
    let r = internal_handler(
        &mut w,
        &viewing,
        &registry,
        &module_id,
        InternalExecuteMsg::IbcMint {
            token_id: "juno>4".to_string(),
            token_uri: None,
            extension: None,
            local_chain: "juno".to_string(),
            local_account_id: AccountId::local(2),
        },
    );
    match r {
        Ok(InternalOutcome::Mint(actions)) => {
            assert_eq!(actions.len(), 1);
            assert!(matches!(&actions[0], HubAction::MintNft { token_id, owner, .. }
                if token_id == "juno>4" && owner == "stars1proxy"));
        }
        _ => panic!("expected the mint actions"),
    }
}

#[test]
fn errors_render_their_messages() {
    assert_eq!(AppError::Unauthorized.message(), "Unauthorized");
    assert_eq!(AppError::WrongNamespace.message(), "Unauthorized, Wrong Namespace");
    assert_eq!(
        AppError::Transfer("channel closed".to_string()).message(),
        "Ibc Transfer failed channel closed"
    );
    assert_eq!(AppError::Std("oops".to_string()).message(), "oops");
    assert_eq!(
        MinterError::TooMuchMinted(12).message(),
        "You have minted too much tokens already. Limit: 12"
    );
    assert_eq!(MinterError::Unauthorized.message(), "Unauthorized");
}
