//! End-to-end protocol scenarios over the two-ledger model: remote
//! origination, origination with send-back, relocation, the identity
//! round trip, and the failure path that leaves an asset escrowed.

use cosmos_adventures_hub::error::AppError;
use cosmos_adventures_hub::error::MinterError;
use cosmos_adventures_hub::identity::AccountId;
use cosmos_adventures_hub::identity::RegisteredAccount;
use cosmos_adventures_hub::metadata::Metadata;
use cosmos_adventures_hub::minter::msg::Coin;
use cosmos_adventures_hub::protocol::mint_remote;
use cosmos_adventures_hub::protocol::relocate_token;
use cosmos_adventures_hub::protocol::Ledger;
use cosmos_adventures_hub::state::ModuleEntry;
use cosmos_adventures_hub::state::Token;

const MINT_COST: u128 = 453687;
const MINT_DENOM: &str = "uluna";
const MINTER_ID: &str = "cosmos-adventures:cross-chain-mint";
const NAMESPACE: &str = "cosmos-adventures";

fn ledger(chain_id: &str, prefix: &str) -> Ledger {
    let chain_id_string = chain_id.to_string();
    let chain_name =
        cosmos_adventures_hub::helpers::chain_name_from_chain_id(&chain_id_string);
    Ledger {
        chain_id: chain_id_string,
        chain_name,
        trusted_namespace: NAMESPACE.to_string(),
        hub_address: format!("{prefix}1hub"),
        minter_address: format!("{prefix}1minter"),
        minter_module_id: MINTER_ID.to_string(),
        nft: format!("{prefix}1nft"),
        hub_config: cosmos_adventures_hub::state::Config {
            next_token_id: 0,
            lost_token_uri: "https://link.org".to_string(),
            lost_metadata: Metadata::empty(),
        },
        tokens: Vec::new(),
        minter_config: cosmos_adventures_hub::minter::state::Config {
            admin_account: AccountId::local(0),
            metadata_base: Metadata::empty(),
            token_uri_base: "https://link.org".to_string(),
            mint_limit: 1,
            mint_cost: Coin { denom: MINT_DENOM.to_string(), amount: MINT_COST },
        },
        minted: Vec::new(),
        registry: Vec::new(),
        modules: vec![ModuleEntry {
            module_id: MINTER_ID.to_string(),
            address: format!("{prefix}1minter"),
        }],
        counterparties: Vec::new(),
        payments: Vec::new(),
    }
}

fn register(l: &mut Ledger, seq: u32, trace: &[&str], proxy: &str) {
    l.registry.push(RegisteredAccount {
        account_id: AccountId { seq, trace: trace.iter().map(|s| s.to_string()).collect() },
        proxy: proxy.to_string(),
    });
}

#[test]
fn successful_mint() {
    let mut juno = ledger("juno-1", "juno");
    let mut phoenix = ledger("phoenix-1", "terra");
    juno.counterparties = vec!["phoenix".to_string()];
    // The admin account that collects the mint price, and the requesting
    // account, both known on juno; the requester's hopped identity is
    // registered on phoenix.
    register(&mut juno, 0, &[], "juno1admin");
    register(&mut juno, 4, &[], "juno1proxy4");
    register(&mut phoenix, 4, &["juno"], "terra1proxy4remote");

    let account = AccountId::local(4);
    mint_remote(&mut juno, &mut phoenix, &account, false).unwrap();

    // The fresh asset lives on phoenix under the first id phoenix ever
    // allocates, owned by the requester's resolved remote identity.
    assert_eq!(phoenix.tokens.len(), 1);
    assert_eq!(phoenix.tokens[0].token_id, "phoenix>0");
    assert_eq!(phoenix.tokens[0].owner, "terra1proxy4remote");
    assert!(juno.tokens.is_empty());
    // The price was paid once, to the admin account's address.
    assert_eq!(juno.payments.len(), 1);
    assert_eq!(juno.payments[0].amount, MINT_COST);
    assert_eq!(juno.payments[0].denom, MINT_DENOM);
    assert_eq!(juno.payments[0].recipient, "juno1admin");
}

#[test]
fn successful_mint_send_back() {
    let mut juno = ledger("juno-1", "juno");
    let mut phoenix = ledger("phoenix-1", "terra");
    juno.counterparties = vec!["phoenix".to_string()];
    register(&mut juno, 0, &[], "juno1admin");
    register(&mut juno, 4, &[], "juno1proxy4");
    register(&mut phoenix, 4, &["juno"], "terra1proxy4remote");

    let account = AccountId::local(4);
    mint_remote(&mut juno, &mut phoenix, &account, true).unwrap();

    // The fresh asset was minted on phoenix, then immediately relocated
    // back: phoenix no longer lists it, juno does, and its owner is the
    // requester's own local address.
    assert!(phoenix.tokens.is_empty());
    assert_eq!(juno.tokens.len(), 1);
    assert_eq!(juno.tokens[0].token_id, "phoenix>0");
    assert_eq!(juno.tokens[0].owner, "juno1proxy4");
    // The id is spent on phoenix forever.
    assert_eq!(phoenix.hub_config.next_token_id, 1);
}

#[test]
fn relocation_moves_custody_exactly_once() {
    let mut juno = ledger("juno-1", "juno");
    let mut stargaze = ledger("stargaze-1", "stars");
    register(&mut juno, 9, &[], "juno1owner");
    register(&mut stargaze, 9, &["juno"], "stars1ownerremote");
    juno.hub_config.next_token_id = 1;
    juno.tokens.push(Token {
        token_id: "juno>0".to_string(),
        owner: "juno1owner".to_string(),
        token_uri: Some("https://link.org".to_string()),
        extension: None,
    });

    let account = AccountId::local(9);
    relocate_token(
        &mut juno,
        &mut stargaze,
        &account,
        "juno>0".to_string(),
        "stargaze".to_string(),
    )
    .unwrap();

    // Custody is unique: juno no longer lists the asset, stargaze does —
    // never both, never neither — under the preserved id, and the uri
    // travelled along.
    assert!(juno.tokens.is_empty());
    assert_eq!(stargaze.tokens.len(), 1);
    assert_eq!(stargaze.tokens[0].token_id, "juno>0");
    assert_eq!(stargaze.tokens[0].owner, "stars1ownerremote");
    assert_eq!(stargaze.tokens[0].token_uri.as_deref(), Some("https://link.org"));
}

#[test]
fn identity_round_trip() {
    // Relocating juno>0 from juno to stargaze and back resolves to the
    // asset's original owner on juno: the trace push and pop cancel.
    let mut juno = ledger("juno-1", "juno");
    let mut stargaze = ledger("stargaze-1", "stars");
    register(&mut juno, 9, &[], "juno1owner");
    register(&mut stargaze, 9, &["juno"], "stars1ownerremote");
    juno.hub_config.next_token_id = 1;
    juno.tokens.push(Token {
        token_id: "juno>0".to_string(),
        owner: "juno1owner".to_string(),
        token_uri: None,
        extension: None,
    });

    let account = AccountId::local(9);
    relocate_token(
        &mut juno,
        &mut stargaze,
        &account,
        "juno>0".to_string(),
        "stargaze".to_string(),
    )
    .unwrap();

    // The way back is requested by the account as it exists on stargaze.
    let remote_account = AccountId { seq: 9, trace: vec!["juno".to_string()] };
    relocate_token(
        &mut stargaze,
        &mut juno,
        &remote_account,
        "juno>0".to_string(),
        "juno".to_string(),
    )
    .unwrap();

    assert!(stargaze.tokens.is_empty());
    assert_eq!(juno.tokens.len(), 1);
    assert_eq!(juno.tokens[0].token_id, "juno>0");
    assert_eq!(juno.tokens[0].owner, "juno1owner");
}

#[test]
fn failed_relocation_leaves_the_asset_escrowed() {
    let mut juno = ledger("juno-1", "juno");
    let mut stargaze = ledger("stargaze-1", "stars");
    register(&mut juno, 9, &[], "juno1owner");
    // The requester's hopped identity is not registered on stargaze, so
    // delivery fails and the finalize callback reports the failure.
    juno.hub_config.next_token_id = 1;
    juno.tokens.push(Token {
        token_id: "juno>0".to_string(),
        owner: "juno1owner".to_string(),
        token_uri: None,
        extension: None,
    });

    let account = AccountId::local(9);
    let r = relocate_token(
        &mut juno,
        &mut stargaze,
        &account,
        "juno>0".to_string(),
        "stargaze".to_string(),
    );
    assert!(matches!(r, Err(AppError::Transfer(_))));
    // No compensating unlock: the asset still exists on juno, permanently
    // held by the module's escrow address, and never appeared on stargaze.
    assert_eq!(juno.tokens.len(), 1);
    assert_eq!(juno.tokens[0].owner, juno.hub_address);
    assert!(stargaze.tokens.is_empty());
}

#[test]
fn unauthorized_relocation_changes_nothing() {
    let mut juno = ledger("juno-1", "juno");
    let mut stargaze = ledger("stargaze-1", "stars");
    register(&mut juno, 9, &[], "juno1owner");
    register(&mut juno, 5, &[], "juno1other");
    juno.hub_config.next_token_id = 1;
    juno.tokens.push(Token {
        token_id: "juno>0".to_string(),
        owner: "juno1owner".to_string(),
        token_uri: None,
        extension: None,
    });

    // Account 5 does not own juno>0.
    let intruder = AccountId::local(5);
    let r = relocate_token(
        &mut juno,
        &mut stargaze,
        &intruder,
        "juno>0".to_string(),
        "stargaze".to_string(),
    );
    assert!(matches!(r, Err(AppError::Unauthorized)));
    assert_eq!(juno.tokens[0].owner, "juno1owner");
    assert!(stargaze.tokens.is_empty());
}

#[test]
fn second_origination_hits_the_quota() {
    let mut juno = ledger("juno-1", "juno");
    let mut phoenix = ledger("phoenix-1", "terra");
    juno.counterparties = vec!["phoenix".to_string()];
    register(&mut juno, 0, &[], "juno1admin");
    register(&mut juno, 4, &[], "juno1proxy4");
    register(&mut phoenix, 4, &["juno"], "terra1proxy4remote");

    let account = AccountId::local(4);
    mint_remote(&mut juno, &mut phoenix, &account, false).unwrap();
    let second = mint_remote(&mut juno, &mut phoenix, &account, false);
    assert!(matches!(second, Err(MinterError::TooMuchMinted(1))));
    // The limit held: only one asset was ever created, one price paid.
    assert_eq!(phoenix.tokens.len(), 1);
    assert_eq!(juno.payments.len(), 1);
}
