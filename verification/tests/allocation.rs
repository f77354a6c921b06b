//! Identifier allocation and parsing behaviour on concrete values.

use cosmos_adventures_hub::helpers::chain_name_from_chain_id;
use cosmos_adventures_hub::helpers::next_token_id;
use cosmos_adventures_hub::helpers::next_token_id_mut;
use cosmos_adventures_hub::helpers::parse_u32;
use cosmos_adventures_hub::helpers::u64_to_decimal;
use cosmos_adventures_hub::metadata::Metadata;
use cosmos_adventures_hub::state::Config;

fn fresh_config() -> Config {
    Config {
        next_token_id: 0,
        lost_token_uri: "https://link.org".to_string(),
        lost_metadata: Metadata::empty(),
    }
}

#[test]
fn consecutive_allocations_are_sequential() {
    let mut config = fresh_config();
    let chain = "x".to_string();
    let mut ids = Vec::new();
    for _ in 0..4 {
        ids.push(next_token_id_mut(&mut config, &chain));
    }
    assert_eq!(ids, vec!["x>0", "x>1", "x>2", "x>3"]);
    assert_eq!(config.next_token_id, 4);
    // No reuse even after the earlier ids are gone from any store: the
    // counter only grows.
    let next = next_token_id_mut(&mut config, &chain);
    assert_eq!(next, "x>4");
}

#[test]
fn preview_does_not_allocate() {
    let mut config = fresh_config();
    let chain = "juno".to_string();
    assert_eq!(next_token_id(&config, &chain), "juno>0");
    assert_eq!(next_token_id(&config, &chain), "juno>0");
    assert_eq!(config.next_token_id, 0);
    let allocated = next_token_id_mut(&mut config, &chain);
    assert_eq!(allocated, "juno>0");
    assert_eq!(next_token_id(&config, &chain), "juno>1");
}

#[test]
fn decimal_rendering() {
    assert_eq!(u64_to_decimal(0), "0");
    assert_eq!(u64_to_decimal(7), "7");
    assert_eq!(u64_to_decimal(453687), "453687");
    assert_eq!(u64_to_decimal(u64::MAX), "18446744073709551615");
}

#[test]
fn chain_name_drops_revision() {
    assert_eq!(chain_name_from_chain_id(&"juno-1".to_string()), "juno");
    assert_eq!(chain_name_from_chain_id(&"phoenix-1".to_string()), "phoenix");
    assert_eq!(
        chain_name_from_chain_id(&"cosmos-testnet-53159".to_string()),
        "cosmos-testnet"
    );
}

#[test]
fn parse_u32_accepts_only_plain_decimals() {
    assert_eq!(parse_u32(&"0".to_string()), Some(0));
    assert_eq!(parse_u32(&"42".to_string()), Some(42));
    assert_eq!(parse_u32(&"4294967295".to_string()), Some(u32::MAX));
    assert_eq!(parse_u32(&"4294967296".to_string()), None);
    assert_eq!(parse_u32(&"".to_string()), None);
    assert_eq!(parse_u32(&"12a".to_string()), None);
    assert_eq!(parse_u32(&"-3".to_string()), None);
}
