//! The hub's query surface: the configuration and a preview of the next
//! asset id.

use vstd::prelude::*;

use crate::helpers::next_token_id;
use crate::helpers::spec_token_id;
use crate::msg::ConfigResponse;
use crate::msg::HubQueryAnswer;
use crate::msg::HubQueryMsg;
use crate::msg::NextTokenIdResponse;
use crate::state::Config;

verus! {

/// Reports the managed token ledger's address and the next sequence
/// number to allocate.
pub fn query_config(config: &Config, nft: &String) -> (r: ConfigResponse)
    ensures
        r.nft@ == nft@,
        r.next_token_id == config.next_token_id,
{
    ConfigResponse { nft: nft.clone(), next_token_id: config.next_token_id }
}

/// Previews the id the next allocation will produce, without allocating
/// it.
pub fn query_next_token_id(config: &Config, chain_name: &String) -> (r: NextTokenIdResponse)
    ensures
        r.next_token_id@ == spec_token_id(chain_name@, config.next_token_id as nat),
{
    NextTokenIdResponse { next_token_id: next_token_id(config, chain_name) }
}

/// Answers one query.
pub fn query_handler(config: &Config, nft: &String, chain_name: &String, msg: HubQueryMsg) -> (r:
    HubQueryAnswer)
    ensures
        match msg {
            HubQueryMsg::Config {  } => (r matches HubQueryAnswer::Config(c) && c.nft@ == nft@
                && c.next_token_id == config.next_token_id),
            HubQueryMsg::NextTokenId {  } => (r matches HubQueryAnswer::NextTokenId(n)
                && n.next_token_id@ == spec_token_id(chain_name@, config.next_token_id as nat)),
        },
{
    match msg {
        HubQueryMsg::Config {  } => HubQueryAnswer::Config(query_config(config, nft)),
        HubQueryMsg::NextTokenId {  } => HubQueryAnswer::NextTokenId(
            query_next_token_id(config, chain_name),
        ),
    }
}

} // verus!
