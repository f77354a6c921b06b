//! The front door's query surface.

use vstd::prelude::*;

use crate::identity::clone_account_id;
use crate::metadata::clone_metadata;
use crate::minter::msg::clone_coin;
use crate::minter::msg::ConfigResponse;
use crate::minter::msg::MinterQueryAnswer;
use crate::minter::msg::MinterQueryMsg;
use crate::minter::state::Config;

verus! {

/// Reports the front door's configuration.
pub fn query_config(config: &Config) -> (r: ConfigResponse)
    ensures
        r.admin_account@ == config.admin_account@,
        r.metadata_base@ == config.metadata_base@,
        r.token_uri_base@ == config.token_uri_base@,
        r.mint_limit == config.mint_limit,
        r.mint_cost.denom@ == config.mint_cost.denom@,
        r.mint_cost.amount == config.mint_cost.amount,
{
    ConfigResponse {
        admin_account: clone_account_id(&config.admin_account),
        metadata_base: clone_metadata(&config.metadata_base),
        token_uri_base: config.token_uri_base.clone(),
        mint_limit: config.mint_limit,
        mint_cost: clone_coin(&config.mint_cost),
    }
}

/// Answers one query.
pub fn query_handler(config: &Config, msg: MinterQueryMsg) -> (r: MinterQueryAnswer)
    ensures
        match msg {
            MinterQueryMsg::Config {  } => (r matches MinterQueryAnswer::Config(c) && c.mint_limit
                == config.mint_limit && c.token_uri_base@ == config.token_uri_base@
                && c.admin_account@ == config.admin_account@ && c.metadata_base@
                == config.metadata_base@ && c.mint_cost.denom@ == config.mint_cost.denom@
                && c.mint_cost.amount == config.mint_cost.amount),
        },
{
    match msg {
        MinterQueryMsg::Config {  } => MinterQueryAnswer::Config(query_config(config)),
    }
}

} // verus!
