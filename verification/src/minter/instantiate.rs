//! Front-door instantiation: the configuration is taken verbatim from
//! the instantiation message.

use vstd::prelude::*;

use crate::minter::msg::MinterInstantiateMsg;
use crate::minter::state::Config;

verus! {

/// Builds the front door's configuration from the instantiation message.
pub fn instantiate_handler(msg: MinterInstantiateMsg) -> (r: Config)
    ensures
        r.admin_account@ == msg.admin_account@,
        r.metadata_base@ == msg.metadata_base@,
        r.token_uri_base@ == msg.token_uri_base@,
        r.mint_limit == msg.mint_limit,
        r.mint_cost.denom@ == msg.mint_cost.denom@,
        r.mint_cost.amount == msg.mint_cost.amount,
{
    Config {
        admin_account: msg.admin_account,
        metadata_base: msg.metadata_base,
        token_uri_base: msg.token_uri_base,
        mint_limit: msg.mint_limit,
        mint_cost: msg.mint_cost,
    }
}

} // verus!
