//! Hub instantiation: the initial per-ledger configuration. The host
//! side also instantiates the managed token-ledger contract; only the
//! configuration itself is protocol state.

use vstd::prelude::*;

use crate::msg::HubInstantiateMsg;
use crate::state::Config;

verus! {

/// Builds the initial configuration: the allocation counter starts at
/// zero, and the "lost" uri and metadata template are taken from the
/// instantiation message.
pub fn instantiate_handler(msg: HubInstantiateMsg) -> (r: Config)
    ensures
        r.next_token_id == 0,
        r.lost_token_uri@ == msg.lost_token_uri@,
        r.lost_metadata@ == msg.lost_metadata@,
{
    Config {
        next_token_id: 0,
        lost_token_uri: msg.lost_token_uri,
        lost_metadata: msg.lost_metadata,
    }
}

} // verus!
