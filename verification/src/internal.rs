//! Module-internal administration: the whitelist of accounts, and the
//! request that installs the hub on a newly connected remote ledger.

use vstd::prelude::*;

use crate::error::AppError;
use crate::identity::account_id_eq;
use crate::identity::clone_account_id;
use crate::identity::AccountId;
use crate::identity::AccountIdV;
use crate::identity::RegisteredAccount;
use crate::metadata::Metadata;
use crate::msg::HubAction;

verus! {

/// Module-internal requests.
pub enum InternalExecuteMsg {
    /// Mint an inbound asset (the module-internal twin of the
    /// cross-ledger mint payload).
    IbcMint {
        token_id: String,
        token_uri: Option<String>,
        extension: Option<Metadata>,
        local_chain: String,
        local_account_id: AccountId,
    },
    /// Mark an account as whitelisted.
    Whitelist { account: AccountId },
    /// Remove an account from the whitelist.
    RemoveWhitelist { account: AccountId },
    /// Connect a remote ledger by installing this module there.
    Connect { chain: String },
}

/// What a module-internal request produces.
pub enum InternalOutcome {
    /// The actions of an inbound mint.
    Mint(Vec<HubAction>),
    /// The whitelist was updated; no ledger action is needed.
    Whitelist,
    /// Ask the account's remote side on `host_chain` to install the
    /// module `module_id`.
    Connect { host_chain: String, module_id: String },
}

/// One whitelist record.
pub struct WhitelistEntry {
    pub account_id: AccountId,
    pub listed: bool,
}

/// Whether `id` is whitelisted: its most recent record, or false if none
/// exists.
pub open spec fn spec_whitelisted(w: Seq<WhitelistEntry>, id: AccountIdV) -> bool
    decreases w.len(),
{
    if w.len() == 0 {
        false
    } else if w[0].account_id@ == id {
        w[0].listed
    } else {
        spec_whitelisted(w.skip(1), id)
    }
}

/// Records a whitelist decision for one account, leaving every other
/// account's status unchanged.
pub fn set_whitelisted(w: &mut Vec<WhitelistEntry>, account: &AccountId, listed: bool)
    ensures
        spec_whitelisted(final(w)@, account@) == listed,
        forall|id2: AccountIdV|
            id2 != account@ ==> spec_whitelisted(final(w)@, id2) == spec_whitelisted(
                old(w)@,
                id2,
            ),
{
    let entry = WhitelistEntry { account_id: clone_account_id(account), listed };
    let ghost w0 = w@;
    let ghost e = entry;
    w.insert(0, entry);
    proof {
        assert(w@[0] == e);
        assert(w@.skip(1) =~= w0);
    }
}

/// Reads an account's whitelist status.
pub fn is_whitelisted(w: &Vec<WhitelistEntry>, account: &AccountId) -> (r: bool)
    ensures
        r == spec_whitelisted(w@, account@),
{
    let mut i: usize = 0;
    proof {
        assert(w@.skip(0) =~= w@);
    }
    while i < w.len()
        invariant
            0 <= i <= w@.len(),
            spec_whitelisted(w@, account@) == spec_whitelisted(w@.skip(i as int), account@),
        decreases w@.len() - i,
    {
        proof {
            assert(w@.skip(i as int)[0] == w@[i as int]);
            assert(w@.skip(i as int).skip(1) =~= w@.skip(i as int + 1));
        }
        if account_id_eq(&w[i].account_id, account) {
            return w[i].listed;
        }
        i = i + 1;
    }
    false
}

/// Marks an account as whitelisted.
pub fn whitelist(w: &mut Vec<WhitelistEntry>, account: &AccountId)
    ensures
        spec_whitelisted(final(w)@, account@) == true,
        forall|id2: AccountIdV|
            id2 != account@ ==> spec_whitelisted(final(w)@, id2) == spec_whitelisted(
                old(w)@,
                id2,
            ),
{
    set_whitelisted(w, account, true);
}

/// Removes an account from the whitelist.
pub fn remove_whitelist(w: &mut Vec<WhitelistEntry>, account: &AccountId)
    ensures
        spec_whitelisted(final(w)@, account@) == false,
        forall|id2: AccountIdV|
            id2 != account@ ==> spec_whitelisted(final(w)@, id2) == spec_whitelisted(
                old(w)@,
                id2,
            ),
{
    set_whitelisted(w, account, false);
}

/// Builds the request that installs this module on the account's remote
/// side on `chain`: connecting a remote ledger is exactly one such
/// installation.
pub fn connect_remote_chain(chain: String, own_module_id: &String) -> (r: InternalOutcome)
    ensures
        (r matches InternalOutcome::Connect { host_chain, module_id } && host_chain@ == chain@
            && module_id@ == own_module_id@),
{
    InternalOutcome::Connect { host_chain: chain, module_id: own_module_id.clone() }
}

/// Dispatches one module-internal request.
pub fn internal_handler(
    w: &mut Vec<WhitelistEntry>,
    viewing_chain: &String,
    registry: &Vec<RegisteredAccount>,
    own_module_id: &String,
    msg: InternalExecuteMsg,
) -> (r: Result<InternalOutcome, AppError>)
    ensures
        match msg {
            InternalExecuteMsg::IbcMint {
                token_id,
                token_uri,
                extension,
                local_chain,
                local_account_id,
            } => *final(w) == *old(w) && match r {
                Ok(outcome) => (outcome matches InternalOutcome::Mint(actions)
                    && crate::module_ibc::spec_internal_mint_post(
                    local_chain@,
                    viewing_chain@,
                    registry@,
                    local_account_id,
                    token_id@,
                    crate::metadata::spec_opt_str(token_uri),
                    crate::metadata::spec_opt_metadata(extension),
                    Ok(actions),
                )),
                Err(e) => crate::module_ibc::spec_internal_mint_post(
                    local_chain@,
                    viewing_chain@,
                    registry@,
                    local_account_id,
                    token_id@,
                    crate::metadata::spec_opt_str(token_uri),
                    crate::metadata::spec_opt_metadata(extension),
                    Err(e),
                ),
            },
            InternalExecuteMsg::Whitelist { account } => r matches Ok(o) && o
                is Whitelist && spec_whitelisted(final(w)@, account@) == true && (forall|
                id2: AccountIdV,
            |
                id2 != account@ ==> spec_whitelisted(final(w)@, id2) == spec_whitelisted(
                    old(w)@,
                    id2,
                )),
            InternalExecuteMsg::RemoveWhitelist { account } => r matches Ok(o) && o
                is Whitelist && spec_whitelisted(final(w)@, account@) == false && (forall|
                id2: AccountIdV,
            |
                id2 != account@ ==> spec_whitelisted(final(w)@, id2) == spec_whitelisted(
                    old(w)@,
                    id2,
                )),
            InternalExecuteMsg::Connect { chain } => *final(w) == *old(w) && (r matches Ok(o) && (o
                matches InternalOutcome::Connect { host_chain, module_id } && host_chain@ == chain@
                && module_id@ == own_module_id@)),
        },
{
    match msg {
        InternalExecuteMsg::IbcMint {
            token_id,
            token_uri,
            extension,
            local_chain,
            local_account_id,
        } => {
            match crate::module_ibc::internal_ibc_mint_token(
                viewing_chain,
                registry,
                &local_chain,
                local_account_id,
                token_id,
                token_uri,
                extension,
            ) {
                Ok(actions) => Ok(InternalOutcome::Mint(actions)),
                Err(e) => Err(e),
            }
        },
        InternalExecuteMsg::Whitelist { account } => {
            whitelist(w, &account);
            Ok(InternalOutcome::Whitelist)
        },
        InternalExecuteMsg::RemoveWhitelist { account } => {
            remove_whitelist(w, &account);
            Ok(InternalOutcome::Whitelist)
        },
        InternalExecuteMsg::Connect { chain } => Ok(connect_remote_chain(chain, own_module_id)),
    }
}

} // verus!
