//! The front door's client entry: quota check, payment, deterministic
//! destination choice, and the outbound origination request.

use vstd::prelude::*;

use crate::error::MinterError;
use crate::identity::clone_account_id;
use crate::identity::AccountId;
use crate::minter::msg::MinterAction;
use crate::minter::msg::MinterExecuteMsg;
use crate::minter::msg::MinterIbcMsg;
use crate::minter::state::spec_minted_amount;
use crate::minter::state::Config;
use crate::minter::state::MintedEntry;

verus! {

/// Builds the payment of the fixed mint price to the beneficiary
/// account's custodial address.
pub fn payment(config: &Config, admin_proxy: &String) -> (r: MinterAction)
    ensures
        (r matches MinterAction::Pay { amount, denom, recipient } && amount
            == config.mint_cost.amount && denom@ == config.mint_cost.denom@ && recipient@
            == admin_proxy@),
{
    MinterAction::Pay {
        amount: config.mint_cost.amount,
        denom: config.mint_cost.denom.clone(),
        recipient: admin_proxy.clone(),
    }
}

/// Checks the requesting account's quota and, while still under the
/// configured limit, advances it; the counter is charged on request, not
/// on confirmed completion, and is never rolled back.
pub fn assert_mint_limit(
    config: &Config,
    quota: &mut Vec<MintedEntry>,
    account_id: &AccountId,
) -> (r: Result<(), MinterError>)
    ensures
        ({
            let before = spec_minted_amount(old(quota)@, account_id@);
            match r {
                Ok(_) => {
                    &&& before < config.mint_limit
                    &&& spec_minted_amount(final(quota)@, account_id@) == before + 1
                    &&& forall|id2: crate::identity::AccountIdV|
                        id2 != account_id@ ==> spec_minted_amount(final(quota)@, id2)
                            == spec_minted_amount(old(quota)@, id2)
                },
                Err(e) => {
                    &&& final(quota)@ == old(quota)@
                    &&& before >= config.mint_limit
                    &&& (e matches MinterError::TooMuchMinted(l) && l == config.mint_limit)
                },
            }
        }),
{
    let current = crate::minter::state::minted_amount(quota, account_id);
    if current >= config.mint_limit {
        return Err(MinterError::TooMuchMinted(config.mint_limit));
    }
    crate::minter::state::increment_minted(quota, account_id);
    Ok(())
}

/// What an origination returns: under the quota limit, the counter
/// advances and exactly the outbound mint request (addressed to the
/// counterparty ledger chosen by `seq mod number-of-counterparties`,
/// carrying the requester's identity and the send-back flag) and the
/// fixed payment are emitted; at or over the limit, `TooMuchMinted` with
/// the configured limit, and nothing changes.
pub open spec fn spec_originate_post(
    config: Config,
    old_quota: Seq<MintedEntry>,
    new_quota: Seq<MintedEntry>,
    account: AccountId,
    admin_proxy: Seq<char>,
    counterparties: Seq<String>,
    send_back: bool,
    r: Result<Vec<MinterAction>, MinterError>,
) -> bool {
    let before = spec_minted_amount(old_quota, account@);
    match r {
        Ok(actions) => {
            &&& before < config.mint_limit
            &&& spec_minted_amount(new_quota, account@) == before + 1
            &&& forall|id2: crate::identity::AccountIdV|
                id2 != account@ ==> spec_minted_amount(new_quota, id2) == spec_minted_amount(
                    old_quota,
                    id2,
                )
            &&& actions@.len() == 2
            &&& (actions@[0] matches MinterAction::SendIbcMint { host_chain, msg } && {
                &&& host_chain@ == counterparties[account.seq as int % counterparties.len() as int]@
                &&& (msg matches MinterIbcMsg::IbcMint { local_account_id, send_back: sb }
                    && local_account_id@ == account@ && sb == send_back)
            })
            &&& (actions@[1] matches MinterAction::Pay { amount, denom, recipient } && amount
                == config.mint_cost.amount && denom@ == config.mint_cost.denom@ && recipient@
                == admin_proxy)
        },
        Err(e) => {
            &&& new_quota == old_quota
            &&& before >= config.mint_limit
            &&& (e matches MinterError::TooMuchMinted(l) && l == config.mint_limit)
        },
    }
}

/// Originates a fresh asset on a remote ledger: rejects the request once
/// the account's quota is exhausted, charges the fixed price, picks the
/// destination deterministically from the known counterparties by the
/// account's home sequence number, and emits the cross-ledger mint
/// request.
pub fn originate(
    config: &Config,
    quota: &mut Vec<MintedEntry>,
    account: &AccountId,
    admin_proxy: &String,
    counterparties: &Vec<String>,
    send_back: bool,
) -> (r: Result<Vec<MinterAction>, MinterError>)
    requires
        counterparties@.len() > 0,
    ensures
        spec_originate_post(
            *config,
            old(quota)@,
            final(quota)@,
            *account,
            admin_proxy@,
            counterparties@,
            send_back,
            r,
        ),
{
    if let Err(e) = assert_mint_limit(config, quota, account) {
        return Err(e);
    }
    let payment_action = payment(config, admin_proxy);
    let index = (account.seq as usize) % counterparties.len();
    let recipient_chain = counterparties[index].clone();
    let mut actions: Vec<MinterAction> = Vec::new();
    actions.push(
        MinterAction::SendIbcMint {
            host_chain: recipient_chain,
            msg: MinterIbcMsg::IbcMint {
                local_account_id: clone_account_id(account),
                send_back,
            },
        },
    );
    actions.push(payment_action);
    Ok(actions)
}

/// Dispatches one front-door request.
pub fn execute_handler(
    config: &Config,
    quota: &mut Vec<MintedEntry>,
    account: &AccountId,
    admin_proxy: &String,
    counterparties: &Vec<String>,
    msg: MinterExecuteMsg,
) -> (r: Result<Vec<MinterAction>, MinterError>)
    requires
        counterparties@.len() > 0,
    ensures
        match msg {
            MinterExecuteMsg::Mint { send_back } => spec_originate_post(
                *config,
                old(quota)@,
                final(quota)@,
                *account,
                admin_proxy@,
                counterparties@,
                send_back,
                r,
            ),
        },
{
    match msg {
        MinterExecuteMsg::Mint { send_back } => originate(
            config,
            quota,
            account,
            admin_proxy,
            counterparties,
            send_back,
        ),
    }
}

} // verus!
