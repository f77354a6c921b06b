//! The cross-ledger protocol layer: a model of one ledger (the hub's
//! state together with its collaborators — the token ledger, the account
//! registry, the module registry) and of the transport's packets, and the
//! drivers that carry one relocation through its lock, relay and finalize
//! steps.
//!
//! Each ledger executes one call at a time; the drivers below model the
//! transport delivering one message and one callback, at most once each.

use vstd::prelude::*;
use vstd::pervasive::unreached;

use crate::error::AppError;
use crate::helpers::spec_chain_name;
use crate::helpers::spec_has_dash;
use crate::helpers::spec_token_id;
use crate::identity::clone_account_id;
use crate::identity::registry_lookup;
use crate::identity::spec_registry_lookup;
use crate::identity::spec_resolve_trace;
use crate::identity::AccountId;
use crate::identity::RegisteredAccount;
use crate::metadata::clone_opt_metadata;
use crate::metadata::clone_opt_str;
use crate::metadata::spec_opt_metadata;
use crate::metadata::spec_opt_str;
use crate::minter::state::MintedEntry;
use crate::msg::CallbackResult;
use crate::msg::HubAction;
use crate::msg::HubIbcCallbackMsg;
use crate::msg::HubIbcMsg;
use crate::state::apply_burn;
use crate::state::apply_mint;
use crate::state::apply_transfer;
use crate::state::spec_find_token;
use crate::state::spec_has_token;
use crate::state::Config;
use crate::state::ModuleEntry;
use crate::state::Token;

verus! {

/// One payment the funds collaborator carried out.
pub struct Payment {
    pub amount: u128,
    pub denom: String,
    pub recipient: String,
}

/// One ledger of the system: the hub's and front door's persistent state
/// together with the collaborators the handlers consult — the token
/// ledger, the account registry and the module registry.
pub struct Ledger {
    pub chain_id: String,
    pub chain_name: String,
    pub trusted_namespace: String,
    pub hub_address: String,
    pub minter_address: String,
    pub minter_module_id: String,
    pub nft: String,
    pub hub_config: Config,
    pub tokens: Vec<Token>,
    pub minter_config: crate::minter::state::Config,
    pub minted: Vec<MintedEntry>,
    pub registry: Vec<RegisteredAccount>,
    pub modules: Vec<ModuleEntry>,
    pub counterparties: Vec<String>,
    pub payments: Vec<Payment>,
}

/// No asset the ledger holds carries an id this ledger's allocator could
/// still produce: allocated ids are never reused, not even after a burn.
pub open spec fn spec_fresh_ids(tokens: Seq<Token>, chain: Seq<char>, next: nat) -> bool {
    forall|i: int, n: nat|
        #![trigger tokens[i].token_id@, spec_token_id(chain, n)]
        0 <= i < tokens.len() && n >= next ==> tokens[i].token_id@ != spec_token_id(chain, n)
}

/// Every asset id occurs at most once on the ledger.
pub open spec fn spec_unique_ids(tokens: Seq<Token>) -> bool {
    forall|i: int, j: int|
        0 <= i < j < tokens.len() ==> tokens[i].token_id@ != tokens[j].token_id@
}

/// Well-formedness of one ledger: its name is derived from its chain id,
/// ledger names never contain the id separator `>`, ids are unique, and
/// no held id collides with a future allocation.
pub open spec fn spec_wf_ledger(l: Ledger) -> bool {
    &&& spec_has_dash(l.chain_id@)
    &&& l.chain_name@ == spec_chain_name(l.chain_id@)
    &&& forall|i: int| 0 <= i < l.chain_name@.len() ==> l.chain_name@[i] != '>'
    &&& spec_fresh_ids(l.tokens@, l.chain_name@, l.hub_config.next_token_id as nat)
    &&& spec_unique_ids(l.tokens@)
}

/// Whether two ledgers agree on the configuration and collaborators that
/// no protocol step changes: everything but the token store, the
/// allocation counter, the quota counters and the payment log.
pub open spec fn spec_same_core(a: Ledger, b: Ledger) -> bool {
    &&& a.chain_id == b.chain_id
    &&& a.chain_name == b.chain_name
    &&& a.trusted_namespace == b.trusted_namespace
    &&& a.hub_address == b.hub_address
    &&& a.minter_address == b.minter_address
    &&& a.minter_module_id == b.minter_module_id
    &&& a.nft == b.nft
    &&& a.minter_config == b.minter_config
    &&& a.registry == b.registry
    &&& a.modules == b.modules
    &&& a.counterparties == b.counterparties
    &&& a.hub_config.lost_token_uri == b.hub_config.lost_token_uri
    &&& a.hub_config.lost_metadata == b.hub_config.lost_metadata
}

/// Whether two ledgers agree on everything but the token store.
pub open spec fn spec_same_except_tokens(a: Ledger, b: Ledger) -> bool {
    &&& spec_same_core(a, b)
    &&& a.hub_config == b.hub_config
    &&& a.minted == b.minted
    &&& a.payments == b.payments
}

/// One in-flight cross-ledger message of the relocation protocol, as the
/// transport carries it: the authenticated sender facts, the payload, and
/// the callback directive to return to the origin.
pub struct HubPacket {
    pub source_namespace: String,
    pub src_chain: String,
    pub dst_chain: String,
    pub msg: HubIbcMsg,
    pub callback: Option<HubIbcCallbackMsg>,
}

/// The address the origin ledger resolves for the requesting account.
pub open spec fn spec_requester_addr(l: Ledger, requester: AccountId) -> Option<Seq<char>> {
    spec_registry_lookup(l.registry@, requester.seq as nat, crate::identity::spec_trace(requester))
}

/// What starting a relocation does: on success the asset is escrowed (its
/// custodian becomes the module's own address, everything else about the
/// store unchanged) and the returned packet carries the preserved id, the
/// stored uri and extension, the requester's identity and the burn
/// directive; on a failed ownership or existence check nothing changes.
pub open spec fn spec_start_relocation_post(
    pre: Ledger,
    post: Ledger,
    requester: AccountId,
    token_id: Seq<char>,
    recipient_chain: Seq<char>,
    r: Result<HubPacket, AppError>,
) -> bool {
    let addr = spec_requester_addr(pre, requester);
    let found = spec_find_token(pre.tokens@, token_id);
    &&& spec_same_except_tokens(pre, post)
    &&& match r {
        Ok(p) => {
            &&& addr is Some
            &&& found matches Some(t) && t.owner@ == addr->Some_0
            &&& post.tokens@.len() == pre.tokens@.len()
            &&& (spec_find_token(post.tokens@, token_id) matches Some(t2) && t2.owner@
                == pre.hub_address@ && t2.token_uri == found->Some_0.token_uri && t2.extension
                == found->Some_0.extension)
            &&& p.source_namespace@ == pre.trusted_namespace@
            &&& p.src_chain@ == pre.chain_name@
            &&& p.dst_chain@ == recipient_chain
            &&& forall|j: int|
                0 <= j < pre.tokens@.len() && pre.tokens@[j].token_id@ != token_id
                    ==> post.tokens@[j] == pre.tokens@[j]
            &&& forall|id2: Seq<char>|
                id2 != token_id ==> #[trigger] spec_find_token(post.tokens@, id2)
                    == spec_find_token(pre.tokens@, id2)
            &&& (p.msg matches HubIbcMsg::IbcMint {
                local_account_id,
                token_id: mid,
                token_uri,
                extension,
            } && {
                &&& local_account_id@ == requester@
                &&& mid@ == token_id
                &&& spec_opt_str(token_uri) == spec_opt_str(found->Some_0.token_uri)
                &&& spec_opt_metadata(extension) == spec_opt_metadata(found->Some_0.extension)
            })
            &&& (p.callback matches Some(cb) && (cb matches HubIbcCallbackMsg::BurnToken {
                token_id: bid,
            } && bid@ == token_id))
        },
        Err(e) => post.tokens@ == pre.tokens@ && match e {
            AppError::Std(_) => addr is None || found is None,
            AppError::Unauthorized => addr is Some && (found matches Some(t) && t.owner@
                != addr->Some_0),
            _ => false,
        },
    }
}

/// Starts one relocation on the origin ledger: resolves the requesting
/// account, verifies it owns the asset, locks the asset in escrow, and
/// returns the outbound packet the transport is to carry.
pub fn start_relocation(
    l: &mut Ledger,
    requester: &AccountId,
    token_id: String,
    recipient_chain: String,
) -> (r: Result<HubPacket, AppError>)
    requires
        spec_wf_ledger(*old(l)),
    ensures
        spec_wf_ledger(*final(l)),
        spec_start_relocation_post(
            *old(l),
            *final(l),
            *requester,
            token_id@,
            recipient_chain@,
            r,
        ),
{
    let requester_addr = match registry_lookup(&l.registry, requester) {
        None => {
            return Err(AppError::Std(String::from_str("account not registered")));
        },
        Some(a) => a,
    };
    let mut actions = match crate::execute::ibc_transfer(
        &l.tokens,
        &requester_addr,
        requester,
        &l.hub_address,
        token_id,
        recipient_chain,
    ) {
        Err(e) => {
            return Err(e);
        },
        Ok(actions) => actions,
    };
    let ghost t0 = l.tokens@;
    let a0 = actions.remove(0);
    let a1 = actions.remove(0);
    match a0 {
        HubAction::TransferNft { token_id: tid, recipient } => {
            match apply_transfer(&mut l.tokens, &tid, &recipient) {
                Ok(_) => {},
                Err(_) => {
                    return unreached();
                },
            }
        },
        _ => {
            return unreached();
        },
    }
    proof {
        let i = choose|i: int|
            #![trigger t0[i]]
            {
                &&& 0 <= i < t0.len()
                &&& t0[i].token_id@ == a0->TransferNft_token_id@
                &&& l.tokens@.len() == t0.len()
                &&& l.tokens@[i].token_id@ == t0[i].token_id@
                &&& l.tokens@[i].owner@ == a0->TransferNft_recipient@
                &&& l.tokens@[i].token_uri == t0[i].token_uri
                &&& l.tokens@[i].extension == t0[i].extension
                &&& spec_find_token(l.tokens@, a0->TransferNft_token_id@) == Some(l.tokens@[i])
                &&& spec_find_token(t0, a0->TransferNft_token_id@) == Some(t0[i])
                &&& forall|j: int| 0 <= j < t0.len() && j != i ==> l.tokens@[j] == t0[j]
            };
        assert(forall|j: int|
            0 <= j < t0.len() ==> l.tokens@[j].token_id@ == t0[j].token_id@);
        assert(l.tokens@ =~= t0.update(i, l.tokens@[i]));
        assert forall|id2: Seq<char>| id2 != a0->TransferNft_token_id@ implies spec_find_token(
            l.tokens@,
            id2,
        ) == spec_find_token(t0, id2) by {
            crate::state::lemma_find_token_update_same_id(t0, i, l.tokens@[i], id2);
        }
    }
    match a1 {
        HubAction::SendIbcMint { host_chain, msg, callback } => Ok(
            HubPacket {
                source_namespace: l.trusted_namespace.clone(),
                src_chain: l.chain_name.clone(),
                dst_chain: host_chain,
                msg,
                callback,
            },
        ),
        _ => unreached(),
    }
}

/// What delivering the relocation packet to the destination ledger does:
/// the message is admitted exactly when the sending module's declared
/// namespace is the trusted one; the recipient is the registry's
/// resolution of the translated identity; and the preserved id is minted
/// exactly when it does not exist there yet. The returned value is the
/// remote execution result the transport will report back to the origin.
pub open spec fn spec_deliver_relocation_post(
    pre: Ledger,
    post: Ledger,
    p: HubPacket,
    ack: Result<(), String>,
) -> bool {
    &&& spec_same_except_tokens(pre, post)
    &&& (p.msg matches HubIbcMsg::IbcMint { local_account_id, token_id, token_uri, extension }
        && {
        let target_trace = spec_resolve_trace(
            crate::identity::spec_trace(local_account_id),
            p.src_chain@,
            pre.chain_name@,
        );
        let resolved = spec_registry_lookup(
            pre.registry@,
            local_account_id.seq as nat,
            target_trace,
        );
        match ack {
            Ok(_) => {
                &&& p.source_namespace@ == pre.trusted_namespace@
                &&& resolved is Some
                &&& !spec_has_token(pre.tokens@, token_id@)
                &&& post.tokens@.len() == pre.tokens@.len() + 1
                &&& forall|j: int| 0 <= j < pre.tokens@.len() ==> post.tokens@[j] == pre.tokens@[j]
                &&& post.tokens@.last().token_id@ == token_id@
                &&& post.tokens@.last().owner@ == resolved->Some_0
                &&& spec_opt_str(post.tokens@.last().token_uri) == spec_opt_str(token_uri)
                &&& spec_opt_metadata(post.tokens@.last().extension) == spec_opt_metadata(
                    extension,
                )
                &&& spec_find_token(post.tokens@, token_id@) == Some(post.tokens@.last())
                &&& forall|id2: Seq<char>|
                    id2 != token_id@ ==> #[trigger] spec_find_token(post.tokens@, id2)
                        == spec_find_token(pre.tokens@, id2)
            },
            Err(_) => {
                &&& post.tokens@ == pre.tokens@
                &&& (p.source_namespace@ != pre.trusted_namespace@ || resolved is None
                    || spec_has_token(pre.tokens@, token_id@))
            },
        }
    })
}

/// Delivers one relocation packet to the destination ledger: the remote
/// mint handler runs under the admission gate, and its mint action is
/// applied to the token ledger. Returns the execution result that the
/// transport reports back to the origin ledger's callback.
pub fn deliver_relocation(dst: &mut Ledger, p: &HubPacket) -> (ack: Result<(), String>)
    requires
        spec_wf_ledger(*old(dst)),
        (p.msg matches HubIbcMsg::IbcMint { token_id, .. } ==> forall|n: nat|
            n >= old(dst).hub_config.next_token_id ==> token_id@ != spec_token_id(
                old(dst).chain_name@,
                n,
            )),
    ensures
        spec_wf_ledger(*final(dst)),
        spec_deliver_relocation_post(*old(dst), *final(dst), *p, ack),
{
    let msg = match &p.msg {
        HubIbcMsg::IbcMint { local_account_id, token_id, token_uri, extension } => {
            HubIbcMsg::IbcMint {
                local_account_id: clone_account_id(local_account_id),
                token_id: token_id.clone(),
                token_uri: clone_opt_str(token_uri),
                extension: clone_opt_metadata(extension),
            }
        },
    };
    let mut actions = match crate::module_ibc::receive_module_ibc(
        &dst.chain_name,
        &dst.registry,
        &dst.trusted_namespace,
        &p.source_namespace,
        &p.src_chain,
        msg,
    ) {
        Err(e) => {
            return Err(e.message());
        },
        Ok(actions) => actions,
    };
    let a0 = actions.remove(0);
    match a0 {
        HubAction::MintNft { token_id, owner, token_uri, extension } => {
            let ghost t0 = dst.tokens@;
            match apply_mint(&mut dst.tokens, token_id, owner, token_uri, extension) {
                Ok(_) => {
                    proof {
                        crate::state::lemma_find_token_none_entries(t0, a0->MintNft_token_id@);
                        assert(dst.tokens@ =~= t0.push(dst.tokens@.last()));
                        assert forall|id2: Seq<char>| id2 != a0->MintNft_token_id@
                            implies spec_find_token(dst.tokens@, id2) == spec_find_token(
                            t0,
                            id2,
                        ) by {
                            crate::state::lemma_find_token_push(t0, dst.tokens@.last(), id2);
                        }
                    }
                    Ok(())
                },
                Err(e) => Err(e.message()),
            }
        },
        _ => unreached(),
    }
}

/// What finalizing a relocation does: the escrowed asset is burned
/// exactly when the transport reports success and returns the burn
/// directive for an asset the ledger still holds; on any failure the
/// asset stays exactly as it was — escrowed, with no compensating unlock.
pub open spec fn spec_finalize_relocation_post(
    pre: Ledger,
    post: Ledger,
    p: HubPacket,
    remote_result: Result<(), String>,
    r: Result<(), AppError>,
) -> bool {
    &&& spec_same_except_tokens(pre, post)
    &&& match r {
        Ok(_) => {
            &&& remote_result is Ok
            &&& (p.callback matches Some(cb) && (cb matches HubIbcCallbackMsg::BurnToken {
                token_id,
            } && {
                &&& spec_has_token(pre.tokens@, token_id@)
                &&& !spec_has_token(post.tokens@, token_id@)
                &&& post.tokens@.len() == pre.tokens@.len() - 1
                &&& forall|id2: Seq<char>|
                    id2 != token_id@ ==> #[trigger] spec_find_token(post.tokens@, id2)
                        == spec_find_token(pre.tokens@, id2)
            }))
        },
        Err(e) => post.tokens@ == pre.tokens@ && match e {
            AppError::Transfer(_) => remote_result is Err || p.callback is None,
            AppError::Std(_) => remote_result is Ok && (p.callback matches Some(cb) && (cb
                matches HubIbcCallbackMsg::BurnToken { token_id } && !spec_has_token(
                pre.tokens@,
                token_id@,
            ))),
            _ => false,
        },
    }
}

/// Finalizes one relocation on the origin ledger from the transport's
/// callback: on reported success the attached directive burns the
/// escrowed asset — the only path that destroys an asset; on any failure
/// a `Transfer` error is surfaced and the asset stays escrowed.
pub fn finalize_relocation(
    src: &mut Ledger,
    p: HubPacket,
    remote_result: Result<(), String>,
) -> (r: Result<(), AppError>)
    requires
        spec_wf_ledger(*old(src)),
    ensures
        spec_wf_ledger(*final(src)),
        spec_finalize_relocation_post(*old(src), *final(src), p, remote_result, r),
{
    let mut actions = match crate::transfer::transfer_callback(
        CallbackResult::Execute(remote_result),
        p.callback,
    ) {
        Err(e) => {
            return Err(e);
        },
        Ok(actions) => actions,
    };
    let a0 = actions.remove(0);
    match a0 {
        HubAction::BurnNft { token_id } => {
            let ghost t0 = src.tokens@;
            match apply_burn(&mut src.tokens, &token_id) {
                Err(e) => Err(e),
                Ok(_) => {
                    proof {
                        let i = choose|i: int|
                            #![trigger t0.remove(i)]
                            {
                                &&& 0 <= i < t0.len()
                                &&& t0[i].token_id@ == a0->BurnNft_token_id@
                                &&& src.tokens@ == t0.remove(i)
                                &&& forall|j: int|
                                    0 <= j < i ==> t0[j].token_id@ != a0->BurnNft_token_id@
                            };
                        crate::state::lemma_find_token_first(t0, i, a0->BurnNft_token_id@);
                        assert(forall|j: int|
                            0 <= j < src.tokens@.len() ==> src.tokens@[j] == (if j < i {
                                t0[j]
                            } else {
                                t0[j + 1]
                            }));
                        assert forall|j: int|
                            0 <= j < src.tokens@.len() implies src.tokens@[j].token_id@
                            != a0->BurnNft_token_id@ by {
                            if j >= i {
                                assert(t0[j + 1].token_id@ != t0[i].token_id@);
                            }
                        }
                        crate::state::lemma_find_token_none(src.tokens@, a0->BurnNft_token_id@);
                        assert forall|id2: Seq<char>| id2 != a0->BurnNft_token_id@
                            implies spec_find_token(src.tokens@, id2) == spec_find_token(
                            t0,
                            id2,
                        ) by {
                            crate::state::lemma_find_token_remove(t0, i, id2);
                        }
                    }
                    Ok(())
                },
            }
        },
        _ => unreached(),
    }
}

/// Uniqueness of custody: what one whole relocation does. On success the
/// origin ledger no longer lists the asset and the destination does —
/// never both, never neither — owned by the registry's resolution of the
/// requester's identity as viewed from the destination, with uri and
/// extension preserved. Every other asset's record, on either ledger, is
/// exactly what it was. On any failure the asset is never created on the
/// destination and never destroyed on the origin: at worst it stays
/// locked in escrow.
pub open spec fn spec_relocation_post(
    src0: Ledger,
    src1: Ledger,
    dst0: Ledger,
    dst1: Ledger,
    requester: AccountId,
    token_id: Seq<char>,
    r: Result<(), AppError>,
) -> bool {
    let addr = spec_requester_addr(src0, requester);
    let found = spec_find_token(src0.tokens@, token_id);
    let target_trace = spec_resolve_trace(
        crate::identity::spec_trace(requester),
        src0.chain_name@,
        dst0.chain_name@,
    );
    let recipient = spec_registry_lookup(dst0.registry@, requester.seq as nat, target_trace);
    &&& (r is Ok <==> {
        &&& addr is Some
        &&& (found matches Some(t) && t.owner@ == addr->Some_0)
        &&& src0.trusted_namespace@ == dst0.trusted_namespace@
        &&& recipient is Some
        &&& !spec_has_token(dst0.tokens@, token_id)
    })
    &&& match r {
        Ok(_) => {
            &&& addr is Some
            &&& (found matches Some(t) && t.owner@ == addr->Some_0)
            &&& !spec_has_token(src1.tokens@, token_id)
            &&& src1.tokens@.len() == src0.tokens@.len() - 1
            &&& recipient is Some
            &&& (spec_find_token(dst1.tokens@, token_id) matches Some(t2) && {
                &&& t2.owner@ == recipient->Some_0
                &&& spec_opt_str(t2.token_uri) == spec_opt_str(found->Some_0.token_uri)
                &&& spec_opt_metadata(t2.extension) == spec_opt_metadata(found->Some_0.extension)
            })
            &&& dst1.tokens@.len() == dst0.tokens@.len() + 1
            &&& forall|j: int| 0 <= j < dst0.tokens@.len() ==> dst1.tokens@[j] == dst0.tokens@[j]
            &&& forall|id2: Seq<char>|
                id2 != token_id ==> #[trigger] spec_find_token(src1.tokens@, id2)
                    == spec_find_token(src0.tokens@, id2)
            &&& forall|id2: Seq<char>|
                id2 != token_id ==> #[trigger] spec_find_token(dst1.tokens@, id2)
                    == spec_find_token(dst0.tokens@, id2)
        },
        Err(_) => {
            &&& dst1.tokens@ == dst0.tokens@
            &&& src1.tokens@.len() == src0.tokens@.len()
            &&& (spec_has_token(src0.tokens@, token_id) ==> spec_has_token(src1.tokens@, token_id))
            &&& forall|id2: Seq<char>|
                id2 != token_id ==> #[trigger] spec_find_token(src1.tokens@, id2)
                    == spec_find_token(src0.tokens@, id2)
        },
    }
}

/// Carries one relocation through all three steps — lock on the origin,
/// delivery of the mint to the destination, and the finalize callback —
/// with the transport delivering the message and its callback exactly
/// once. The destination ledger is the one the request names. The last
/// premise is the global allocation discipline: an asset in flight never
/// carries an id the destination's allocator could still produce.
pub fn relocate_token(
    src: &mut Ledger,
    dst: &mut Ledger,
    requester: &AccountId,
    token_id: String,
    recipient_chain: String,
) -> (r: Result<(), AppError>)
    requires
        spec_wf_ledger(*old(src)),
        spec_wf_ledger(*old(dst)),
        old(dst).chain_name@ == recipient_chain@,
        forall|n: nat|
            n >= old(dst).hub_config.next_token_id ==> token_id@ != spec_token_id(
                old(dst).chain_name@,
                n,
            ),
    ensures
        spec_wf_ledger(*final(src)),
        spec_wf_ledger(*final(dst)),
        spec_same_except_tokens(*old(src), *final(src)),
        spec_same_except_tokens(*old(dst), *final(dst)),
        spec_relocation_post(*old(src), *final(src), *old(dst), *final(dst), *requester, token_id@, r),
{
    let ghost tid = token_id@;
    let p = match start_relocation(src, requester, token_id, recipient_chain) {
        Err(e) => {
            return Err(e);
        },
        Ok(p) => p,
    };
    let ack = deliver_relocation(dst, &p);
    finalize_relocation(src, p, ack)
}

/// One in-flight origination request, as the transport carries it to the
/// front door's counterpart on the destination ledger.
pub struct MinterPacket {
    pub source_namespace: String,
    pub src_chain: String,
    pub dst_chain: String,
    pub msg: crate::minter::msg::MinterIbcMsg,
}

/// The beneficiary address the origin ledger resolves for the front
/// door's configured admin account.
pub open spec fn spec_admin_addr(l: Ledger) -> Option<Seq<char>> {
    spec_registry_lookup(
        l.registry@,
        l.minter_config.admin_account.seq as nat,
        crate::identity::spec_trace(l.minter_config.admin_account),
    )
}

/// What starting an origination does: under the quota limit, the
/// account's counter advances, the fixed price is paid to the
/// beneficiary, and the outbound request (addressed to the counterparty
/// chosen by `seq mod number-of-counterparties`) carries the requester's
/// identity and the send-back flag; over the limit, `TooMuchMinted` and
/// nothing changes.
pub open spec fn spec_start_origination_post(
    pre: Ledger,
    post: Ledger,
    account: AccountId,
    send_back: bool,
    r: Result<MinterPacket, crate::error::MinterError>,
) -> bool {
    let admin = spec_admin_addr(pre);
    let before = crate::minter::state::spec_minted_amount(pre.minted@, account@);
    &&& spec_same_core(pre, post)
    &&& post.tokens@ == pre.tokens@
    &&& post.hub_config == pre.hub_config
    &&& match r {
        Ok(p) => {
            &&& admin is Some
            &&& before < pre.minter_config.mint_limit
            &&& crate::minter::state::spec_minted_amount(post.minted@, account@) == before + 1
            &&& forall|id2: crate::identity::AccountIdV|
                id2 != account@ ==> crate::minter::state::spec_minted_amount(post.minted@, id2)
                    == crate::minter::state::spec_minted_amount(pre.minted@, id2)
            &&& post.payments@.len() == pre.payments@.len() + 1
            &&& forall|j: int| 0 <= j < pre.payments@.len() ==> post.payments@[j] == pre.payments@[j]
            &&& post.payments@.last().amount == pre.minter_config.mint_cost.amount
            &&& post.payments@.last().denom@ == pre.minter_config.mint_cost.denom@
            &&& post.payments@.last().recipient@ == admin->Some_0
            &&& p.source_namespace@ == pre.trusted_namespace@
            &&& p.src_chain@ == pre.chain_name@
            &&& p.dst_chain@ == pre.counterparties@[account.seq as int % pre.counterparties@.len() as int]@
            &&& (p.msg matches crate::minter::msg::MinterIbcMsg::IbcMint {
                local_account_id,
                send_back: sb,
            } && local_account_id@ == account@ && sb == send_back)
        },
        Err(e) => {
            &&& post.minted@ == pre.minted@
            &&& post.payments@ == pre.payments@
            &&& match e {
                crate::error::MinterError::TooMuchMinted(lim) => lim
                    == pre.minter_config.mint_limit && before >= pre.minter_config.mint_limit,
                crate::error::MinterError::Std(_) => before < pre.minter_config.mint_limit
                    && admin is None,
                _ => false,
            }
        },
    }
}

/// Starts one origination on the requesting account's ledger: checks and
/// charges the quota, pays the fixed price to the beneficiary, and hands
/// the cross-ledger request to the transport.
pub fn start_origination(l: &mut Ledger, account: &AccountId, send_back: bool) -> (r: Result<
    MinterPacket,
    crate::error::MinterError,
>)
    requires
        spec_wf_ledger(*old(l)),
        old(l).counterparties@.len() > 0,
    ensures
        spec_wf_ledger(*final(l)),
        spec_start_origination_post(*old(l), *final(l), *account, send_back, r),
{
    let current = crate::minter::state::minted_amount(&l.minted, account);
    if current >= l.minter_config.mint_limit {
        return Err(crate::error::MinterError::TooMuchMinted(l.minter_config.mint_limit));
    }
    let admin_proxy = match registry_lookup(&l.registry, &l.minter_config.admin_account) {
        None => {
            return Err(crate::error::MinterError::Std(String::from_str("account not registered")));
        },
        Some(a) => a,
    };
    let mut actions = match crate::minter::execute::originate(
        &l.minter_config,
        &mut l.minted,
        account,
        &admin_proxy,
        &l.counterparties,
        send_back,
    ) {
        Err(_) => {
            return unreached();
        },
        Ok(actions) => actions,
    };
    let a0 = actions.remove(0);
    let a1 = actions.remove(0);
    match a1 {
        crate::minter::msg::MinterAction::Pay { amount, denom, recipient } => {
            l.payments.push(Payment { amount, denom, recipient });
        },
        _ => {
            return unreached();
        },
    }
    match a0 {
        crate::minter::msg::MinterAction::SendIbcMint { host_chain, msg } => Ok(
            MinterPacket {
                source_namespace: l.trusted_namespace.clone(),
                src_chain: l.chain_name.clone(),
                dst_chain: host_chain,
                msg,
            },
        ),
        _ => unreached(),
    }
}

/// What delivering one origination request does: when the request comes
/// from the front door's own module id, the identity is registered for
/// the ledger's viewpoint, and the local hub's admission passes, a fresh
/// local id is allocated and minted (with the configured uri and metadata
/// template) for the resolved account; with send-back set the fresh asset
/// is immediately escrowed and the relocation packet towards the sending
/// ledger is returned. On any failure nothing changes.
pub open spec fn spec_deliver_origination_post(
    pre: Ledger,
    post: Ledger,
    p: MinterPacket,
    r: Result<Option<HubPacket>, crate::error::MinterError>,
) -> bool {
    (p.msg matches crate::minter::msg::MinterIbcMsg::IbcMint { local_account_id, send_back } && {
        let target_trace = crate::identity::spec_push_hop(
            crate::identity::spec_trace(local_account_id),
            p.src_chain@,
        );
        let resolved = spec_registry_lookup(
            pre.registry@,
            local_account_id.seq as nat,
            target_trace,
        );
        let fresh_id = spec_token_id(pre.chain_name@, pre.hub_config.next_token_id as nat);
        &&& spec_same_core(pre, post)
        &&& post.minted@ == pre.minted@
        &&& post.payments@ == pre.payments@
        &&& (r is Ok <==> {
            &&& p.source_namespace@ == pre.trusted_namespace@
            &&& resolved is Some
            &&& crate::state::spec_module_lookup(pre.modules@, pre.minter_module_id@) == Some(
                pre.minter_address@,
            )
            &&& crate::admission::spec_module_namespace(pre.minter_module_id@) == Some(
                pre.trusted_namespace@,
            )
        })
        &&& match r {
            Ok(opt) => {
                &&& p.source_namespace@ == pre.trusted_namespace@
                &&& resolved is Some
                &&& post.hub_config.next_token_id == pre.hub_config.next_token_id + 1
                &&& post.tokens@.len() == pre.tokens@.len() + 1
                &&& forall|j: int| 0 <= j < pre.tokens@.len() ==> post.tokens@[j] == pre.tokens@[j]
                &&& (spec_find_token(post.tokens@, fresh_id) matches Some(t) && {
                    &&& spec_opt_str(t.token_uri) == Some(pre.minter_config.token_uri_base@)
                    &&& spec_opt_metadata(t.extension) == Some(pre.minter_config.metadata_base@)
                    &&& t.owner@ == (if send_back {
                        pre.hub_address@
                    } else {
                        resolved->Some_0
                    })
                })
                &&& forall|id2: Seq<char>|
                    id2 != fresh_id ==> #[trigger] spec_find_token(post.tokens@, id2)
                        == spec_find_token(pre.tokens@, id2)
                &&& if send_back {
                    opt matches Some(hp) && {
                        &&& hp.source_namespace@ == pre.trusted_namespace@
                        &&& hp.src_chain@ == pre.chain_name@
                        &&& hp.dst_chain@ == p.src_chain@
                        &&& (hp.msg matches HubIbcMsg::IbcMint {
                            local_account_id: lid,
                            token_id: mid,
                            token_uri,
                            extension,
                        } && {
                            &&& lid@.seq == local_account_id.seq as nat
                            &&& lid@.trace == target_trace
                            &&& mid@ == fresh_id
                            &&& spec_opt_str(token_uri) == Some(pre.minter_config.token_uri_base@)
                            &&& spec_opt_metadata(extension) == Some(
                                pre.minter_config.metadata_base@,
                            )
                        })
                        &&& (hp.callback matches Some(cb) && (cb
                            matches HubIbcCallbackMsg::BurnToken { token_id: bid } && bid@
                            == fresh_id))
                    }
                } else {
                    opt is None
                }
            },
            Err(_) => post.tokens@ == pre.tokens@ && post.hub_config == pre.hub_config,
        }
    })
}

/// Delivers one origination request to the destination ledger: the front
/// door's remote handler runs under its admission gate, the hub's
/// privileged mint allocates and mints the fresh asset, and, with
/// send-back set, the relocation back to the sending ledger starts in the
/// same call.
pub fn deliver_origination(dst: &mut Ledger, p: &MinterPacket) -> (r: Result<
    Option<HubPacket>,
    crate::error::MinterError,
>)
    requires
        spec_wf_ledger(*old(dst)),
        old(dst).hub_config.next_token_id < u64::MAX,
    ensures
        spec_wf_ledger(*final(dst)),
        spec_deliver_origination_post(*old(dst), *final(dst), *p, r),
{
    let account_ref = match &p.msg {
        crate::minter::msg::MinterIbcMsg::IbcMint { local_account_id, .. } => local_account_id,
    };
    let msg = match &p.msg {
        crate::minter::msg::MinterIbcMsg::IbcMint { local_account_id, send_back } => {
            crate::minter::msg::MinterIbcMsg::IbcMint {
                local_account_id: clone_account_id(local_account_id),
                send_back: *send_back,
            }
        },
    };
    let mut actions = match crate::minter::ibc::receive_module_ibc(
        &dst.minter_config,
        &dst.registry,
        &dst.minter_module_id,
        &dst.hub_config,
        &dst.chain_name,
        &dst.trusted_namespace,
        &p.source_namespace,
        &p.src_chain,
        msg,
    ) {
        Err(e) => {
            return Err(e);
        },
        Ok(actions) => actions,
    };
    let ghost pre = *dst;
    let send_back_action = if actions.len() > 1 {
        Some(actions.remove(1))
    } else {
        None
    };
    let a0 = actions.remove(0);
    match a0 {
        crate::minter::msg::MinterAction::CallHubMint { proxy, module_id, token_uri, metadata } => {
            let mint_actions = match crate::execute::mint(
                &mut dst.hub_config,
                &dst.chain_name,
                &dst.modules,
                &dst.minter_address,
                &module_id,
                &dst.trusted_namespace,
                &proxy,
                token_uri,
                metadata,
            ) {
                Err(e) => {
                    return Err(crate::error::MinterError::Std(e.message()));
                },
                Ok(a) => a,
            };
            let mut mint_actions = mint_actions;
            let m0 = mint_actions.remove(0);
            match m0 {
                HubAction::MintNft { token_id, owner, token_uri, extension } => {
                    proof {
                        assert(forall|j: int|
                            0 <= j < pre.tokens@.len() ==> pre.tokens@[j].token_id@
                                != m0->MintNft_token_id@);
                        crate::state::lemma_find_token_none(pre.tokens@, m0->MintNft_token_id@);
                    }
                    match apply_mint(&mut dst.tokens, token_id, owner, token_uri, extension) {
                        Ok(_) => {},
                        Err(_) => {
                            return unreached();
                        },
                    }
                    proof {
                        assert forall|i: int, n: nat|
                            #![trigger dst.tokens@[i].token_id@, spec_token_id(dst.chain_name@, n)]
                            0 <= i < dst.tokens@.len() && n
                                >= dst.hub_config.next_token_id implies dst.tokens@[i].token_id@
                            != spec_token_id(dst.chain_name@, n) by {
                            if i == dst.tokens@.len() - 1 {
                                if dst.tokens@[i].token_id@ == spec_token_id(dst.chain_name@, n) {
                                    crate::helpers::lemma_token_id_injective(
                                        dst.chain_name@,
                                        pre.hub_config.next_token_id as nat,
                                        n,
                                    );
                                }
                            }
                        }
                        crate::state::lemma_find_token_none_entries(
                            pre.tokens@,
                            m0->MintNft_token_id@,
                        );
                        assert(dst.tokens@ =~= pre.tokens@.push(dst.tokens@.last()));
                        assert forall|id2: Seq<char>| id2 != m0->MintNft_token_id@
                            implies spec_find_token(dst.tokens@, id2) == spec_find_token(
                            pre.tokens@,
                            id2,
                        ) by {
                            crate::state::lemma_find_token_push(
                                pre.tokens@,
                                dst.tokens@.last(),
                                id2,
                            );
                        }
                    }
                },
                _ => {
                    return unreached();
                },
            }
        },
        _ => {
            return unreached();
        },
    }
    match send_back_action {
        None => Ok(None),
        Some(a1) => {
            match a1 {
                crate::minter::msg::MinterAction::CallHubIbcTransfer {
                    proxy: _,
                    token_id,
                    recipient_chain,
                } => {
                    let target = crate::identity::client_to_host_account_id(
                        &p.src_chain,
                        account_ref,
                    );
                    match start_relocation(dst, &target, token_id, recipient_chain) {
                        Ok(hp) => Ok(Some(hp)),
                        Err(_) => unreached(),
                    }
                },
                _ => unreached(),
            }
        },
    }
}

/// What one whole origination does, send-back included. On success the
/// quota is charged and the price paid on the origin; the destination
/// allocates a fresh id (never to be reused); without send-back the fresh
/// asset lives on the destination, owned by the registry's resolution of
/// the requester's hopped identity; with send-back it ends on the origin,
/// owned by the requester's own local address, and absent from the
/// destination; either way every other asset's record, on either ledger,
/// is exactly what it was. On failure the quota is never rolled back:
/// counters only grow.
pub open spec fn spec_mint_remote_post(
    src0: Ledger,
    src1: Ledger,
    dst0: Ledger,
    dst1: Ledger,
    account: AccountId,
    send_back: bool,
    r: Result<(), crate::error::MinterError>,
) -> bool {
    let fresh_id = spec_token_id(dst0.chain_name@, dst0.hub_config.next_token_id as nat);
    let target_trace = crate::identity::spec_push_hop(
        crate::identity::spec_trace(account),
        src0.chain_name@,
    );
    let resolved_dst = spec_registry_lookup(dst0.registry@, account.seq as nat, target_trace);
    let home_addr = spec_requester_addr(src0, account);
    let quota_free = crate::minter::state::spec_minted_amount(src0.minted@, account@)
        < src0.minter_config.mint_limit;
    let delivery_admitted = {
        &&& src0.trusted_namespace@ == dst0.trusted_namespace@
        &&& resolved_dst is Some
        &&& crate::state::spec_module_lookup(dst0.modules@, dst0.minter_module_id@) == Some(
            dst0.minter_address@,
        )
        &&& crate::admission::spec_module_namespace(dst0.minter_module_id@) == Some(
            dst0.trusted_namespace@,
        )
    };
    &&& spec_same_core(src0, src1)
    &&& spec_same_core(dst0, dst1)
    &&& src1.hub_config == src0.hub_config
    &&& dst1.minted@ == dst0.minted@
    &&& dst1.payments@ == dst0.payments@
    &&& crate::minter::state::spec_minted_amount(src1.minted@, account@)
        >= crate::minter::state::spec_minted_amount(src0.minted@, account@)
    &&& (r is Ok <==> {
        &&& spec_admin_addr(src0) is Some
        &&& quota_free
        &&& delivery_admitted
        &&& (send_back ==> home_addr is Some && !spec_has_token(src0.tokens@, fresh_id))
    })
    &&& (send_back && spec_admin_addr(src0) is Some && quota_free && delivery_admitted && !(
    home_addr is Some && !spec_has_token(src0.tokens@, fresh_id)) ==> {
        // A failed send-back: the fresh asset stays escrowed on the
        // destination, and the quota charged on the origin stays charged.
        &&& (spec_find_token(dst1.tokens@, fresh_id) matches Some(t) && t.owner@
            == dst0.hub_address@)
        &&& crate::minter::state::spec_minted_amount(src1.minted@, account@)
            == crate::minter::state::spec_minted_amount(src0.minted@, account@) + 1
    })
    &&& match r {
        Ok(_) => {
            &&& crate::minter::state::spec_minted_amount(src1.minted@, account@)
                == crate::minter::state::spec_minted_amount(src0.minted@, account@) + 1
            &&& src1.payments@.len() == src0.payments@.len() + 1
            &&& src1.payments@.last().amount == src0.minter_config.mint_cost.amount
            &&& src1.payments@.last().denom@ == src0.minter_config.mint_cost.denom@
            &&& dst1.hub_config.next_token_id == dst0.hub_config.next_token_id + 1
            &&& resolved_dst is Some
            &&& forall|id2: Seq<char>|
                id2 != fresh_id ==> #[trigger] spec_find_token(dst1.tokens@, id2)
                    == spec_find_token(dst0.tokens@, id2)
            &&& forall|id2: Seq<char>|
                id2 != fresh_id ==> #[trigger] spec_find_token(src1.tokens@, id2)
                    == spec_find_token(src0.tokens@, id2)
            &&& if send_back {
                &&& !spec_has_token(dst1.tokens@, fresh_id)
                &&& dst1.tokens@.len() == dst0.tokens@.len()
                &&& home_addr is Some
                &&& (spec_find_token(src1.tokens@, fresh_id) matches Some(t) && {
                    &&& t.owner@ == home_addr->Some_0
                    &&& spec_opt_str(t.token_uri) == Some(dst0.minter_config.token_uri_base@)
                    &&& spec_opt_metadata(t.extension) == Some(dst0.minter_config.metadata_base@)
                })
                &&& src1.tokens@.len() == src0.tokens@.len() + 1
            } else {
                &&& src1.tokens@ == src0.tokens@
                &&& (spec_find_token(dst1.tokens@, fresh_id) matches Some(t) && {
                    &&& t.owner@ == resolved_dst->Some_0
                    &&& spec_opt_str(t.token_uri) == Some(dst0.minter_config.token_uri_base@)
                    &&& spec_opt_metadata(t.extension) == Some(dst0.minter_config.metadata_base@)
                })
                &&& dst1.tokens@.len() == dst0.tokens@.len() + 1
                &&& forall|j: int|
                    0 <= j < dst0.tokens@.len() ==> dst1.tokens@[j] == dst0.tokens@[j]
            }
        },
        Err(_) => true,
    }
}

/// Carries one origination through both ledgers: the front-door request
/// on the requester's ledger, the fresh mint on the chosen counterparty,
/// and, with send-back set, the relocation of the fresh asset back to the
/// requester, with the transport delivering each message and callback
/// exactly once. The destination ledger is the chosen counterparty; the
/// two ledgers carry different names.
pub fn mint_remote(
    src: &mut Ledger,
    dst: &mut Ledger,
    account: &AccountId,
    send_back: bool,
) -> (r: Result<(), crate::error::MinterError>)
    requires
        spec_wf_ledger(*old(src)),
        spec_wf_ledger(*old(dst)),
        old(src).counterparties@.len() > 0,
        old(dst).chain_name@ == old(src).counterparties@[account.seq as int % old(
            src,
        ).counterparties@.len() as int]@,
        old(dst).hub_config.next_token_id < u64::MAX,
        old(src).chain_name@ != old(dst).chain_name@,
    ensures
        spec_wf_ledger(*final(src)),
        spec_wf_ledger(*final(dst)),
        spec_mint_remote_post(
            *old(src),
            *final(src),
            *old(dst),
            *final(dst),
            *account,
            send_back,
            r,
        ),
{
    let p = match start_origination(src, account, send_back) {
        Err(e) => {
            return Err(e);
        },
        Ok(p) => p,
    };
    let hp = match deliver_origination(dst, &p) {
        Err(e) => {
            return Err(e);
        },
        Ok(None) => {
            return Ok(());
        },
        Ok(Some(hp)) => hp,
    };
    proof {
        assert forall|n: nat|
            n >= src.hub_config.next_token_id implies hp.msg->IbcMint_token_id@ != spec_token_id(
            src.chain_name@,
            n,
        ) by {
            crate::helpers::lemma_token_id_distinct_chains(
                old(dst).chain_name@,
                src.chain_name@,
                old(dst).hub_config.next_token_id as nat,
                n,
            );
        }
    }
    proof {
        // Returning to the origin pops the hop the origination pushed, so
        // the recipient of the send-back is the requester's own account.
        let t = crate::identity::spec_trace(*account);
        let pushed = crate::identity::spec_push_hop(t, old(src).chain_name@);
        assert(pushed.drop_last() =~= t);
        assert(spec_resolve_trace(pushed, old(dst).chain_name@, old(src).chain_name@) == t);
    }
    let ack = deliver_relocation(src, &hp);
    match finalize_relocation(dst, hp, ack) {
        Ok(_) => Ok(()),
        Err(e) => match e {
            AppError::Transfer(m) => Err(crate::error::MinterError::Transfer(m)),
            _ => Err(crate::error::MinterError::Std(e.message())),
        },
    }
}

} // verus!
