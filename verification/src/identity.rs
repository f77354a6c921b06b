//! Account identities and their translation between ledger viewpoints.
//!
//! An identity is a home sequence number plus a hop trace: the ordered
//! list of ledger names crossed on the way from the account's home ledger
//! to the ledger it is viewed from. An empty trace means the account is
//! local to its home ledger.

use vstd::prelude::*;

verus! {

/// An account identity: home sequence number and hop trace.
pub struct AccountId {
    pub seq: u32,
    pub trace: Vec<String>,
}

/// The mathematical view of a hop trace: the sequence of ledger names.
pub open spec fn spec_trace_view(t: Seq<String>) -> Seq<Seq<char>> {
    t.map_values(|s: String| s@)
}

/// The mathematical view of an identity's trace.
pub open spec fn spec_trace(a: AccountId) -> Seq<Seq<char>> {
    spec_trace_view(a.trace@)
}

/// The mathematical view of an account identity.
pub struct AccountIdV {
    pub seq: nat,
    pub trace: Seq<Seq<char>>,
}

impl View for AccountId {
    type V = AccountIdV;

    open spec fn view(&self) -> AccountIdV {
        AccountIdV { seq: self.seq as nat, trace: spec_trace(*self) }
    }
}

/// Whether the account is viewed away from its home ledger.
pub open spec fn spec_is_remote(a: AccountId) -> bool {
    spec_trace(a).len() > 0
}

impl AccountId {
    /// An identity local to its home ledger.
    pub fn local(seq: u32) -> (r: AccountId)
        ensures
            r.seq == seq,
            spec_trace(r) =~= Seq::<Seq<char>>::empty(),
    {
        let r = AccountId { seq, trace: Vec::new() };
        proof {
            assert(spec_trace(r) =~= Seq::<Seq<char>>::empty());
        }
        r
    }

    /// Whether the account is viewed away from its home ledger.
    pub fn is_remote(&self) -> (r: bool)
        ensures
            r == spec_is_remote(*self),
    {
        self.trace.len() > 0
    }
}

/// Copies an identity.
pub fn clone_account_id(a: &AccountId) -> (r: AccountId)
    ensures
        r.seq == a.seq,
        spec_trace(r) == spec_trace(*a),
{
    let mut trace: Vec<String> = Vec::new();
    let mut i: usize = 0;
    while i < a.trace.len()
        invariant
            0 <= i <= a.trace@.len(),
            trace@.len() == i,
            forall|j: int| 0 <= j < i ==> trace@[j]@ == a.trace@[j]@,
        decreases a.trace@.len() - i,
    {
        trace.push(a.trace[i].clone());
        i = i + 1;
    }
    let r = AccountId { seq: a.seq, trace };
    proof {
        assert(spec_trace(r) =~= spec_trace(*a));
    }
    r
}

/// Whether two identities are the same account as seen from the same
/// viewpoint: equal home sequence and equal hop trace.
pub fn account_id_eq(a: &AccountId, b: &AccountId) -> (r: bool)
    ensures
        r == (a.seq == b.seq && spec_trace(*a) == spec_trace(*b)),
{
    if a.seq != b.seq {
        return false;
    }
    if a.trace.len() != b.trace.len() {
        proof {
            assert(spec_trace(*a).len() != spec_trace(*b).len());
        }
        return false;
    }
    let mut i: usize = 0;
    while i < a.trace.len()
        invariant
            0 <= i <= a.trace@.len(),
            a.trace@.len() == b.trace@.len(),
            forall|j: int| 0 <= j < i ==> a.trace@[j]@ == b.trace@[j]@,
        decreases a.trace@.len() - i,
    {
        if !a.trace[i].eq(&b.trace[i]) {
            proof {
                assert(spec_trace(*a)[i as int] != spec_trace(*b)[i as int]);
            }
            return false;
        }
        i = i + 1;
    }
    proof {
        assert(spec_trace(*a) =~= spec_trace(*b));
    }
    true
}

/// The trace of an identity after one forward hop: the sending ledger's
/// name is appended, recording that the account moved one ledger further
/// from home.
pub open spec fn spec_push_hop(t: Seq<Seq<char>>, sender: Seq<char>) -> Seq<Seq<char>> {
    t.push(sender)
}

/// Translates an identity arriving from `client_chain` into the local
/// viewpoint by recording the forward hop.
pub fn client_to_host_account_id(client_chain: &String, account_id: &AccountId) -> (r: AccountId)
    ensures
        r.seq == account_id.seq,
        spec_trace(r) == spec_push_hop(spec_trace(*account_id), client_chain@),
{
    let mut r = clone_account_id(account_id);
    r.trace.push(client_chain.clone());
    proof {
        assert(spec_trace(r) =~= spec_push_hop(spec_trace(*account_id), client_chain@));
    }
    r
}

/// The trace of an identity after translation to the viewpoint of
/// `viewer`, for an identity sent from `sender`: if the trace's last hop
/// is `viewer` itself the account is returning and that hop is popped
/// (an empty result collapses to a purely local identity); otherwise the
/// account moves further from home and `sender` is appended.
pub open spec fn spec_resolve_trace(
    t: Seq<Seq<char>>,
    sender: Seq<char>,
    viewer: Seq<char>,
) -> Seq<Seq<char>> {
    if t.len() > 0 && t.last() == viewer {
        t.drop_last()
    } else {
        spec_push_hop(t, sender)
    }
}

/// Translates the identity carried by an inbound message from
/// `sender_chain` into the viewpoint of `viewing_chain`.
pub fn resolve_incoming(
    sender_identity: &AccountId,
    sender_chain: &String,
    viewing_chain: &String,
) -> (r: AccountId)
    ensures
        r.seq == sender_identity.seq,
        spec_trace(r) == spec_resolve_trace(
            spec_trace(*sender_identity),
            sender_chain@,
            viewing_chain@,
        ),
{
    let n = sender_identity.trace.len();
    if n > 0 && sender_identity.trace[n - 1].eq(viewing_chain) {
        let mut r = clone_account_id(sender_identity);
        r.trace.pop();
        proof {
            assert(spec_trace(r) =~= spec_trace(*sender_identity).drop_last());
        }
        r
    } else {
        proof {
            if spec_trace(*sender_identity).len() > 0 {
                assert(spec_trace(*sender_identity).last() == sender_identity.trace@.last()@);
            }
        }
        client_to_host_account_id(sender_chain, sender_identity)
    }
}

/// Identity round-trip law: an identity viewed from ledger `a`, carried
/// to ledger `b` and translated there, then carried back to `a` and
/// translated again, is exactly the original identity — a trace push and
/// the matching pop cancel. The premises say only that the trace is one
/// an identity viewed from `a` can have: it does not end in `a`, and if
/// it ends in `b` the hop before that one is not `a`.
pub proof fn lemma_resolve_round_trip(t: Seq<Seq<char>>, a: Seq<char>, b: Seq<char>)
    requires
        a != b,
        t.len() > 0 ==> t.last() != a,
        t.len() >= 2 && t.last() == b ==> t[t.len() - 2] != a,
    ensures
        spec_resolve_trace(spec_resolve_trace(t, a, b), b, a) == t,
{
    if t.len() > 0 && t.last() == b {
        let t1 = t.drop_last();
        if t1.len() > 0 && t1.last() == a {
            assert(t[t.len() - 2] == a);
        }
        assert(spec_resolve_trace(t1, b, a) =~= t);
    } else {
        let t1 = spec_push_hop(t, a);
        assert(t1.last() == a);
        assert(spec_resolve_trace(t1, b, a) =~= t);
    }
}

/// A registered account: an identity and the address of the custodial
/// account that realizes it on this ledger.
pub struct RegisteredAccount {
    pub account_id: AccountId,
    pub proxy: String,
}

/// The address registered for the identity `(seqn, trace)`, if any.
pub open spec fn spec_registry_lookup(
    reg: Seq<RegisteredAccount>,
    seqn: nat,
    trace: Seq<Seq<char>>,
) -> Option<Seq<char>>
    decreases reg.len(),
{
    if reg.len() == 0 {
        None
    } else if reg[0].account_id.seq == seqn && spec_trace(reg[0].account_id) == trace {
        Some(reg[0].proxy@)
    } else {
        spec_registry_lookup(reg.skip(1), seqn, trace)
    }
}

/// Resolves an identity to the address of its local custodial account
/// through the account registry collaborator.
pub fn registry_lookup(reg: &Vec<RegisteredAccount>, id: &AccountId) -> (r: Option<String>)
    ensures
        match r {
            Some(addr) => spec_registry_lookup(reg@, id.seq as nat, spec_trace(*id)) == Some(
                addr@,
            ),
            None => spec_registry_lookup(reg@, id.seq as nat, spec_trace(*id)) is None,
        },
{
    let mut i: usize = 0;
    proof {
        assert(reg@.skip(0) =~= reg@);
    }
    while i < reg.len()
        invariant
            0 <= i <= reg@.len(),
            spec_registry_lookup(reg@, id.seq as nat, spec_trace(*id)) == spec_registry_lookup(
                reg@.skip(i as int),
                id.seq as nat,
                spec_trace(*id),
            ),
        decreases reg@.len() - i,
    {
        proof {
            assert(reg@.skip(i as int)[0] == reg@[i as int]);
            assert(reg@.skip(i as int).skip(1) =~= reg@.skip(i as int + 1));
        }
        if account_id_eq(&reg[i].account_id, id) {
            return Some(reg[i].proxy.clone());
        }
        i = i + 1;
    }
    None
}

} // verus!
