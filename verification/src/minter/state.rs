//! Front-door state: configuration and the per-account origination quota
//! counters, which only ever grow.

use vstd::prelude::*;

use crate::identity::account_id_eq;
use crate::identity::AccountId;
use crate::identity::AccountIdV;
use crate::metadata::Metadata;
use crate::minter::msg::Coin;

verus! {

/// Front-door configuration: the beneficiary account of the mint price,
/// the uri and metadata template of fresh assets, the per-account quota
/// limit and the fixed price.
pub struct Config {
    pub admin_account: AccountId,
    pub metadata_base: Metadata,
    pub token_uri_base: String,
    pub mint_limit: usize,
    pub mint_cost: Coin,
}

/// The quota counter of one requesting account.
pub struct MintedEntry {
    pub account_id: AccountId,
    pub amount: usize,
}

/// How many successful originations `id` has made: the first counter
/// recorded for it, or zero if none is.
pub open spec fn spec_minted_amount(q: Seq<MintedEntry>, id: AccountIdV) -> nat
    decreases q.len(),
{
    if q.len() == 0 {
        0
    } else if q[0].account_id@ == id {
        q[0].amount as nat
    } else {
        spec_minted_amount(q.skip(1), id)
    }
}

/// Whether a counter is recorded for `id`.
pub open spec fn spec_has_minted_entry(q: Seq<MintedEntry>, id: AccountIdV) -> bool
    decreases q.len(),
{
    if q.len() == 0 {
        false
    } else if q[0].account_id@ == id {
        true
    } else {
        spec_has_minted_entry(q.skip(1), id)
    }
}

proof fn lemma_minted_amount_first(q: Seq<MintedEntry>, i: int, id: AccountIdV)
    requires
        0 <= i < q.len(),
        q[i].account_id@ == id,
        forall|j: int| 0 <= j < i ==> q[j].account_id@ != id,
    ensures
        spec_minted_amount(q, id) == q[i].amount as nat,
    decreases q.len(),
{
    if i > 0 {
        assert(q.skip(1)[i - 1] == q[i]);
        assert(forall|j: int| 0 <= j < i - 1 ==> q.skip(1)[j] == q[j + 1] && q[j + 1].account_id@
            != id);
        lemma_minted_amount_first(q.skip(1), i - 1, id);
    }
}

proof fn lemma_minted_amount_none(q: Seq<MintedEntry>, id: AccountIdV)
    requires
        forall|j: int| 0 <= j < q.len() ==> q[j].account_id@ != id,
    ensures
        spec_minted_amount(q, id) == 0,
        !spec_has_minted_entry(q, id),
    decreases q.len(),
{
    if q.len() > 0 {
        assert(forall|j: int| 0 <= j < q.skip(1).len() ==> q.skip(1)[j] == q[j + 1] && q[j
            + 1].account_id@ != id);
        lemma_minted_amount_none(q.skip(1), id);
    }
}

proof fn lemma_minted_amount_update(q: Seq<MintedEntry>, i: int, e: MintedEntry, id2: AccountIdV)
    requires
        0 <= i < q.len(),
        e.account_id@ == q[i].account_id@,
    ensures
        spec_minted_amount(q.update(i, e), id2) == if q[i].account_id@ == id2 && (forall|j: int|
            0 <= j < i ==> q[j].account_id@ != id2) {
            e.amount as nat
        } else {
            spec_minted_amount(q, id2)
        },
    decreases q.len(),
{
    if i == 0 {
        assert(q.update(0, e)[0] == e);
        assert(q.update(0, e).skip(1) =~= q.skip(1));
    } else {
        assert(q.update(i, e)[0] == q[0]);
        assert(q.update(i, e).skip(1) =~= q.skip(1).update(i - 1, e));
        assert(q.skip(1)[i - 1] == q[i]);
        lemma_minted_amount_update(q.skip(1), i - 1, e, id2);
        if q[i].account_id@ == id2 {
            if forall|j: int| 0 <= j < i ==> q[j].account_id@ != id2 {
                assert(forall|j: int| 0 <= j < i - 1 ==> q.skip(1)[j] == q[j + 1]);
            } else {
                let w = choose|j: int| 0 <= j < i && q[j].account_id@ == id2;
                if w > 0 {
                    assert(q.skip(1)[w - 1] == q[w]);
                }
            }
        }
    }
}

proof fn lemma_minted_amount_push(q: Seq<MintedEntry>, e: MintedEntry, id2: AccountIdV)
    ensures
        spec_minted_amount(q.push(e), id2) == if spec_has_minted_entry(q, id2) {
            spec_minted_amount(q, id2)
        } else if e.account_id@ == id2 {
            e.amount as nat
        } else {
            0
        },
    decreases q.len(),
{
    if q.len() == 0 {
        assert(q.push(e)[0] == e);
        assert(q.push(e).skip(1) =~= Seq::<MintedEntry>::empty());
        assert(spec_minted_amount(Seq::<MintedEntry>::empty(), id2) == 0);
    } else {
        assert(q.push(e)[0] == q[0]);
        assert(q.push(e).skip(1) =~= q.skip(1).push(e));
        lemma_minted_amount_push(q.skip(1), e, id2);
        if q[0].account_id@ == id2 {
            assert(spec_minted_amount(q.push(e), id2) == q[0].amount as nat);
            assert(spec_minted_amount(q, id2) == q[0].amount as nat);
        } else {
            assert(spec_minted_amount(q.push(e), id2) == spec_minted_amount(
                q.skip(1).push(e),
                id2,
            ));
            assert(spec_minted_amount(q, id2) == spec_minted_amount(q.skip(1), id2));
            assert(spec_has_minted_entry(q, id2) == spec_has_minted_entry(q.skip(1), id2));
        }
    }
}

/// Reads the quota counter of `account_id`.
pub fn minted_amount(quota: &Vec<MintedEntry>, account_id: &AccountId) -> (n: usize)
    ensures
        n as nat == spec_minted_amount(quota@, account_id@),
{
    let mut i: usize = 0;
    while i < quota.len()
        invariant
            0 <= i <= quota@.len(),
            forall|j: int| 0 <= j < i ==> quota@[j].account_id@ != account_id@,
        decreases quota@.len() - i,
    {
        if account_id_eq(&quota[i].account_id, account_id) {
            proof {
                lemma_minted_amount_first(quota@, i as int, account_id@);
            }
            return quota[i].amount;
        }
        i = i + 1;
    }
    proof {
        lemma_minted_amount_none(quota@, account_id@);
    }
    0
}

/// Advances the quota counter of `account_id` by one, leaving every other
/// account's counter unchanged. Counters only ever grow: nothing resets
/// them.
pub fn increment_minted(quota: &mut Vec<MintedEntry>, account_id: &AccountId)
    requires
        spec_minted_amount(old(quota)@, account_id@) < usize::MAX,
    ensures
        spec_minted_amount(final(quota)@, account_id@) == spec_minted_amount(
            old(quota)@,
            account_id@,
        ) + 1,
        forall|id2: AccountIdV|
            id2 != account_id@ ==> spec_minted_amount(final(quota)@, id2) == spec_minted_amount(
                old(quota)@,
                id2,
            ),
{
    let mut i: usize = 0;
    while i < quota.len()
        invariant
            0 <= i <= quota@.len(),
            quota@ == old(quota)@,
            spec_minted_amount(old(quota)@, account_id@) < usize::MAX,
            forall|j: int| 0 <= j < i ==> quota@[j].account_id@ != account_id@,
        decreases quota@.len() - i,
    {
        if account_id_eq(&quota[i].account_id, account_id) {
            proof {
                lemma_minted_amount_first(quota@, i as int, account_id@);
            }
            let mut e = quota.remove(i);
            proof {
                assert(e.amount as nat == spec_minted_amount(old(quota)@, account_id@));
                assert(e.amount < usize::MAX);
            }
            e.amount = e.amount + 1;
            let ghost q0 = old(quota)@;
            let ghost e2 = e;
            quota.insert(i, e);
            proof {
                assert(quota@ =~= q0.update(i as int, e2));
                assert forall|id2: AccountIdV| true implies spec_minted_amount(
                    q0.update(i as int, e2),
                    id2,
                ) == if q0[i as int].account_id@ == id2 && (forall|j: int|
                    0 <= j < i ==> q0[j].account_id@ != id2) {
                    e2.amount as nat
                } else {
                    spec_minted_amount(q0, id2)
                } by {
                    lemma_minted_amount_update(q0, i as int, e2, id2);
                }
            }
            return ;
        }
        i = i + 1;
    }
    proof {
        lemma_minted_amount_none(quota@, account_id@);
    }
    let e = MintedEntry { account_id: crate::identity::clone_account_id(account_id), amount: 1 };
    let ghost q0 = quota@;
    let ghost e2 = e;
    quota.push(e);
    proof {
        assert(quota@ =~= q0.push(e2));
        assert forall|id2: AccountIdV| true implies spec_minted_amount(q0.push(e2), id2) == if
            spec_has_minted_entry(q0, id2) {
            spec_minted_amount(q0, id2)
        } else if e2.account_id@ == id2 {
            e2.amount as nat
        } else {
            0
        } by {
            lemma_minted_amount_push(q0, e2, id2);
        }
        assert forall|id2: AccountIdV| id2 != account_id@ && spec_has_minted_entry(q0, id2)
            implies spec_minted_amount(q0.push(e2), id2) == spec_minted_amount(q0, id2) by {}
        assert forall|id2: AccountIdV| id2 != account_id@ && !spec_has_minted_entry(q0, id2)
            implies spec_minted_amount(q0, id2) == 0 by {
            lemma_has_minted_entry_none(q0, id2);
        }
    }
}

proof fn lemma_has_minted_entry_none(q: Seq<MintedEntry>, id: AccountIdV)
    requires
        !spec_has_minted_entry(q, id),
    ensures
        spec_minted_amount(q, id) == 0,
    decreases q.len(),
{
    if q.len() > 0 {
        lemma_has_minted_entry_none(q.skip(1), id);
    }
}

} // verus!
