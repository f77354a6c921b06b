//! Per-ledger persistent state of the hub, and the asset records it
//! manages through the token-ownership collaborator.

use vstd::prelude::*;

use crate::error::AppError;
use crate::identity::AccountId;
use crate::metadata::spec_opt_metadata;
use crate::metadata::spec_opt_str;
use crate::metadata::Metadata;
use crate::metadata::MetadataV;

verus! {

/// Per-ledger hub configuration: the next sequence number to allocate and
/// the fixed uri and metadata used for locally minted "lost" assets.
pub struct Config {
    pub next_token_id: u64,
    pub lost_token_uri: String,
    pub lost_metadata: Metadata,
}

/// The account the hub manages on this ledger.
pub struct Account {
    pub account_id: AccountId,
}

/// One asset record held by the token-ownership collaborator: the
/// chain-scoped id, the current custodian address, a uri and an opaque
/// metadata extension.
pub struct Token {
    pub token_id: String,
    pub owner: String,
    pub token_uri: Option<String>,
    pub extension: Option<Metadata>,
}

/// The mathematical view of one asset record.
pub struct TokenV {
    pub token_id: Seq<char>,
    pub owner: Seq<char>,
    pub token_uri: Option<Seq<char>>,
    pub extension: Option<MetadataV>,
}

impl View for Token {
    type V = TokenV;

    open spec fn view(&self) -> TokenV {
        TokenV {
            token_id: self.token_id@,
            owner: self.owner@,
            token_uri: spec_opt_str(self.token_uri),
            extension: spec_opt_metadata(self.extension),
        }
    }
}

/// One registered module on this ledger: its id and its resolved
/// on-ledger address.
pub struct ModuleEntry {
    pub module_id: String,
    pub address: String,
}

/// The registered address of module `id`, if any.
pub open spec fn spec_module_lookup(mods: Seq<ModuleEntry>, id: Seq<char>) -> Option<Seq<char>>
    decreases mods.len(),
{
    if mods.len() == 0 {
        None
    } else if mods[0].module_id@ == id {
        Some(mods[0].address@)
    } else {
        spec_module_lookup(mods.skip(1), id)
    }
}

/// Resolves a module id to its registered on-ledger address.
pub fn module_lookup(mods: &Vec<ModuleEntry>, id: &String) -> (r: Option<String>)
    ensures
        match r {
            Some(addr) => spec_module_lookup(mods@, id@) == Some(addr@),
            None => spec_module_lookup(mods@, id@) is None,
        },
{
    let mut i: usize = 0;
    proof {
        assert(mods@.skip(0) =~= mods@);
    }
    while i < mods.len()
        invariant
            0 <= i <= mods@.len(),
            spec_module_lookup(mods@, id@) == spec_module_lookup(mods@.skip(i as int), id@),
        decreases mods@.len() - i,
    {
        proof {
            assert(mods@.skip(i as int)[0] == mods@[i as int]);
            assert(mods@.skip(i as int).skip(1) =~= mods@.skip(i as int + 1));
        }
        if mods[i].module_id.eq(id) {
            return Some(mods[i].address.clone());
        }
        i = i + 1;
    }
    None
}

/// The record for `token_id` among `tokens`, if any.
pub open spec fn spec_find_token(tokens: Seq<Token>, token_id: Seq<char>) -> Option<Token>
    decreases tokens.len(),
{
    if tokens.len() == 0 {
        None
    } else if tokens[0].token_id@ == token_id {
        Some(tokens[0])
    } else {
        spec_find_token(tokens.skip(1), token_id)
    }
}

/// Whether `tokens` holds a record for `token_id`.
pub open spec fn spec_has_token(tokens: Seq<Token>, token_id: Seq<char>) -> bool {
    spec_find_token(tokens, token_id) is Some
}

/// Looks up the record for `token_id`.
pub fn find_token(tokens: &Vec<Token>, token_id: &String) -> (r: Option<usize>)
    ensures
        match r {
            Some(i) => 0 <= i < tokens@.len() && tokens@[i as int].token_id@ == token_id@
                && spec_find_token(tokens@, token_id@) == Some(tokens@[i as int]) && (forall|
                j: int,
            |
                0 <= j < i ==> tokens@[j].token_id@ != token_id@),
            None => spec_find_token(tokens@, token_id@) is None && (forall|j: int|
                0 <= j < tokens@.len() ==> tokens@[j].token_id@ != token_id@),
        },
{
    let mut i: usize = 0;
    proof {
        assert(tokens@.skip(0) =~= tokens@);
    }
    while i < tokens.len()
        invariant
            0 <= i <= tokens@.len(),
            forall|j: int| 0 <= j < i ==> tokens@[j].token_id@ != token_id@,
            spec_find_token(tokens@, token_id@) == spec_find_token(tokens@.skip(i as int), token_id@),
        decreases tokens@.len() - i,
    {
        proof {
            assert(tokens@.skip(i as int)[0] == tokens@[i as int]);
            assert(tokens@.skip(i as int).skip(1) =~= tokens@.skip(i as int + 1));
        }
        if tokens[i].token_id.eq(token_id) {
            return Some(i);
        }
        i = i + 1;
    }
    None
}

/// A store without a record for `token_id` finds none.
pub proof fn lemma_find_token_none(tokens: Seq<Token>, token_id: Seq<char>)
    requires
        forall|j: int| 0 <= j < tokens.len() ==> tokens[j].token_id@ != token_id,
    ensures
        spec_find_token(tokens, token_id) is None,
    decreases tokens.len(),
{
    if tokens.len() > 0 {
        assert(forall|j: int|
            0 <= j < tokens.skip(1).len() ==> tokens.skip(1)[j] == tokens[j + 1] && tokens[j
                + 1].token_id@ != token_id);
        lemma_find_token_none(tokens.skip(1), token_id);
    }
}

/// A store that finds no record for `token_id` holds none.
pub proof fn lemma_find_token_none_entries(tokens: Seq<Token>, token_id: Seq<char>)
    requires
        spec_find_token(tokens, token_id) is None,
    ensures
        forall|j: int| 0 <= j < tokens.len() ==> tokens[j].token_id@ != token_id,
    decreases tokens.len(),
{
    if tokens.len() > 0 {
        lemma_find_token_none_entries(tokens.skip(1), token_id);
        assert(forall|j: int| 1 <= j < tokens.len() ==> tokens[j] == tokens.skip(1)[j - 1]);
    }
}

/// The first matching record is the one found.
pub proof fn lemma_find_token_first(tokens: Seq<Token>, i: int, token_id: Seq<char>)
    requires
        0 <= i < tokens.len(),
        tokens[i].token_id@ == token_id,
        forall|j: int| 0 <= j < i ==> tokens[j].token_id@ != token_id,
    ensures
        spec_find_token(tokens, token_id) == Some(tokens[i]),
    decreases tokens.len(),
{
    if i > 0 {
        assert(tokens.skip(1)[i - 1] == tokens[i]);
        assert(forall|j: int|
            0 <= j < i - 1 ==> tokens.skip(1)[j] == tokens[j + 1] && tokens[j + 1].token_id@
                != token_id);
        lemma_find_token_first(tokens.skip(1), i - 1, token_id);
    }
}

/// Replacing a record with one that keeps its id leaves every other
/// lookup unchanged.
pub proof fn lemma_find_token_update_same_id(tokens: Seq<Token>, i: int, t: Token, id2: Seq<char>)
    requires
        0 <= i < tokens.len(),
        t.token_id@ == tokens[i].token_id@,
        id2 != tokens[i].token_id@,
    ensures
        spec_find_token(tokens.update(i, t), id2) == spec_find_token(tokens, id2),
    decreases tokens.len(),
{
    if i == 0 {
        assert(tokens.update(0, t)[0] == t);
        assert(tokens.update(0, t).skip(1) =~= tokens.skip(1));
    } else {
        assert(tokens.update(i, t)[0] == tokens[0]);
        assert(tokens.update(i, t).skip(1) =~= tokens.skip(1).update(i - 1, t));
        assert(tokens.skip(1)[i - 1] == tokens[i]);
        lemma_find_token_update_same_id(tokens.skip(1), i - 1, t, id2);
    }
}

/// Removing one record leaves the lookup of every other id unchanged.
pub proof fn lemma_find_token_remove(tokens: Seq<Token>, i: int, id2: Seq<char>)
    requires
        0 <= i < tokens.len(),
        tokens[i].token_id@ != id2,
    ensures
        spec_find_token(tokens.remove(i), id2) == spec_find_token(tokens, id2),
    decreases tokens.len(),
{
    if i == 0 {
        assert(tokens.remove(0) =~= tokens.skip(1));
    } else {
        assert(tokens.remove(i)[0] == tokens[0]);
        assert(tokens.remove(i).skip(1) =~= tokens.skip(1).remove(i - 1));
        assert(tokens.skip(1)[i - 1] == tokens[i]);
        lemma_find_token_remove(tokens.skip(1), i - 1, id2);
    }
}

/// Appending one record leaves the lookup of every other id unchanged.
pub proof fn lemma_find_token_push(tokens: Seq<Token>, t: Token, id2: Seq<char>)
    requires
        t.token_id@ != id2,
    ensures
        spec_find_token(tokens.push(t), id2) == spec_find_token(tokens, id2),
    decreases tokens.len(),
{
    if tokens.len() == 0 {
        assert(tokens.push(t)[0] == t);
        assert(tokens.push(t).skip(1) =~= Seq::<Token>::empty());
        assert(spec_find_token(Seq::<Token>::empty(), id2) is None);
    } else {
        assert(tokens.push(t)[0] == tokens[0]);
        assert(tokens.push(t).skip(1) =~= tokens.skip(1).push(t));
        lemma_find_token_push(tokens.skip(1), t, id2);
        if tokens[0].token_id@ == id2 {
            assert(spec_find_token(tokens.push(t), id2) == Some(tokens[0]));
            assert(spec_find_token(tokens, id2) == Some(tokens[0]));
        } else {
            assert(spec_find_token(tokens.push(t), id2) == spec_find_token(
                tokens.skip(1).push(t),
                id2,
            ));
            assert(spec_find_token(tokens, id2) == spec_find_token(tokens.skip(1), id2));
        }
    }
}

/// Creates a record on the token ledger. The collaborator refuses a mint
/// of an id it already holds; on success the new record is appended and
/// nothing else changes.
pub fn apply_mint(
    tokens: &mut Vec<Token>,
    token_id: String,
    owner: String,
    token_uri: Option<String>,
    extension: Option<Metadata>,
) -> (r: Result<(), AppError>)
    ensures
        match r {
            Ok(_) => {
                &&& !spec_has_token(old(tokens)@, token_id@)
                &&& final(tokens)@.len() == old(tokens)@.len() + 1
                &&& forall|j: int|
                    0 <= j < old(tokens)@.len() ==> final(tokens)@[j] == old(tokens)@[j]
                &&& final(tokens)@.last().token_id@ == token_id@
                &&& final(tokens)@.last().owner@ == owner@
                &&& spec_opt_str(final(tokens)@.last().token_uri) == spec_opt_str(token_uri)
                &&& spec_opt_metadata(final(tokens)@.last().extension) == spec_opt_metadata(
                    extension,
                )
                &&& spec_find_token(final(tokens)@, token_id@) == Some(final(tokens)@.last())
            },
            Err(e) => spec_has_token(old(tokens)@, token_id@) && final(tokens)@ == old(tokens)@
                && e is Std,
        },
{
    if let Some(_) = find_token(tokens, &token_id) {
        return Err(AppError::Std(String::from_str("token already minted")));
    }
    let ghost t0 = tokens@;
    let t = Token { token_id, owner, token_uri, extension };
    let ghost tv = t;
    tokens.push(t);
    proof {
        assert(tokens@ =~= t0.push(tv));
        assert(tokens@.last() == tv);
        assert(forall|j: int| 0 <= j < tokens@.len() - 1 ==> tokens@[j] == t0[j]);
        lemma_find_token_first(tokens@, tokens@.len() - 1, tv.token_id@);
    }
    Ok(())
}

/// Transfers custody of one record to `recipient`. The collaborator
/// refuses a transfer of an id it does not hold; on success only that
/// record's custodian changes.
pub fn apply_transfer(tokens: &mut Vec<Token>, token_id: &String, recipient: &String) -> (r:
    Result<(), AppError>)
    ensures
        match r {
            Ok(_) => exists|i: int|
                #![trigger old(tokens)@[i]]
                {
                    &&& 0 <= i < old(tokens)@.len()
                    &&& old(tokens)@[i].token_id@ == token_id@
                    &&& final(tokens)@.len() == old(tokens)@.len()
                    &&& final(tokens)@[i].token_id@ == old(tokens)@[i].token_id@
                    &&& final(tokens)@[i].owner@ == recipient@
                    &&& final(tokens)@[i].token_uri == old(tokens)@[i].token_uri
                    &&& final(tokens)@[i].extension == old(tokens)@[i].extension
                    &&& spec_find_token(final(tokens)@, token_id@) == Some(final(tokens)@[i])
                    &&& spec_find_token(old(tokens)@, token_id@) == Some(old(tokens)@[i])
                    &&& forall|j: int|
                        0 <= j < old(tokens)@.len() && j != i ==> final(tokens)@[j] == old(
                            tokens,
                        )@[j]
                },
            Err(e) => !spec_has_token(old(tokens)@, token_id@) && final(tokens)@ == old(tokens)@
                && e is Std,
        },
{
    match find_token(tokens, token_id) {
        None => Err(AppError::Std(String::from_str("token not found"))),
        Some(i) => {
            let ghost t0 = tokens@;
            let mut t = tokens.remove(i);
            t.owner = recipient.clone();
            let ghost tv = t;
            tokens.insert(i, t);
            proof {
                assert(tokens@ =~= t0.update(i as int, tv));
                assert(forall|j: int| 0 <= j < t0.len() && j != i ==> tokens@[j] == t0[j]);
                lemma_find_token_first(tokens@, i as int, token_id@);
                lemma_find_token_first(t0, i as int, token_id@);
                assert({
                    &&& 0 <= i < t0.len()
                    &&& t0[i as int].token_id@ == token_id@
                    &&& tokens@.len() == t0.len()
                    &&& tokens@[i as int].token_id@ == t0[i as int].token_id@
                    &&& tokens@[i as int].owner@ == recipient@
                    &&& tokens@[i as int].token_uri == t0[i as int].token_uri
                    &&& tokens@[i as int].extension == t0[i as int].extension
                    &&& spec_find_token(tokens@, token_id@) == Some(tokens@[i as int])
                    &&& spec_find_token(t0, token_id@) == Some(t0[i as int])
                    &&& forall|j: int| 0 <= j < t0.len() && j != i ==> tokens@[j] == t0[j]
                });
            }
            Ok(())
        },
    }
}

/// Destroys one record. The collaborator refuses a burn of an id it does
/// not hold; on success exactly that record disappears.
pub fn apply_burn(tokens: &mut Vec<Token>, token_id: &String) -> (r: Result<(), AppError>)
    ensures
        match r {
            Ok(_) => exists|i: int|
                #![trigger old(tokens)@.remove(i)]
                {
                    &&& 0 <= i < old(tokens)@.len()
                    &&& old(tokens)@[i].token_id@ == token_id@
                    &&& final(tokens)@ == old(tokens)@.remove(i)
                    &&& forall|j: int| 0 <= j < i ==> old(tokens)@[j].token_id@ != token_id@
                },
            Err(e) => !spec_has_token(old(tokens)@, token_id@) && final(tokens)@ == old(tokens)@
                && e is Std,
        },
{
    match find_token(tokens, token_id) {
        None => Err(AppError::Std(String::from_str("token not found"))),
        Some(i) => {
            let ghost t0 = tokens@;
            tokens.remove(i);
            proof {
                assert({
                    &&& 0 <= i < t0.len()
                    &&& t0[i as int].token_id@ == token_id@
                    &&& tokens@ == t0.remove(i as int)
                    &&& forall|j: int| 0 <= j < i ==> t0[j].token_id@ != token_id@
                });
            }
            Ok(())
        },
    }
}

} // verus!
