//! The admission gate: both privileged inbound surfaces check the
//! caller's declared trust-group membership before anything else runs.
//!
//! A module id has the form `"<namespace>:<name>"`; the namespace is the
//! trust-group label that admission holds against the ledger's configured
//! trusted namespace.

use vstd::prelude::*;
use vstd::string::StrSliceExecFns;

use crate::error::AppError;

verus! {

/// The position of the first `:` in a string, or `-1` if there is none.
pub open spec fn spec_first_colon(s: Seq<char>) -> int
    decreases s.len(),
{
    if s.len() == 0 {
        -1
    } else if s[0] == ':' {
        0
    } else if spec_first_colon(s.skip(1)) == -1 {
        -1
    } else {
        1 + spec_first_colon(s.skip(1))
    }
}

/// The namespace part of a module id: everything before the first `:`,
/// or nothing when the id is not of the `"<namespace>:<name>"` form.
pub open spec fn spec_module_namespace(module_id: Seq<char>) -> Option<Seq<char>> {
    if spec_first_colon(module_id) >= 0 {
        Some(module_id.subrange(0, spec_first_colon(module_id)))
    } else {
        None
    }
}

proof fn lemma_first_colon_at(s: Seq<char>, i: int)
    requires
        0 <= i < s.len(),
        s[i] == ':',
        forall|j: int| 0 <= j < i ==> s[j] != ':',
    ensures
        spec_first_colon(s) == i,
    decreases s.len(),
{
    if i > 0 {
        assert(s.skip(1)[i - 1] == ':');
        assert(forall|j: int| 0 <= j < i - 1 ==> s.skip(1)[j] == s[j + 1] && s[j + 1] != ':');
        lemma_first_colon_at(s.skip(1), i - 1);
    }
}

proof fn lemma_no_colon(s: Seq<char>)
    requires
        forall|j: int| 0 <= j < s.len() ==> s[j] != ':',
    ensures
        spec_first_colon(s) == -1,
    decreases s.len(),
{
    if s.len() > 0 {
        assert(forall|j: int| 0 <= j < s.skip(1).len() ==> s.skip(1)[j] == s[j + 1] && s[j + 1]
            != ':');
        lemma_no_colon(s.skip(1));
    }
}

/// Extracts the namespace from a module id of the form
/// `"<namespace>:<name>"`.
pub fn module_namespace(module_id: &String) -> (r: Option<String>)
    ensures
        match r {
            Some(ns) => spec_module_namespace(module_id@) == Some(ns@),
            None => spec_module_namespace(module_id@) is None,
        },
{
    let s = module_id.as_str();
    let len = s.unicode_len();
    let mut i: usize = 0;
    while i < len
        invariant
            0 <= i <= len,
            len == module_id@.len(),
            s@ == module_id@,
            forall|j: int| 0 <= j < i ==> module_id@[j] != ':',
        decreases len - i,
    {
        if s.get_char(i) == ':' {
            proof {
                lemma_first_colon_at(module_id@, i as int);
            }
            let ns = s.substring_char(0, i);
            return Some(ns.to_owned());
        }
        i = i + 1;
    }
    proof {
        lemma_no_colon(module_id@);
    }
    None
}

/// Cross-ledger admission check: the declared namespace of the sending
/// module, as authenticated by the transport, must literal-equal this
/// ledger's trusted namespace; anything else is turned away as a
/// wrong-namespace error.
pub fn check_sender_namespace(declared: &String, trusted: &String) -> (r: Result<(), AppError>)
    ensures
        r is Ok <==> declared@ == trusted@,
        r is Err ==> r->Err_0 is WrongNamespace,
{
    if declared.eq(trusted) {
        Ok(())
    } else {
        Err(AppError::WrongNamespace)
    }
}

/// Same-ledger privileged-call admission check: the caller's address must
/// equal the registered address of the module it claims to be, and that
/// module id's namespace must equal the trusted namespace.
pub fn check_local_module(
    module_addr: &String,
    sender: &String,
    module_id: &String,
    trusted_namespace: &String,
) -> (r: Result<(), AppError>)
    ensures
        match r {
            Ok(_) => module_addr@ == sender@ && spec_module_namespace(module_id@) == Some(
                trusted_namespace@,
            ),
            Err(e) => match e {
                AppError::Unauthorized => module_addr@ != sender@,
                AppError::Std(_) => module_addr@ == sender@ && spec_module_namespace(module_id@)
                    is None,
                AppError::WrongNamespace => module_addr@ == sender@ && spec_module_namespace(
                    module_id@,
                ) is Some && spec_module_namespace(module_id@) != Some(trusted_namespace@),
                _ => false,
            },
        },
{
    if !module_addr.eq(sender) {
        return Err(AppError::Unauthorized);
    }
    match module_namespace(module_id) {
        None => Err(AppError::Std(String::from_str("invalid module id"))),
        Some(ns) => {
            if ns.eq(trusted_namespace) {
                Ok(())
            } else {
                Err(AppError::WrongNamespace)
            }
        },
    }
}

} // verus!
