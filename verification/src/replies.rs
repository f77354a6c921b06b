//! The reply that follows a remote account's creation: the created
//! account's identity is read back from the host's events — its sequence
//! number and its hop trace, rendered as `"local"` or as ledger names
//! joined by `>` — and cross-ledger operation is enabled for it.

use vstd::prelude::*;
use vstd::string::StrSliceExecFns;
use vstd::string::StringExecFns;

use crate::error::AppError;
use crate::helpers::parse_u32;
use crate::helpers::spec_decimal_value;
use crate::helpers::spec_is_decimal_str;
use crate::identity::spec_trace_view;
use crate::identity::AccountId;
use crate::state::Account;

verus! {

/// One key/value attribute of a host event.
pub struct EventAttribute {
    pub key: String,
    pub value: String,
}

/// One event the host emitted while executing a submessage.
pub struct Event {
    pub ty: String,
    pub attributes: Vec<EventAttribute>,
}

/// The attributes of the first event of type `ty`, if any.
pub open spec fn spec_find_event(events: Seq<Event>, ty: Seq<char>) -> Option<Event>
    decreases events.len(),
{
    if events.len() == 0 {
        None
    } else if events[0].ty@ == ty {
        Some(events[0])
    } else {
        spec_find_event(events.skip(1), ty)
    }
}

/// The value of the first attribute named `key`, if any.
pub open spec fn spec_find_attr(attrs: Seq<EventAttribute>, key: Seq<char>) -> Option<Seq<char>>
    decreases attrs.len(),
{
    if attrs.len() == 0 {
        None
    } else if attrs[0].key@ == key {
        Some(attrs[0].value@)
    } else {
        spec_find_attr(attrs.skip(1), key)
    }
}

/// Finds the first event of the given type.
fn find_event<'a>(events: &'a Vec<Event>, ty: &String) -> (r: Option<&'a Event>)
    ensures
        match r {
            Some(e) => spec_find_event(events@, ty@) == Some(*e),
            None => spec_find_event(events@, ty@) is None,
        },
{
    let mut i: usize = 0;
    proof {
        assert(events@.skip(0) =~= events@);
    }
    while i < events.len()
        invariant
            0 <= i <= events@.len(),
            spec_find_event(events@, ty@) == spec_find_event(events@.skip(i as int), ty@),
        decreases events@.len() - i,
    {
        proof {
            assert(events@.skip(i as int)[0] == events@[i as int]);
            assert(events@.skip(i as int).skip(1) =~= events@.skip(i as int + 1));
        }
        if events[i].ty.eq(ty) {
            return Some(&events[i]);
        }
        i = i + 1;
    }
    None
}

/// Finds the value of the first attribute with the given key.
fn find_attr(attrs: &Vec<EventAttribute>, key: &String) -> (r: Option<String>)
    ensures
        match r {
            Some(v) => spec_find_attr(attrs@, key@) == Some(v@),
            None => spec_find_attr(attrs@, key@) is None,
        },
{
    let mut i: usize = 0;
    proof {
        assert(attrs@.skip(0) =~= attrs@);
    }
    while i < attrs.len()
        invariant
            0 <= i <= attrs@.len(),
            spec_find_attr(attrs@, key@) == spec_find_attr(attrs@.skip(i as int), key@),
        decreases attrs@.len() - i,
    {
        proof {
            assert(attrs@.skip(i as int)[0] == attrs@[i as int]);
            assert(attrs@.skip(i as int).skip(1) =~= attrs@.skip(i as int + 1));
        }
        if attrs[i].key.eq(key) {
            return Some(attrs[i].value.clone());
        }
        i = i + 1;
    }
    None
}

/// The position of the first `>` in a string, or its length if there is
/// none.
pub open spec fn spec_first_gt(s: Seq<char>) -> int
    decreases s.len(),
{
    if s.len() == 0 {
        0
    } else if s[0] == '>' {
        0
    } else {
        1 + spec_first_gt(s.skip(1))
    }
}

proof fn lemma_first_gt_at(s: Seq<char>, i: int)
    requires
        0 <= i <= s.len(),
        forall|j: int| 0 <= j < i ==> s[j] != '>',
        i < s.len() ==> s[i] == '>',
    ensures
        spec_first_gt(s) == i,
    decreases s.len(),
{
    if s.len() > 0 && i > 0 {
        assert(forall|j: int| 0 <= j < i - 1 ==> s.skip(1)[j] == s[j + 1] && s[j + 1] != '>');
        if i < s.len() {
            assert(s.skip(1)[i - 1] == s[i]);
        }
        lemma_first_gt_at(s.skip(1), i - 1);
    }
}

/// The first separator position never leaves the string.
proof fn lemma_first_gt_range(s: Seq<char>)
    ensures
        0 <= spec_first_gt(s) <= s.len(),
    decreases s.len(),
{
    if s.len() > 0 && s[0] != '>' {
        lemma_first_gt_range(s.skip(1));
    }
}

/// The segments of a rendered hop trace: the parts of the string between
/// its `>` separators, in order.
pub open spec fn spec_split_gt(s: Seq<char>) -> Seq<Seq<char>>
    decreases s.len(),
    via spec_split_gt_decreases
{
    let k = spec_first_gt(s);
    if k >= s.len() {
        seq![s]
    } else {
        seq![s.subrange(0, k)] + spec_split_gt(s.skip(k + 1))
    }
}

#[via_fn]
proof fn spec_split_gt_decreases(s: Seq<char>) {
    lemma_first_gt_range(s);
}

/// Splits a rendered hop trace at its `>` separators.
pub fn split_gt(s: &String) -> (r: Vec<String>)
    ensures
        spec_trace_view(r@) == spec_split_gt(s@),
{
    let st = s.as_str();
    let len = st.unicode_len();
    let mut out: Vec<String> = Vec::new();
    let mut pos: usize = 0;
    proof {
        assert(s@.skip(0) =~= s@);
        assert(spec_trace_view(out@) =~= Seq::<Seq<char>>::empty());
        assert(spec_trace_view(out@) + spec_split_gt(s@) =~= spec_split_gt(s@));
    }
    loop
        invariant
            0 <= pos <= len,
            len == s@.len(),
            st@ == s@,
            spec_trace_view(out@) + spec_split_gt(s@.skip(pos as int)) == spec_split_gt(s@),
        decreases len - pos,
    {
        let mut j = pos;
        while j < len && st.get_char(j) != '>'
            invariant
                pos <= j <= len,
                len == s@.len(),
                st@ == s@,
                forall|w: int| pos <= w < j ==> s@[w] != '>',
            decreases len - j,
        {
            j = j + 1;
        }
        let part = st.substring_char(pos, j).to_owned();
        proof {
            let suffix = s@.skip(pos as int);
            assert(forall|w: int| 0 <= w < j - pos ==> suffix[w] == s@[w + pos] && s@[w + pos]
                != '>');
            if j < len {
                assert(suffix[j - pos as int] == s@[j as int]);
            }
            lemma_first_gt_at(suffix, j - pos as int);
            assert(part@ =~= suffix.subrange(0, j - pos as int));
        }
        let ghost out0 = out@;
        let ghost partv = part;
        out.push(part);
        proof {
            assert(out@ =~= out0.push(partv));
            assert(spec_trace_view(out@) =~= spec_trace_view(out0).push(partv@));
        }
        if j == len {
            proof {
                let suffix = s@.skip(pos as int);
                assert(suffix =~= suffix.subrange(0, j - pos as int));
                assert(spec_split_gt(suffix) =~= seq![suffix]);
                assert(spec_trace_view(out@) =~= spec_trace_view(out0) + spec_split_gt(suffix));
            }
            return out;
        }
        proof {
            let suffix = s@.skip(pos as int);
            assert(suffix.skip(j - pos as int + 1) =~= s@.skip(j as int + 1));
            assert(spec_split_gt(suffix) =~= seq![suffix.subrange(0, j - pos as int)]
                + spec_split_gt(s@.skip(j as int + 1)));
            assert(spec_trace_view(out@) + spec_split_gt(s@.skip(j as int + 1)) =~= spec_trace_view(
                out0,
            ) + spec_split_gt(suffix));
        }
        pos = j + 1;
    }
}

/// The hop trace a rendered trace string denotes: `"local"` is the empty
/// trace; anything else is the `>`-separated list of ledger names.
pub open spec fn spec_parse_trace(s: Seq<char>) -> Seq<Seq<char>> {
    if s == "local"@ {
        Seq::empty()
    } else {
        spec_split_gt(s)
    }
}

/// Reads a rendered hop trace.
pub fn parse_trace(s: &String) -> (r: Vec<String>)
    ensures
        spec_trace_view(r@) == spec_parse_trace(s@),
{
    let local = String::from_str("local");
    if s.eq(&local) {
        let r: Vec<String> = Vec::new();
        proof {
            assert(spec_trace_view(r@) =~= Seq::<Seq<char>>::empty());
        }
        r
    } else {
        split_gt(s)
    }
}

/// The follow-up action the account-creation reply asks the host to
/// perform: update the created account's settings so that cross-ledger
/// operation is enabled for it, addressed to that account's manager.
pub enum ReplyAction {
    UpdateIbcEnabled { account_id: AccountId, enabled: bool },
}

/// What handling the account-creation reply returns: the identity read
/// from the first abstract-typed event's `account_sequence` and `trace`
/// attributes, together with exactly one settings update that enables
/// cross-ledger operation for that account; a collaborator error when the
/// event or either attribute is missing.
pub open spec fn spec_account_creation_post(
    events: Seq<Event>,
    event_type: Seq<char>,
    r: Result<(Account, ReplyAction), AppError>,
) -> bool {
    let ev = spec_find_event(events, event_type);
    match r {
        Ok((account, action)) => (ev matches Some(e) && {
            let seq_attr = spec_find_attr(e.attributes@, "account_sequence"@);
            let trace_attr = spec_find_attr(e.attributes@, "trace"@);
            &&& seq_attr is Some
            &&& trace_attr is Some
            &&& spec_is_decimal_str(seq_attr->Some_0)
            &&& account.account_id.seq as nat == spec_decimal_value(seq_attr->Some_0)
            &&& crate::identity::spec_trace(account.account_id) == spec_parse_trace(
                trace_attr->Some_0,
            )
            &&& (action matches ReplyAction::UpdateIbcEnabled { account_id, enabled } && {
                &&& account_id.seq == account.account_id.seq
                &&& crate::identity::spec_trace(account_id) == crate::identity::spec_trace(
                    account.account_id,
                )
                &&& enabled == true
            })
        }),
        Err(e) => e is Std && (ev is None || (ev matches Some(e2) && (spec_find_attr(
            e2.attributes@,
            "account_sequence"@,
        ) is None || spec_find_attr(e2.attributes@, "trace"@) is None))),
    }
}

/// Handles the reply that follows a remote account's creation: scans the
/// emitted events for the abstract event, reads the created account's
/// sequence number and hop trace from its attributes, records the
/// account, and asks the host to enable cross-ledger operation for it.
pub fn account_creation_reply(events: &Vec<Event>, abstract_event_type: &String) -> (r: Result<
    (Account, ReplyAction),
    AppError,
>)
    requires
        ({
            let ev = spec_find_event(events@, abstract_event_type@);
            ev matches Some(e) ==> (spec_find_attr(e.attributes@, "account_sequence"@)
                matches Some(v) ==> spec_is_decimal_str(v) && spec_decimal_value(v) <= u32::MAX)
        }),
    ensures
        spec_account_creation_post(events@, abstract_event_type@, r),
{
    let event = match find_event(events, abstract_event_type) {
        None => {
            return Err(AppError::Std(String::from_str("Abstract event type not found")));
        },
        Some(e) => e,
    };
    let seq_key = String::from_str("account_sequence");
    let acc_seq = match find_attr(&event.attributes, &seq_key) {
        None => {
            return Err(AppError::Std(String::from_str("Account sequence not found")));
        },
        Some(v) => v,
    };
    let trace_key = String::from_str("trace");
    let trace_str = match find_attr(&event.attributes, &trace_key) {
        None => {
            return Err(AppError::Std(String::from_str("Account trace not found")));
        },
        Some(v) => v,
    };
    let seq = match parse_u32(&acc_seq) {
        None => {
            return unreached();
        },
        Some(n) => n,
    };
    let trace = parse_trace(&trace_str);
    let account = Account { account_id: AccountId { seq, trace } };
    let action = ReplyAction::UpdateIbcEnabled {
        account_id: crate::identity::clone_account_id(&account.account_id),
        enabled: true,
    };
    Ok((account, action))
}

} // verus!
