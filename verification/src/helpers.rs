//! Deterministic identifier allocation: chain-scoped asset ids of the form
//! `"<chain-name>><counter>"`, plus the decimal rendering and chain-name
//! derivation they are built from.

use vstd::prelude::*;
use vstd::string::StrSliceExecFns;
use vstd::string::StringExecFns;

use crate::state::Config;

verus! {

/// The character for one decimal digit.
pub open spec fn spec_digit_char(d: nat) -> char
    recommends
        d < 10,
{
    if d == 0 {
        '0'
    } else if d == 1 {
        '1'
    } else if d == 2 {
        '2'
    } else if d == 3 {
        '3'
    } else if d == 4 {
        '4'
    } else if d == 5 {
        '5'
    } else if d == 6 {
        '6'
    } else if d == 7 {
        '7'
    } else if d == 8 {
        '8'
    } else {
        '9'
    }
}

/// The numeric value of one decimal digit character.
pub open spec fn spec_char_digit(c: char) -> nat {
    if c == '0' {
        0
    } else if c == '1' {
        1
    } else if c == '2' {
        2
    } else if c == '3' {
        3
    } else if c == '4' {
        4
    } else if c == '5' {
        5
    } else if c == '6' {
        6
    } else if c == '7' {
        7
    } else if c == '8' {
        8
    } else {
        9
    }
}

/// The usual decimal rendering of a natural number, without leading zeros
/// (except for the number zero itself).
pub open spec fn spec_decimal(n: nat) -> Seq<char>
    decreases n,
{
    if n < 10 {
        seq![spec_digit_char(n)]
    } else {
        spec_decimal(n / 10).push(spec_digit_char(n % 10))
    }
}

/// The value a decimal digit string denotes.
pub open spec fn spec_decimal_value(s: Seq<char>) -> nat
    decreases s.len(),
{
    if s.len() == 0 {
        0
    } else {
        spec_decimal_value(s.drop_last()) * 10 + spec_char_digit(s.last())
    }
}

/// Rendering a number and reading the digits back yields the number:
/// the decimal rendering loses nothing.
pub proof fn lemma_decimal_value_of_decimal(n: nat)
    ensures
        spec_decimal_value(spec_decimal(n)) == n,
    decreases n,
{
    if n < 10 {
        let s = spec_decimal(n);
        assert(s.len() == 1);
        assert(s.drop_last() =~= Seq::<char>::empty());
        assert(spec_decimal_value(s.drop_last()) == 0);
        assert(s.last() == spec_digit_char(n));
        assert(spec_char_digit(spec_digit_char(n)) == n);
        assert(spec_decimal_value(s) == spec_decimal_value(s.drop_last()) * 10 + spec_char_digit(
            s.last(),
        ));
    } else {
        lemma_decimal_value_of_decimal(n / 10);
        let s = spec_decimal(n);
        assert(s.drop_last() =~= spec_decimal(n / 10));
        assert(s.last() == spec_digit_char(n % 10));
        vstd::arithmetic::div_mod::lemma_mod_bound(n as int, 10);
        assert(spec_char_digit(spec_digit_char(n % 10)) == n % 10);
        assert(s.len() > 0);
        assert(spec_decimal_value(s) == spec_decimal_value(s.drop_last()) * 10 + spec_char_digit(
            s.last(),
        ));
        vstd::arithmetic::div_mod::lemma_fundamental_div_mod(n as int, 10);
        assert(spec_decimal_value(s) == (n / 10) * 10 + n % 10);
    }
}

/// Two distinct numbers never share a decimal rendering.
pub proof fn lemma_decimal_injective(a: nat, b: nat)
    requires
        spec_decimal(a) == spec_decimal(b),
    ensures
        a == b,
{
    lemma_decimal_value_of_decimal(a);
    lemma_decimal_value_of_decimal(b);
}

/// Appends the character for one decimal digit.
fn push_digit(s: &mut String, d: u64)
    requires
        d < 10,
    ensures
        final(s)@ == old(s)@.push(spec_digit_char(d as nat)),
{
    let digit: &str = if d == 0 {
        "0"
    } else if d == 1 {
        "1"
    } else if d == 2 {
        "2"
    } else if d == 3 {
        "3"
    } else if d == 4 {
        "4"
    } else if d == 5 {
        "5"
    } else if d == 6 {
        "6"
    } else if d == 7 {
        "7"
    } else if d == 8 {
        "8"
    } else {
        "9"
    };
    proof {
        reveal_strlit("0");
        reveal_strlit("1");
        reveal_strlit("2");
        reveal_strlit("3");
        reveal_strlit("4");
        reveal_strlit("5");
        reveal_strlit("6");
        reveal_strlit("7");
        reveal_strlit("8");
        reveal_strlit("9");
        assert(digit@ =~= seq![spec_digit_char(d as nat)]);
    }
    s.append(digit);
    proof {
        assert(s@ =~= old(s)@.push(spec_digit_char(d as nat)));
    }
}

/// Appends the decimal rendering of `n`.
fn append_decimal(s: &mut String, n: u64)
    ensures
        final(s)@ == old(s)@ + spec_decimal(n as nat),
    decreases n,
{
    if n < 10 {
        push_digit(s, n);
        proof {
            assert(s@ =~= old(s)@ + spec_decimal(n as nat));
        }
    } else {
        append_decimal(s, n / 10);
        push_digit(s, n % 10);
        proof {
            assert(s@ =~= old(s)@ + spec_decimal(n as nat));
        }
    }
}

/// The decimal rendering of `n`, as a string.
pub fn u64_to_decimal(n: u64) -> (r: String)
    ensures
        r@ == spec_decimal(n as nat),
{
    let mut s = String::new();
    append_decimal(&mut s, n);
    proof {
        assert(s@ =~= spec_decimal(n as nat));
    }
    s
}

/// The id of the asset allocated on the ledger named `chain` under
/// sequence number `n`.
pub open spec fn spec_token_id(chain: Seq<char>, n: nat) -> Seq<char> {
    chain + seq!['>'] + spec_decimal(n)
}

/// Renders an asset id: the ledger name, a `>` separator, and the decimal
/// sequence number.
pub fn format_token_id(chain: &String, n: u64) -> (r: String)
    ensures
        r@ == spec_token_id(chain@, n as nat),
{
    let mut s = chain.clone();
    proof {
        reveal_strlit(">");
        assert(">"@ =~= seq!['>']);
    }
    s.append(">");
    append_decimal(&mut s, n);
    proof {
        assert(s@ =~= spec_token_id(chain@, n as nat));
    }
    s
}

/// On one ledger, ids allocated under distinct sequence numbers are
/// distinct, so an id is never reused, not even after a burn.
pub proof fn lemma_token_id_injective(chain: Seq<char>, a: nat, b: nat)
    requires
        spec_token_id(chain, a) == spec_token_id(chain, b),
    ensures
        a == b,
{
    let ia = spec_token_id(chain, a);
    let da = spec_decimal(a);
    let db = spec_decimal(b);
    assert(da =~= ia.subrange(chain.len() as int + 1, ia.len() as int));
    assert(db =~= ia.subrange(chain.len() as int + 1, ia.len() as int));
    lemma_decimal_injective(a, b);
}

/// Whether a character is a decimal digit.
pub open spec fn spec_is_digit(c: char) -> bool {
    c == '0' || c == '1' || c == '2' || c == '3' || c == '4' || c == '5' || c == '6' || c == '7'
        || c == '8' || c == '9'
}

/// Whether a string is a plain decimal number: non-empty and all digits.
pub open spec fn spec_is_decimal_str(s: Seq<char>) -> bool {
    s.len() > 0 && forall|j: int| 0 <= j < s.len() ==> spec_is_digit(s[j])
}

/// The numeric value of a digit character, if it is one.
fn char_to_digit(c: char) -> (r: Option<u64>)
    ensures
        match r {
            Some(d) => spec_is_digit(c) && d as nat == spec_char_digit(c),
            None => !spec_is_digit(c),
        },
{
    if c == '0' {
        Some(0)
    } else if c == '1' {
        Some(1)
    } else if c == '2' {
        Some(2)
    } else if c == '3' {
        Some(3)
    } else if c == '4' {
        Some(4)
    } else if c == '5' {
        Some(5)
    } else if c == '6' {
        Some(6)
    } else if c == '7' {
        Some(7)
    } else if c == '8' {
        Some(8)
    } else if c == '9' {
        Some(9)
    } else {
        None
    }
}

/// A prefix of a digit string never denotes more than the whole string.
proof fn lemma_decimal_value_prefix(s: Seq<char>, i: int)
    requires
        0 <= i <= s.len(),
    ensures
        spec_decimal_value(s.subrange(0, i)) <= spec_decimal_value(s),
    decreases s.len() - i,
{
    if i == s.len() {
        assert(s.subrange(0, i) =~= s);
    } else {
        assert(s.subrange(0, i + 1).drop_last() =~= s.subrange(0, i));
        assert(spec_decimal_value(s.subrange(0, i + 1)) == spec_decimal_value(s.subrange(0, i))
            * 10 + spec_char_digit(s.subrange(0, i + 1).last()));
        lemma_decimal_value_prefix(s, i + 1);
    }
}

/// Reads a decimal number, exactly when the string is a plain decimal
/// number whose value fits.
pub fn parse_u32(s: &String) -> (r: Option<u32>)
    ensures
        match r {
            Some(n) => spec_is_decimal_str(s@) && spec_decimal_value(s@) == n as nat,
            None => !spec_is_decimal_str(s@) || spec_decimal_value(s@) > u32::MAX,
        },
{
    let st = s.as_str();
    let len = st.unicode_len();
    if len == 0 {
        return None;
    }
    let mut acc: u64 = 0;
    let mut i: usize = 0;
    proof {
        assert(s@.subrange(0, 0) =~= Seq::<char>::empty());
    }
    while i < len
        invariant
            0 <= i <= len,
            len == s@.len(),
            st@ == s@,
            acc as nat == spec_decimal_value(s@.subrange(0, i as int)),
            acc <= u32::MAX,
            forall|j: int| 0 <= j < i ==> spec_is_digit(s@[j]),
        decreases len - i,
    {
        let c = st.get_char(i);
        let d: u64 = match char_to_digit(c) {
            None => {
                return None;
            },
            Some(d) => d,
        };
        acc = acc * 10 + d;
        proof {
            assert(s@.subrange(0, i as int + 1).drop_last() =~= s@.subrange(0, i as int));
            assert(s@.subrange(0, i as int + 1).last() == s@[i as int]);
        }
        if acc > 0xffff_ffff {
            proof {
                lemma_decimal_value_prefix(s@, i as int + 1);
            }
            return None;
        }
        i = i + 1;
    }
    proof {
        assert(s@.subrange(0, len as int) =~= s@);
    }
    Some(acc as u32)
}

/// Ids allocated on differently named ledgers are distinct, as long as
/// ledger names never contain the `>` separator: the separator's first
/// position pins the name down.
pub proof fn lemma_token_id_distinct_chains(c1: Seq<char>, c2: Seq<char>, a: nat, b: nat)
    requires
        c1 != c2,
        forall|i: int| 0 <= i < c1.len() ==> c1[i] != '>',
        forall|i: int| 0 <= i < c2.len() ==> c2[i] != '>',
    ensures
        spec_token_id(c1, a) != spec_token_id(c2, b),
{
    if spec_token_id(c1, a) == spec_token_id(c2, b) {
        let s = spec_token_id(c1, a);
        assert(s[c1.len() as int] == '>');
        assert(s[c2.len() as int] == '>');
        if c1.len() == c2.len() {
            assert forall|i: int| 0 <= i < c1.len() implies c1[i] == c2[i] by {
                assert(s[i] == c1[i]);
                assert(spec_token_id(c2, b)[i] == c2[i]);
            }
            assert(c1 =~= c2);
        } else if c1.len() < c2.len() {
            assert(s[c1.len() as int] == c2[c1.len() as int]);
        } else {
            assert(s[c2.len() as int] == c1[c2.len() as int]);
        }
    }
}

/// The position of the last `-` in a string, or `-1` if there is none.
pub open spec fn spec_last_dash(s: Seq<char>) -> int
    decreases s.len(),
{
    if s.len() == 0 {
        -1
    } else if s.last() == '-' {
        s.len() - 1
    } else {
        spec_last_dash(s.drop_last())
    }
}

/// The name of a ledger, derived from its chain id by dropping the final
/// `-`-separated revision part (`"juno-1"` names the ledger `"juno"`).
pub open spec fn spec_chain_name(chain_id: Seq<char>) -> Seq<char> {
    chain_id.subrange(0, spec_last_dash(chain_id))
}

/// Whether a chain id carries the `-`-separated revision part that the
/// name derivation strips.
pub open spec fn spec_has_dash(s: Seq<char>) -> bool {
    exists|i: int| 0 <= i < s.len() && s[i] == '-'
}

proof fn lemma_last_dash_at(s: Seq<char>, i: int)
    requires
        0 <= i < s.len(),
        s[i] == '-',
        forall|j: int| i < j < s.len() ==> s[j] != '-',
    ensures
        spec_last_dash(s) == i,
    decreases s.len(),
{
    if i == s.len() - 1 {
    } else {
        assert(s.last() != '-');
        assert(s.drop_last()[i] == '-');
        lemma_last_dash_at(s.drop_last(), i);
    }
}

/// Derives the ledger name from a chain id: everything before the last
/// `-`. Chain ids carry a revision suffix, so a `-` is always present.
pub fn chain_name_from_chain_id(chain_id: &String) -> (r: String)
    requires
        spec_has_dash(chain_id@),
    ensures
        r@ == spec_chain_name(chain_id@),
{
    let s = chain_id.as_str();
    let len = s.unicode_len();
    let mut i = len;
    proof {
        let w = choose|w: int| 0 <= w < chain_id@.len() && chain_id@[w] == '-';
        assert(chain_id@[w] == '-');
    }
    loop
        invariant
            0 < i <= len,
            len == chain_id@.len(),
            s@ == chain_id@,
            forall|j: int| i <= j < len ==> chain_id@[j] != '-',
            exists|w: int| 0 <= w < i && chain_id@[w] == '-',
        decreases i,
    {
        i = i - 1;
        if s.get_char(i) == '-' {
            proof {
                lemma_last_dash_at(chain_id@, i as int);
            }
            let name = s.substring_char(0, i);
            return name.to_owned();
        }
        proof {
            let w = choose|w: int| 0 <= w < i + 1 && chain_id@[w] == '-';
            assert(0 <= w < i && chain_id@[w] == '-');
        }
    }
}

/// Previews the id the next allocation on this ledger will produce,
/// without allocating it.
pub fn next_token_id(config: &Config, chain_name: &String) -> (r: String)
    ensures
        r@ == spec_token_id(chain_name@, config.next_token_id as nat),
{
    format_token_id(chain_name, config.next_token_id)
}

/// Allocates the next id on this ledger: returns
/// `"<chain-name>><counter>"` for the current counter and advances the
/// counter, so no later allocation can return the same id.
pub fn next_token_id_mut(config: &mut Config, chain_name: &String) -> (r: String)
    requires
        old(config).next_token_id < u64::MAX,
    ensures
        r@ == spec_token_id(chain_name@, old(config).next_token_id as nat),
        final(config).next_token_id == old(config).next_token_id + 1,
        final(config).lost_token_uri == old(config).lost_token_uri,
        final(config).lost_metadata == old(config).lost_metadata,
{
    let id = format_token_id(chain_name, config.next_token_id);
    config.next_token_id = config.next_token_id + 1;
    id
}

/// The ids produced by `n` consecutive allocations starting at counter
/// value `start`.
pub open spec fn spec_allocation_ids(chain: Seq<char>, start: nat, n: nat) -> Seq<Seq<char>>
    decreases n,
{
    if n == 0 {
        Seq::empty()
    } else {
        spec_allocation_ids(chain, start, (n - 1) as nat).push(
            spec_token_id(chain, (start + n - 1) as nat),
        )
    }
}

/// Identifier allocation law: `n` consecutive allocations on a ledger
/// named `chain`, starting from a fresh counter, yield exactly the ids
/// `"<chain>>0"` through `"<chain>>{n-1}"`, pairwise distinct, so ids are
/// never reused.
pub proof fn lemma_allocation_sequence(chain: Seq<char>, n: nat)
    ensures
        spec_allocation_ids(chain, 0, n).len() == n,
        forall|i: int|
            0 <= i < n ==> spec_allocation_ids(chain, 0, n)[i] == spec_token_id(chain, i as nat),
        forall|i: int, j: int|
            0 <= i < j < n ==> spec_allocation_ids(chain, 0, n)[i] != spec_allocation_ids(
                chain,
                0,
                n,
            )[j],
    decreases n,
{
    if n > 0 {
        lemma_allocation_sequence(chain, (n - 1) as nat);
        assert forall|i: int, j: int| 0 <= i < j < n implies spec_allocation_ids(chain, 0, n)[i]
            != spec_allocation_ids(chain, 0, n)[j] by {
            if spec_allocation_ids(chain, 0, n)[i] == spec_allocation_ids(chain, 0, n)[j] {
                lemma_token_id_injective(chain, i as nat, j as nat);
            }
        }
    }
}

} // verus!
