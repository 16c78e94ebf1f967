//! Plain-text helpers of the core: decimal parsing and printing of user
//! identifiers, and ASCII case folding for the case-insensitive email
//! policy and the sort-direction allow-list.

use vstd::prelude::*;
use vstd::string::StrSliceExecFns;
use vstd::string::StringExecFns;

verus! {

/// All characters of `s` are decimal digits.
pub open spec fn is_digit_seq(s: Seq<char>) -> bool {
    forall|i: int| 0 <= i < s.len() ==> '0' <= #[trigger] s[i] <= '9'
}

/// Numeric value of one decimal digit character.
pub open spec fn digit_value(c: char) -> int {
    c as int - '0' as int
}

/// Value of a decimal digit string, most significant digit first.
pub open spec fn digits_value(s: Seq<char>) -> int
    decreases s.len(),
{
    if s.len() == 0 {
        0
    } else {
        digits_value(s.drop_last()) * 10 + digit_value(s.last())
    }
}

/// The value of a digit string is never negative.
proof fn lemma_digits_value_nonneg(s: Seq<char>)
    requires
        is_digit_seq(s),
    ensures
        digits_value(s) >= 0,
    decreases s.len(),
{
    if s.len() > 0 {
        assert(is_digit_seq(s.drop_last()));
        lemma_digits_value_nonneg(s.drop_last());
    }
}

/// Extending a digit string never lowers its value.
proof fn lemma_digits_value_prefix_le(s: Seq<char>, i: int)
    requires
        is_digit_seq(s),
        0 <= i <= s.len(),
    ensures
        digits_value(s.subrange(0, i)) <= digits_value(s),
    decreases s.len() - i,
{
    if i < s.len() {
        let t = s.subrange(0, i + 1);
        assert(t.drop_last() =~= s.subrange(0, i));
        assert(is_digit_seq(t));
        lemma_digits_value_nonneg(t.drop_last());
        lemma_digits_value_prefix_le(s, i + 1);
    } else {
        assert(s.subrange(0, i) =~= s);
    }
}

/// Parses a non-empty, all-digit string as an unsigned 64-bit value;
/// rejects everything else, including values past `u64::MAX`.
pub fn parse_u64(s: &str) -> (r: Option<u64>)
    ensures
        match r {
            Some(v) => s@.len() > 0 && is_digit_seq(s@) && v == digits_value(s@),
            None => s@.len() == 0 || !is_digit_seq(s@) || digits_value(s@) > u64::MAX,
        },
{
    let n = s.unicode_len();
    if n == 0 {
        return None;
    }
    let mut v: u64 = 0;
    let mut i: usize = 0;
    while i < n
        invariant
            0 <= i <= n,
            n == s@.len(),
            is_digit_seq(s@.subrange(0, i as int)),
            v == digits_value(s@.subrange(0, i as int)),
        decreases n - i,
    {
        let c = s.get_char(i);
        if c < '0' || c > '9' {
            assert(!is_digit_seq(s@));
            return None;
        }
        let d: u64 = ((c as u32) - ('0' as u32)) as u64;
        let limit: u64 = (u64::MAX - d) / 10;
        proof {
            let t = s@.subrange(0, i + 1);
            assert(t.drop_last() =~= s@.subrange(0, i as int));
            assert(digits_value(t) == v * 10 + d);
            if v > limit {
                assert(v * 10 + d > u64::MAX) by (nonlinear_arith)
                    requires
                        v > (u64::MAX - d) / 10,
                        0 <= d <= 9,
                ;
                if is_digit_seq(s@) {
                    lemma_digits_value_prefix_le(s@, i + 1);
                }
            } else {
                assert(v * 10 + d <= u64::MAX) by (nonlinear_arith)
                    requires
                        v <= (u64::MAX - d) / 10,
                        0 <= d <= 9,
                ;
            }
        }
        if v > limit {
            return None;
        }
        v = v * 10 + d;
        i = i + 1;
    }
    assert(s@.subrange(0, n as int) =~= s@);
    Some(v)
}

/// One decimal digit as a string slice.
fn digit_str(d: u64) -> (r: &'static str)
    requires
        d < 10,
    ensures
        r@.len() == 1,
        '0' <= r@[0] <= '9',
        digit_value(r@[0]) == d,
{
    proof {
        reveal_strlit("0");
        reveal_strlit("1");
        reveal_strlit("2");
        reveal_strlit("3");
        reveal_strlit("4");
        reveal_strlit("5");
        reveal_strlit("6");
        reveal_strlit("7");
        reveal_strlit("8");
        reveal_strlit("9");
    }
    match d {
        0 => "0",
        1 => "1",
        2 => "2",
        3 => "3",
        4 => "4",
        5 => "5",
        6 => "6",
        7 => "7",
        8 => "8",
        _ => "9",
    }
}

/// Prints a value in decimal, most significant digit first, with no
/// leading zero except for the value 0 itself.
pub fn u64_to_dec(v: u64) -> (r: String)
    ensures
        is_digit_seq(r@),
        digits_value(r@) == v,
        r@.len() >= 1,
        v > 0 ==> r@[0] != '0',
        v == 0 ==> r@.len() == 1,
        r@.len() > 1 ==> r@[0] != '0',
    decreases v,
{
    if v < 10 {
        let r = digit_str(v).to_owned();
        proof {
            assert(r@.drop_last() =~= Seq::<char>::empty());
            assert(digits_value(r@.drop_last()) == 0);
            assert(r@.last() == r@[0]);
        }
        r
    } else {
        let mut r = u64_to_dec(v / 10);
        let d = digit_str(v % 10);
        let ghost prefix = r@;
        r.append(d);
        proof {
            assert(r@.drop_last() =~= prefix);
        }
        r
    }
}

/// ASCII case folding of one character: uppercase letters map to their
/// lowercase pair, everything else is unchanged.
pub open spec fn ascii_lower_char(c: char) -> char {
    if 'A' <= c <= 'Z' {
        ((c as u32) + 32) as char
    } else {
        c
    }
}

/// ASCII case folding of a character sequence.
pub open spec fn ascii_lower(s: Seq<char>) -> Seq<char> {
    s.map_values(|c: char| ascii_lower_char(c))
}

/// Relies on `str::to_ascii_lowercase` of std: ASCII uppercase letters are
/// replaced by their lowercase pair and all other characters are kept.
#[verifier::external_body]
pub(crate) fn to_ascii_lower(s: &str) -> (r: String)
    ensures
        r@ == ascii_lower(s@),
{
    s.to_ascii_lowercase()
}

} // verus!
