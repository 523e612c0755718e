//! Hash chain indices written as decimal keys of the per-chain table.

use vstd::prelude::*;

verus! {

pub open spec fn is_digit(c: char) -> bool {
    '0' <= c && c <= '9'
}

pub open spec fn all_digits(s: Seq<char>) -> bool {
    forall|i: int| 0 <= i < s.len() ==> is_digit(#[trigger] s[i])
}

pub open spec fn digit_value(c: char) -> nat {
    (c as nat - '0' as nat) as nat
}

/// The number that a string of decimal digits spells.
pub open spec fn digits_value(s: Seq<char>) -> nat
    decreases s.len(),
{
    if s.len() == 0 {
        0
    } else {
        digits_value(s.drop_last()) * 10 + digit_value(s.last())
    }
}

/// The digits that an unsigned integer is read from: an optional leading `+`
/// is dropped.
pub open spec fn unsigned_digits(s: Seq<char>) -> Seq<char> {
    if s.len() > 0 && s[0] == '+' {
        s.skip(1)
    } else {
        s
    }
}

/// Whether `s` reads as a `usize`, as `str::parse::<usize>` reads it.
pub open spec fn parses_as_usize(s: Seq<char>) -> bool {
    let d = unsigned_digits(s);
    d.len() > 0 && all_digits(d) && digits_value(d) <= usize::MAX
}

/// The number that `s` reads as, where `parses_as_usize(s)`.
pub open spec fn parsed_usize(s: Seq<char>) -> nat {
    digits_value(unsigned_digits(s))
}

/// Whether `s` is exactly the decimal text of `n`, as `n.to_string()` writes it:
/// digits only, no leading zero but for zero itself.
pub open spec fn is_decimal_of(s: Seq<char>, n: nat) -> bool {
    &&& s.len() > 0
    &&& all_digits(s)
    &&& (s.len() == 1 || s[0] != '0')
    &&& digits_value(s) == n
}

proof fn lemma_digits_value_grows(s: Seq<char>, c: char)
    requires
        is_digit(c),
    ensures
        digits_value(s.push(c)) == digits_value(s) * 10 + digit_value(c),
        digits_value(s.push(c)) >= digits_value(s),
{
    assert(s.push(c).drop_last() =~= s);
}

/// Reads `key` as a `usize` the way `str::parse::<usize>` does.
pub fn parse_chain_index(key: &str) -> (r: Option<usize>)
    ensures
        r == (if parses_as_usize(key@) {
            Some(parsed_usize(key@) as usize)
        } else {
            None::<usize>
        }),
{
    let len = key.unicode_len();
    let mut start: usize = 0;
    if len > 0 && key.get_char(0) == '+' {
        start = 1;
    }
    let ghost d = unsigned_digits(key@);
    assert(d =~= key@.subrange(start as int, len as int));
    if start == len {
        return None;
    }
    let mut value: usize = 0;
    let mut overflow = false;
    let mut i = start;
    while i < len
        invariant
            start <= i <= len,
            len == key@.len(),
            d == unsigned_digits(key@),
            d =~= key@.subrange(start as int, len as int),
            all_digits(d.take(i - start)),
            !overflow ==> value == digits_value(d.take(i - start)),
            overflow ==> digits_value(d.take(i - start)) > usize::MAX,
        decreases len - i,
    {
        let c = key.get_char(i);
        if c < '0' || c > '9' {
            assert(d[i - start] == c);
            assert(!is_digit(d[(i - start) as int]));
            assert(!all_digits(d));
            return None;
        }
        let digit = (c as u32 - '0' as u32) as usize;
        proof {
            assert(d.take(i - start + 1) =~= d.take(i - start).push(c));
            lemma_digits_value_grows(d.take(i - start), c);
        }
        if !overflow {
            if value > (usize::MAX - digit) / 10 {
                overflow = true;
            } else {
                value = value * 10 + digit;
            }
        }
        i = i + 1;
    }
    assert(d.take(len - start) =~= d);
    if overflow {
        None
    } else {
        Some(value)
    }
}

/// Whether `key` is the text `idx.to_string()`, the key under which the
/// per-chain table holds the settings of chain `idx`.
pub fn key_names_chain(key: &str, idx: usize) -> (r: bool)
    ensures
        r == is_decimal_of(key@, idx as nat),
{
    let len = key.unicode_len();
    if len == 0 {
        return false;
    }
    let first = key.get_char(0);
    if first == '+' || (len > 1 && first == '0') {
        proof {
            if first == '+' {
                assert(!is_digit(key@[0]));
            }
        }
        return false;
    }
    match parse_chain_index(key) {
        Some(n) => n == idx,
        None => false,
    }
}

} // verus!
