//! String building blocks shared by the request and error code.
use vstd::prelude::*;
use vstd::string::{StrSliceExecFns, StringExecFns};

verus! {

/// Appends one character to a `String`.
///
/// Wraps std's `String::push`, which appends `c` at the end and leaves the
/// characters already there unchanged.
#[verifier::external_body]
pub(crate) fn push_char(s: &mut String, c: char)
    ensures
        final(s)@ == old(s)@.push(c),
{
    s.push(c);
}

/// The decimal digit character for `d` (`0..=9`).
pub open spec fn digit_char(d: int) -> char {
    ((d + 48) as u8) as char
}

/// The shortest decimal rendering of `n`, as std's `Display` for unsigned
/// integers writes it.
pub open spec fn spec_decimal(n: nat) -> Seq<char>
    decreases n,
{
    if n < 10 {
        seq![digit_char(n as int)]
    } else {
        spec_decimal(n / 10).push(digit_char((n % 10) as int))
    }
}

/// Renders `n` in decimal.
pub fn decimal(n: u64) -> (s: String)
    ensures
        s@ == spec_decimal(n as nat),
    decreases n,
{
    if n < 10 {
        let mut s = String::new();
        push_char(&mut s, ((n as u8) + 48) as char);
        s
    } else {
        let mut s = decimal(n / 10);
        push_char(&mut s, (((n % 10) as u8) + 48) as char);
        s
    }
}

/// `s` without the copies of `c` at its end.
pub open spec fn trim_end(s: Seq<char>, c: char) -> Seq<char>
    decreases s.len(),
{
    if s.len() > 0 && s.last() == c {
        trim_end(s.drop_last(), c)
    } else {
        s
    }
}

/// `s` without the copies of `c` at its start.
pub open spec fn trim_start(s: Seq<char>, c: char) -> Seq<char>
    decreases s.len(),
{
    if s.len() > 0 && s[0] == c {
        trim_start(s.drop_first(), c)
    } else {
        s
    }
}

/// Removes every trailing `c` from `s`.
pub fn trim_end_matches(s: &str, c: char) -> (r: String)
    ensures
        r@ == trim_end(s@, c),
{
    let mut n = s.unicode_len();
    assert(s@.subrange(0, n as int) =~= s@);
    while n > 0 && s.get_char(n - 1) == c
        invariant
            n <= s@.len(),
            trim_end(s@, c) == trim_end(s@.subrange(0, n as int), c),
        decreases n,
    {
        assert(s@.subrange(0, n as int).drop_last() =~= s@.subrange(0, n - 1));
        n = n - 1;
    }
    String::from_str(s.substring_char(0, n))
}

/// Removes every leading `c` from `s`.
pub fn trim_start_matches(s: &str, c: char) -> (r: &str)
    ensures
        r@ == trim_start(s@, c),
{
    let len = s.unicode_len();
    let mut k: usize = 0;
    assert(s@.subrange(0, len as int) =~= s@);
    while k < len && s.get_char(k) == c
        invariant
            k <= len,
            len == s@.len(),
            trim_start(s@, c) == trim_start(s@.subrange(k as int, len as int), c),
        decreases len - k,
    {
        assert(s@.subrange(k as int, len as int).drop_first() =~= s@.subrange(k + 1, len as int));
        k = k + 1;
    }
    s.substring_char(k, len)
}

/// After trimming, `s` no longer ends with `c`.
pub proof fn lemma_trim_end_ends(s: Seq<char>, c: char)
    ensures
        trim_end(s, c).len() == 0 || trim_end(s, c).last() != c,
    decreases s.len(),
{
    if s.len() > 0 && s.last() == c {
        lemma_trim_end_ends(s.drop_last(), c);
    }
}

/// Whether `c` is a decimal digit.
pub open spec fn is_digit(c: char) -> bool {
    '0' <= c <= '9'
}

/// The number that a string of decimal digits denotes.
pub open spec fn digits_value(s: Seq<char>) -> nat
    decreases s.len(),
{
    if s.len() == 0 {
        0
    } else {
        digits_value(s.drop_last()) * 10 + (s.last() as nat - 48) as nat
    }
}

/// The digits of an unsigned integer literal: `s` without one leading `+`.
pub open spec fn unsigned_digits(s: Seq<char>) -> Seq<char> {
    if s.len() > 0 && s[0] == '+' {
        s.drop_first()
    } else {
        s
    }
}

/// What std's `u64::from_str` accepts: an optional `+`, then one or more
/// decimal digits whose value fits in a `u64`.
pub open spec fn spec_parse_u64(s: Seq<char>) -> Option<u64> {
    let d = unsigned_digits(s);
    if d.len() > 0 && (forall|i: int| 0 <= i < d.len() ==> is_digit(#[trigger] d[i]))
        && digits_value(d) <= u64::MAX {
        Some(digits_value(d) as u64)
    } else {
        None
    }
}

/// Parses an unsigned decimal integer as `str::parse::<u64>` does.
pub fn parse_u64(s: &str) -> (r: Option<u64>)
    ensures
        r == spec_parse_u64(s@),
{
    let len = s.unicode_len();
    let mut start: usize = 0;
    if len > 0 && s.get_char(0) == '+' {
        start = 1;
    }
    let ghost d = unsigned_digits(s@);
    assert(d =~= s@.subrange(start as int, len as int));
    if start == len {
        return None;
    }
    let mut value: u64 = 0;
    let mut overflow = false;
    let mut i = start;
    while i < len
        invariant
            start <= i <= len,
            len == s@.len(),
            d =~= s@.subrange(start as int, len as int),
            d == unsigned_digits(s@),
            forall|j: int| 0 <= j < i - start ==> is_digit(#[trigger] d[j]),
            !overflow ==> value == digits_value(d.take(i - start)),
            overflow ==> digits_value(d.take(i - start)) > u64::MAX,
        decreases len - i,
    {
        let c = s.get_char(i);
        if !('0' <= c && c <= '9') {
            assert(d[i - start] == c);
            assert(!is_digit(d[i - start]));
            assert(!(forall|j: int| 0 <= j < d.len() ==> is_digit(#[trigger] d[j])));
            return None;
        }
        let digit = (c as u32 - 48) as u64;
        assert(d.take(i - start + 1).drop_last() =~= d.take(i - start));
        assert(d.take(i - start + 1).last() == c);
        if !overflow {
            if value > (u64::MAX - digit) / 10 {
                overflow = true;
            } else {
                value = value * 10 + digit;
            }
        }
        i = i + 1;
    }
    assert(d.take(len - start) =~= d);
    if overflow {
        None
    } else {
        Some(value)
    }
}

/// The decimal rendering of `n` is a non-empty string of digits that
/// denotes `n`.
pub proof fn lemma_decimal_digits(n: nat)
    ensures
        spec_decimal(n).len() > 0,
        forall|i: int| 0 <= i < spec_decimal(n).len() ==> is_digit(#[trigger] spec_decimal(n)[i]),
        digits_value(spec_decimal(n)) == n,
    decreases n,
{
    let d = if n < 10 {
        n as int
    } else {
        (n % 10) as int
    };
    assert(((d + 48) as u8) as int == d + 48);
    assert((((d + 48) as u8) as char) as int == d + 48);
    assert(digit_char(d) as nat == d + 48);
    if n < 10 {
        assert(spec_decimal(n).drop_last() =~= Seq::<char>::empty());
        assert(spec_decimal(n).last() == digit_char(d));
        assert(digits_value(Seq::<char>::empty()) == 0);
        assert(digits_value(spec_decimal(n)) == 0 * 10 + d);
    } else {
        lemma_decimal_digits(n / 10);
        assert(spec_decimal(n).drop_last() =~= spec_decimal(n / 10));
        assert(spec_decimal(n).last() == digit_char(d));
        assert(digits_value(spec_decimal(n)) == (n / 10) * 10 + d);
        assert((n / 10) * 10 + n % 10 == n);
    }
}

/// Parsing the decimal rendering of a number gives the number back.
pub proof fn lemma_parse_decimal(n: u64)
    ensures
        spec_parse_u64(spec_decimal(n as nat)) == Some(n),
{
    lemma_decimal_digits(n as nat);
    assert(unsigned_digits(spec_decimal(n as nat)) == spec_decimal(n as nat));
}

} // verus!
