//! Percent-encoding of path segments and query components (RFC 3986).
use crate::text::push_char;
use vstd::prelude::*;

verus! {

/// RFC 3986 unreserved characters: `A-Z a-z 0-9 - . _ ~`.
pub open spec fn is_unreserved(b: u8) -> bool {
    (65 <= b <= 90) || (97 <= b <= 122) || (48 <= b <= 57) || b == 45 || b == 46 || b == 95
        || b == 126
}

/// The upper-case hexadecimal digit for `n` (`0..16`).
pub open spec fn hex_digit(n: int) -> char {
    if n < 10 {
        ((n + 48) as u8) as char
    } else {
        ((n + 55) as u8) as char
    }
}

/// How one byte is written: itself when unreserved, `%XX` otherwise.
pub open spec fn encode_byte(b: u8) -> Seq<char> {
    if is_unreserved(b) {
        seq![b as char]
    } else {
        seq!['%', hex_digit(b as int / 16), hex_digit(b as int % 16)]
    }
}

/// The percent-encoding of a byte string.
pub open spec fn spec_encode(bytes: Seq<u8>) -> Seq<char>
    decreases bytes.len(),
{
    if bytes.len() == 0 {
        Seq::empty()
    } else {
        spec_encode(bytes.drop_last()) + encode_byte(bytes.last())
    }
}

/// The percent-encoding of a string: that of its UTF-8 bytes.
pub open spec fn spec_encode_str(s: Seq<char>) -> Seq<char> {
    spec_encode(vstd::utf8::encode_utf8(s))
}

/// Whether `c` is an upper-case hexadecimal digit.
pub open spec fn is_upper_hex(c: char) -> bool {
    ('0' <= c <= '9') || ('A' <= c <= 'F')
}

/// The value of an upper-case hexadecimal digit.
pub open spec fn hex_value(c: char) -> int {
    if '0' <= c <= '9' {
        c as int - 48
    } else {
        c as int - 55
    }
}

/// Percent-decoding: `%XX` (upper-case hex) becomes the byte `0xXX`, any
/// other character stands for its own code.
pub open spec fn spec_decode(s: Seq<char>) -> Seq<u8>
    decreases s.len(),
{
    if s.len() == 0 {
        Seq::empty()
    } else if s.len() >= 3 && s[0] == '%' && is_upper_hex(s[1]) && is_upper_hex(s[2]) {
        seq![(hex_value(s[1]) * 16 + hex_value(s[2])) as u8] + spec_decode(s.skip(3))
    } else {
        seq![s[0] as u8] + spec_decode(s.skip(1))
    }
}

/// A character that an encoded component may hold: an unreserved
/// character or `%`.
pub open spec fn is_encoded_char(c: char) -> bool {
    c == '%' || (is_unreserved(c as u8) && (c as int) < 128)
}

fn is_unreserved_byte(b: u8) -> (r: bool)
    ensures
        r == is_unreserved(b),
{
    (b >= 65 && b <= 90) || (b >= 97 && b <= 122) || (b >= 48 && b <= 57) || b == 45 || b == 46
        || b == 95 || b == 126
}

fn hex_upper(n: u8) -> (c: char)
    requires
        n < 16,
    ensures
        c == hex_digit(n as int),
{
    if n < 10 {
        (n + 48) as char
    } else {
        (n + 55) as char
    }
}

/// Percent-encodes a path segment or query component: RFC 3986 unreserved
/// characters pass through, every other byte of the UTF-8 encoding becomes
/// `%XX` with upper-case hex digits.
pub fn encode_component(segment: &str) -> (out: String)
    ensures
        out@ == spec_encode_str(segment@),
{
    let bytes = segment.as_bytes();
    let mut out = String::new();
    let n = bytes.len();
    for i in 0..n
        invariant
            n == bytes@.len(),
            bytes@ == vstd::utf8::encode_utf8(segment@),
            out@ == spec_encode(bytes@.take(i as int)),
    {
        let b = bytes[i];
        if is_unreserved_byte(b) {
            push_char(&mut out, b as char);
        } else {
            push_char(&mut out, '%');
            push_char(&mut out, hex_upper(b / 16));
            push_char(&mut out, hex_upper(b % 16));
        }
        assert(bytes@.take(i + 1).drop_last() =~= bytes@.take(i as int));
        assert(out@ =~= spec_encode(bytes@.take(i as int)) + encode_byte(b));
    }
    assert(bytes@.take(n as int) =~= bytes@);
    out
}

/// Encoding distributes over concatenation.
pub proof fn lemma_encode_concat(a: Seq<u8>, b: Seq<u8>)
    ensures
        spec_encode(a + b) == spec_encode(a) + spec_encode(b),
    decreases b.len(),
{
    if b.len() == 0 {
        assert(a + b =~= a);
        assert(spec_encode(a) + spec_encode(b) =~= spec_encode(a));
    } else {
        assert((a + b).drop_last() =~= a + b.drop_last());
        lemma_encode_concat(a, b.drop_last());
        assert(spec_encode(a + b) =~= spec_encode(a) + spec_encode(b));
    }
}

proof fn lemma_hex_digit(n: int)
    requires
        0 <= n < 16,
    ensures
        is_upper_hex(hex_digit(n)),
        hex_value(hex_digit(n)) == n,
        hex_digit(n) != '%',
        is_unreserved(hex_digit(n) as u8),
        (hex_digit(n) as int) < 128,
{
}

/// Decoding undoes encoding: `spec_decode(spec_encode(b)) == b` for every
/// byte string `b`, so two different components never encode alike.
pub proof fn lemma_decode_encode(bytes: Seq<u8>)
    ensures
        spec_decode(spec_encode(bytes)) == bytes,
    decreases bytes.len(),
{
    if bytes.len() == 0 {
        assert(spec_encode(bytes) =~= Seq::<char>::empty());
    } else {
        let b0 = bytes[0];
        let rest = bytes.drop_first();
        assert(bytes =~= seq![b0] + rest);
        lemma_encode_concat(seq![b0], rest);
        assert(seq![b0].drop_last() =~= Seq::<u8>::empty());
        assert(spec_encode(Seq::<u8>::empty()) =~= Seq::<char>::empty());
        assert(seq![b0].last() == b0);
        assert(spec_encode(seq![b0]) =~= encode_byte(b0));
        let e = spec_encode(rest);
        let s = encode_byte(b0) + e;
        lemma_decode_encode(rest);
        if is_unreserved(b0) {
            assert(s[0] == b0 as char);
            assert(s.skip(1) =~= e);
            assert(spec_decode(s) =~= seq![b0] + rest);
        } else {
            lemma_hex_digit(b0 as int / 16);
            lemma_hex_digit(b0 as int % 16);
            assert(s.skip(3) =~= e);
            assert(s[0] == '%');
            assert(spec_decode(s) =~= seq![b0] + rest);
        }
    }
}

/// Two byte strings with the same encoding are equal.
pub proof fn lemma_encode_injective(a: Seq<u8>, b: Seq<u8>)
    requires
        spec_encode(a) == spec_encode(b),
    ensures
        a == b,
{
    lemma_decode_encode(a);
    lemma_decode_encode(b);
}

/// Every character of an encoding is unreserved or `%`: an encoded
/// component holds no `/`, `?`, `&`, `=` or `#`.
pub proof fn lemma_encoded_chars(bytes: Seq<u8>)
    ensures
        forall|i: int| 0 <= i < spec_encode(bytes).len() ==> is_encoded_char(#[trigger] spec_encode(bytes)[i]),
    decreases bytes.len(),
{
    if bytes.len() > 0 {
        lemma_encoded_chars(bytes.drop_last());
        let b = bytes.last();
        if !is_unreserved(b) {
            lemma_hex_digit(b as int / 16);
            lemma_hex_digit(b as int % 16);
        }
        let p = spec_encode(bytes.drop_last());
        assert forall|i: int| 0 <= i < spec_encode(bytes).len() implies is_encoded_char(#[trigger] spec_encode(bytes)[i]) by {
            if i < p.len() {
                assert(spec_encode(bytes)[i] == p[i]);
            }
        }
    }
}

/// A character that percent-encoding leaves as it is: an unreserved ASCII
/// character.
pub open spec fn is_unreserved_char(c: char) -> bool {
    (c as int) < 128 && is_unreserved(c as u8)
}

proof fn lemma_encode_len(b: Seq<u8>)
    ensures
        spec_encode(b).len() >= b.len(),
        (forall|i: int| 0 <= i < b.len() ==> is_unreserved(#[trigger] b[i])) ==> spec_encode(b)
            == b.map_values(|x: u8| x as char),
        !(forall|i: int| 0 <= i < b.len() ==> is_unreserved(#[trigger] b[i])) ==> spec_encode(
            b,
        ).len() >= b.len() + 2,
    decreases b.len(),
{
    if b.len() == 0 {
        assert(spec_encode(b) =~= b.map_values(|x: u8| x as char));
    } else {
        let p = b.drop_last();
        let x = b.last();
        lemma_encode_len(p);
        if forall|i: int| 0 <= i < b.len() ==> is_unreserved(#[trigger] b[i]) {
            assert forall|i: int| 0 <= i < p.len() implies is_unreserved(#[trigger] p[i]) by {
                assert(p[i] == b[i]);
            }
            assert(is_unreserved(b[b.len() - 1]));
            assert(spec_encode(b) =~= b.map_values(|x: u8| x as char));
        } else {
            let k = choose|i: int| 0 <= i < b.len() && !is_unreserved(#[trigger] b[i]);
            if k < b.len() - 1 {
                assert(p[k] == b[k]);
            }
        }
    }
}

proof fn lemma_utf8_len(s: Seq<char>)
    ensures
        vstd::utf8::encode_utf8(s).len() >= s.len(),
    decreases s.len(),
{
    if s.len() > 0 {
        lemma_utf8_len(s.drop_first());
    }
}

proof fn lemma_leading_byte(v: u32)
    requires
        !vstd::utf8::has_width_1_encoding(v),
    ensures
        vstd::utf8::encode_scalar(v).len() > 0,
        vstd::utf8::encode_scalar(v)[0] >= 128,
{
    let x2 = ((v >> 6) & 0x1F) as u8;
    let x3 = ((v >> 12) & 0x0F) as u8;
    let x4 = ((v >> 18) & 0x7) as u8;
    assert(0xC0u8 | x2 >= 128) by (bit_vector);
    assert(0xE0u8 | x3 >= 128) by (bit_vector);
    assert(0xF0u8 | x4 >= 128) by (bit_vector);
}

proof fn lemma_ascii_char(c: char)
    requires
        (c as u32) <= 0x7F,
    ensures
        '\0' <= c <= '\u{7f}',
{
}

proof fn lemma_char_below_128(c: char)
    requires
        (c as int) < 128,
    ensures
        '\0' <= c <= '\u{7f}',
{
}

proof fn lemma_ascii_bytes(s: Seq<char>)
    requires
        forall|i: int|
            0 <= i < vstd::utf8::encode_utf8(s).len() ==> #[trigger] vstd::utf8::encode_utf8(s)[i]
                < 128,
    ensures
        vstd::utf8::is_ascii_chars(s),
    decreases s.len(),
{
    if s.len() > 0 {
        let b = vstd::utf8::encode_utf8(s);
        let head = vstd::utf8::encode_scalar(s[0] as u32);
        let tail = vstd::utf8::encode_utf8(s.drop_first());
        assert(b == head + tail);
        if !vstd::utf8::has_width_1_encoding(s[0] as u32) {
            lemma_leading_byte(s[0] as u32);
            assert(b[0] == head[0]);
        }
        assert(head.len() == 1);
        assert forall|i: int| 0 <= i < tail.len() implies #[trigger] tail[i] < 128 by {
            assert(b[i + 1] == tail[i]);
        }
        lemma_ascii_bytes(s.drop_first());
        assert forall|i: int| 0 <= i < s.len() implies '\0' <= #[trigger] s[i] <= '\u{7f}' by {
            if i > 0 {
                assert(s[i] == s.drop_first()[i - 1]);
            } else {
                lemma_ascii_char(s[0]);
            }
        }
    }
}

/// A component encodes to itself exactly when every character of it (every
/// byte of its UTF-8 encoding) is unreserved.
pub proof fn lemma_encode_identity(s: Seq<char>)
    ensures
        spec_encode_str(s) == s <==> (forall|i: int|
            0 <= i < s.len() ==> is_unreserved_char(#[trigger] s[i])),
        spec_encode_str(s) == s <==> (forall|i: int|
            0 <= i < vstd::utf8::encode_utf8(s).len() ==> is_unreserved(
                #[trigger] vstd::utf8::encode_utf8(s)[i],
            )),
{
    let b = vstd::utf8::encode_utf8(s);
    lemma_encode_len(b);
    lemma_utf8_len(s);
    let all_bytes = forall|i: int| 0 <= i < b.len() ==> is_unreserved(#[trigger] b[i]);
    let all_chars = forall|i: int| 0 <= i < s.len() ==> is_unreserved_char(#[trigger] s[i]);
    if all_bytes {
        assert forall|i: int| 0 <= i < b.len() implies #[trigger] b[i] < 128 by {
            assert(is_unreserved(b[i]));
        }
        lemma_ascii_bytes(s);
        vstd::utf8::is_ascii_chars_encode_utf8(s);
        vstd::utf8::is_ascii_chars_nat_bound(s);
        assert forall|i: int| 0 <= i < s.len() implies is_unreserved_char(#[trigger] s[i]) by {
            assert(s[i] as u8 == b[i]);
            assert(is_unreserved(b[i]));
        }
        assert(spec_encode(b) =~= s) by {
            assert forall|i: int| 0 <= i < s.len() implies spec_encode(b)[i] == s[i] by {
                assert(s[i] as u8 == b[i]);
                assert((s[i] as int) < 128);
            }
        }
    } else {
        assert(spec_encode_str(s) != s);
        if all_chars {
            assert(vstd::utf8::is_ascii_chars(s)) by {
                assert forall|i: int| 0 <= i < s.len() implies '\0' <= #[trigger] s[i] <= '\u{7f}' by {
                    assert(is_unreserved_char(s[i]));
                    lemma_char_below_128(s[i]);
                }
            }
            vstd::utf8::is_ascii_chars_encode_utf8(s);
            let k = choose|i: int| 0 <= i < b.len() && !is_unreserved(#[trigger] b[i]);
            assert(s[k] as u8 == b[k]);
            assert(is_unreserved_char(s[k]));
        }
    }
}

/// Each byte is encoded on its own: an ASCII letter, digit, `-`, `.`, `_`
/// or `~` stands for itself, every other byte `b` becomes `%` followed by
/// the two upper-case hexadecimal digits of `b` (so `+` becomes `%2B`).
pub proof fn law_encode_byte(b: u8)
    ensures
        spec_encode(seq![b]) == if ('A' <= (b as char) <= 'Z') || ('a' <= (b as char) <= 'z') || (
        '0' <= (b as char) <= '9') || (b as char) == '-' || (b as char) == '.' || (b as char)
            == '_' || (b as char) == '~' {
            seq![b as char]
        } else {
            seq!['%', "0123456789ABCDEF"@[b as int / 16], "0123456789ABCDEF"@[b as int % 16]]
        },
        spec_encode(seq![43u8]) == "%2B"@,
{
    reveal_strlit("0123456789ABCDEF");
    reveal_strlit("%2B");
    assert(seq![b].drop_last() =~= Seq::<u8>::empty());
    assert(spec_encode(Seq::<u8>::empty()) =~= Seq::<char>::empty());
    assert(spec_encode(seq![b]) =~= encode_byte(b));
    assert(((b as char) as int) == b as int);
    assert(seq![43u8].drop_last() =~= Seq::<u8>::empty());
    assert(spec_encode(seq![43u8]) =~= encode_byte(43u8));
    assert(encode_byte(43u8) =~= "%2B"@);
}

} // verus!
