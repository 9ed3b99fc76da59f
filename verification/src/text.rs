//! Text utilities: facts about the UTF-8 encoding of character sequences,
//! string comparison, Unicode white space and trimming, and the few `String`
//! operations of std that vstd does not specify.

use vstd::prelude::*;
use vstd::utf8::*;

verus! {

broadcast use vstd::utf8::encode_utf8_decode_utf8;

/// Number of bytes taken by the first `k` characters of `s` in UTF-8.
pub open spec fn byte_offset(s: Seq<char>, k: int) -> int {
    encode_utf8(s.take(k)).len() as int
}

/// Byte length of `s` in UTF-8.
pub open spec fn byte_len(s: Seq<char>) -> int {
    encode_utf8(s).len() as int
}

/// `i` is the byte position of a character boundary of `s`.
pub open spec fn is_boundary(s: Seq<char>, i: int) -> bool {
    exists|k: int| 0 <= k <= s.len() && byte_offset(s, k) == i
}

/// Width of a UTF-8 encoding, read from its first byte.
pub open spec fn width_of_leading_byte(b: u8) -> int {
    if b <= 0x7f { 1 } else if b <= 0xdf { 2 } else if b <= 0xef { 3 } else { 4 }
}

/// Width in bytes of a character's UTF-8 encoding.
pub open spec fn char_width(c: char) -> int {
    encode_scalar(c as u32).len() as int
}

pub proof fn lemma_encode_concat(a: Seq<char>, b: Seq<char>)
    ensures
        encode_utf8(a + b) == encode_utf8(a) + encode_utf8(b),
    decreases a.len(),
{
    if a.len() == 0 {
        assert(a + b =~= b);
        assert(encode_utf8(a) + encode_utf8(b) =~= encode_utf8(b));
    } else {
        let ab = a + b;
        assert(ab[0] == a[0]);
        assert(ab.drop_first() =~= a.drop_first() + b);
        lemma_encode_concat(a.drop_first(), b);
        let x = encode_scalar(a[0] as u32);
        assert(encode_utf8(ab) == x + encode_utf8(ab.drop_first()));
        assert(encode_utf8(a) == x + encode_utf8(a.drop_first()));
        assert(x + (encode_utf8(a.drop_first()) + encode_utf8(b)) =~= (x + encode_utf8(
            a.drop_first(),
        )) + encode_utf8(b));
    }
}

pub proof fn lemma_encode_single(c: char)
    ensures
        encode_utf8(seq![c]) == encode_scalar(c as u32),
{
    let s = seq![c];
    assert(s.drop_first() =~= Seq::<char>::empty());
    assert(encode_utf8(s.drop_first()) =~= Seq::<u8>::empty());
    assert(encode_utf8(s) =~= encode_scalar(c as u32) + Seq::<u8>::empty());
    assert(encode_scalar(c as u32) + Seq::<u8>::empty() =~= encode_scalar(c as u32));
}

pub proof fn lemma_encode_empty()
    ensures
        encode_utf8(Seq::<char>::empty()) == Seq::<u8>::empty(),
{
    assert(encode_utf8(Seq::<char>::empty()) =~= Seq::<u8>::empty());
}

/// Two character sequences with the same encoding are equal.
pub proof fn lemma_encode_injective(a: Seq<char>, b: Seq<char>)
    requires
        encode_utf8(a) == encode_utf8(b),
    ensures
        a == b,
{
    assert(decode_utf8(encode_utf8(a)) == a);
    assert(decode_utf8(encode_utf8(b)) == b);
}

/// The encoding splits at every character index.
pub proof fn lemma_encode_split(s: Seq<char>, k: int)
    requires
        0 <= k <= s.len(),
    ensures
        encode_utf8(s) == encode_utf8(s.take(k)) + encode_utf8(s.skip(k)),
        encode_utf8(s).take(byte_offset(s, k)) == encode_utf8(s.take(k)),
        encode_utf8(s).skip(byte_offset(s, k)) == encode_utf8(s.skip(k)),
        byte_offset(s, k) <= byte_len(s),
{
    assert(s =~= s.take(k) + s.skip(k));
    lemma_encode_concat(s.take(k), s.skip(k));
    let e1 = encode_utf8(s.take(k));
    let e2 = encode_utf8(s.skip(k));
    assert((e1 + e2).take(e1.len() as int) =~= e1);
    assert((e1 + e2).skip(e1.len() as int) =~= e2);
}

/// Shape of the encoding of one character: a leading byte that announces the
/// width, followed by continuation bytes.
pub proof fn lemma_scalar_shape(c: char)
    ensures
        1 <= char_width(c) <= 4,
        !is_continuation_byte(encode_scalar(c as u32)[0]),
        width_of_leading_byte(encode_scalar(c as u32)[0]) == char_width(c),
        forall|i: int|
            1 <= i < char_width(c) ==> is_continuation_byte(#[trigger] encode_scalar(c as u32)[i]),
        (c as u32) <= 0x7f <==> char_width(c) == 1,
        0x80 <= (c as u32) <= 0x7ff <==> char_width(c) == 2,
        0x800 <= (c as u32) <= 0xffff <==> char_width(c) == 3,
        0x10000 <= (c as u32) <==> char_width(c) == 4,
{
    vstd::utf8::char_is_scalar(c);
    let v = c as u32;
    let e = encode_scalar(v);
    if has_width_1_encoding(v) {
        assert((v & 0x7f) as u8 <= 0x7f) by (bit_vector);
    } else if has_width_2_encoding(v) {
        assert(0xc0 <= (0xC0 | ((v >> 6) & 0x1F) as u8) <= 0xdf) by (bit_vector);
        assert(0x80 <= (0x80 | (v & 0x3F) as u8) <= 0xbf) by (bit_vector);
    } else if has_width_3_encoding(v) {
        assert(0xe0 <= (0xE0 | ((v >> 12) & 0x0F) as u8) <= 0xef) by (bit_vector);
        assert(0x80 <= (0x80 | (v & 0x3F) as u8) <= 0xbf) by (bit_vector);
        assert(0x80 <= (0x80 | ((v >> 6) & 0x3F) as u8) <= 0xbf) by (bit_vector);
    } else {
        assert(0xf0 <= (0xF0 | ((v >> 18) & 0x7) as u8) <= 0xf7) by (bit_vector);
        assert(0x80 <= (0x80 | (v & 0x3F) as u8) <= 0xbf) by (bit_vector);
        assert(0x80 <= (0x80 | ((v >> 6) & 0x3F) as u8) <= 0xbf) by (bit_vector);
        assert(0x80 <= (0x80 | ((v >> 12) & 0x3F) as u8) <= 0xbf) by (bit_vector);
    }
}

/// Offsets of consecutive characters, and the bytes in between.
pub proof fn lemma_char_bytes(s: Seq<char>, k: int)
    requires
        0 <= k < s.len(),
    ensures
        byte_offset(s, k + 1) == byte_offset(s, k) + char_width(s[k]),
        byte_offset(s, k + 1) <= byte_len(s),
        forall|t: int|
            0 <= t < char_width(s[k]) ==> encode_utf8(s)[byte_offset(s, k) + t]
                == #[trigger] encode_scalar(s[k] as u32)[t],
{
    assert(s.take(k + 1) =~= s.take(k) + seq![s[k]]);
    lemma_encode_concat(s.take(k), seq![s[k]]);
    lemma_encode_single(s[k]);
    lemma_encode_split(s, k + 1);
    let e = encode_utf8(s);
    let a = encode_utf8(s.take(k));
    let x = encode_scalar(s[k] as u32);
    assert forall|t: int| 0 <= t < char_width(s[k]) implies e[byte_offset(s, k) + t]
        == #[trigger] x[t] by {
        assert(e.take(byte_offset(s, k + 1)) == a + x);
        assert(e.take(byte_offset(s, k + 1))[a.len() + t] == (a + x)[a.len() + t]);
    }
}

/// Byte offsets grow strictly with the character index.
pub proof fn lemma_byte_offset_strict(s: Seq<char>, j: int, k: int)
    requires
        0 <= j < k <= s.len(),
    ensures
        byte_offset(s, j) < byte_offset(s, k),
    decreases k - j,
{
    lemma_char_bytes(s, k - 1);
    lemma_scalar_shape(s[k - 1]);
    if j < k - 1 {
        lemma_byte_offset_strict(s, j, k - 1);
    }
}

/// A boundary position names exactly one character index.
pub proof fn lemma_byte_offset_unique(s: Seq<char>, j: int, k: int)
    requires
        0 <= j <= s.len(),
        0 <= k <= s.len(),
        byte_offset(s, j) == byte_offset(s, k),
    ensures
        j == k,
{
    if j < k {
        lemma_byte_offset_strict(s, j, k);
    } else if k < j {
        lemma_byte_offset_strict(s, k, j);
    }
}

pub proof fn lemma_byte_offset_ends(s: Seq<char>)
    ensures
        byte_offset(s, 0) == 0,
        byte_offset(s, s.len() as int) == byte_len(s),
{
    assert(s.take(0) =~= Seq::<char>::empty());
    lemma_encode_empty();
    assert(s.take(s.len() as int) =~= s);
}

/// Width in bytes of the UTF-8 encoding of `c`.
pub fn utf8_width(c: char) -> (r: usize)
    ensures
        r == char_width(c),
{
    proof {
        lemma_scalar_shape(c);
    }
    let v = c as u32;
    if v <= 0x7f {
        1
    } else if v <= 0x7ff {
        2
    } else if v <= 0xffff {
        3
    } else {
        4
    }
}

/// Width in bytes of a UTF-8 encoding, read from its leading byte.
pub fn width_from_leading_byte(b: u8) -> (r: usize)
    ensures
        r == width_of_leading_byte(b),
{
    if b <= 0x7f {
        1
    } else if b <= 0xdf {
        2
    } else if b <= 0xef {
        3
    } else {
        4
    }
}

// ---------------------------------------------------------------------------
// Comparison, white space, trimming and number parsing
// ---------------------------------------------------------------------------

/// Whether two strings hold the same characters.
pub fn str_equals(a: &str, b: &str) -> (r: bool)
    ensures
        r == (a@ == b@),
{
    let n = a.unicode_len();
    if n != b.unicode_len() {
        return false;
    }
    let mut i: usize = 0;
    while i < n
        invariant
            n == a@.len(),
            n == b@.len(),
            i <= n,
            forall|t: int| 0 <= t < i ==> a@[t] == b@[t],
        decreases n - i,
    {
        if a.get_char(i) != b.get_char(i) {
            return false;
        }
        i = i + 1;
    }
    assert(a@ =~= b@);
    true
}

/// Unicode `White_Space`, the property that `char::is_whitespace` tests.
pub open spec fn is_white_space(c: char) -> bool {
    let v = c as u32;
    ||| 0x09 <= v <= 0x0d
    ||| v == 0x20
    ||| v == 0x85
    ||| v == 0xa0
    ||| v == 0x1680
    ||| 0x2000 <= v <= 0x200a
    ||| v == 0x2028
    ||| v == 0x2029
    ||| v == 0x202f
    ||| v == 0x205f
    ||| v == 0x3000
}

pub fn is_whitespace(c: char) -> (r: bool)
    ensures
        r == is_white_space(c),
{
    let v = c as u32;
    (0x09 <= v && v <= 0x0d) || v == 0x20 || v == 0x85 || v == 0xa0 || v == 0x1680 || (0x2000
        <= v && v <= 0x200a) || v == 0x2028 || v == 0x2029 || v == 0x202f || v == 0x205f || v
        == 0x3000
}

/// `s[a..b]` is what remains of `s` once the white space at both ends is removed.
pub open spec fn trim_bounds(s: Seq<char>, a: int, b: int) -> bool {
    &&& 0 <= a <= b <= s.len()
    &&& forall|t: int| 0 <= t < a ==> is_white_space(#[trigger] s[t])
    &&& forall|t: int| b <= t < s.len() ==> is_white_space(#[trigger] s[t])
    &&& a < b ==> !is_white_space(s[a]) && !is_white_space(s[b - 1])
}

/// `s` without its leading and trailing white space.
pub open spec fn trimmed(s: Seq<char>) -> Seq<char> {
    let (a, b) = choose|a: int, b: int| trim_bounds(s, a, b);
    s.subrange(a, b)
}

/// Any pair of trim bounds gives the trimmed text.
pub proof fn lemma_trimmed(s: Seq<char>, a: int, b: int)
    requires
        trim_bounds(s, a, b),
    ensures
        trimmed(s) == s.subrange(a, b),
{
    let (a2, b2) = choose|a2: int, b2: int| trim_bounds(s, a2, b2);
    assert(trim_bounds(s, a2, b2));
    if a < b {
        if a2 < b2 {
            if a2 < a {
                assert(is_white_space(s[a2]));
            }
            if a < a2 {
                assert(is_white_space(s[a]));
            }
            if b2 < b {
                assert(is_white_space(s[b - 1]));
            }
            if b < b2 {
                assert(is_white_space(s[b2 - 1]));
            }
        } else {
            if a < a2 {
                assert(is_white_space(s[a]));
            } else {
                assert(b2 <= a);
                assert(is_white_space(s[a]));
            }
        }
    } else if a2 < b2 {
        if a2 < a {
            assert(is_white_space(s[a2]));
        } else {
            assert(b <= a2);
            assert(is_white_space(s[a2]));
        }
    } else {
        assert(s.subrange(a, b) =~= s.subrange(a2, b2));
    }
}

/// Removes leading and trailing white space, as `str::trim` does.
pub fn trim(s: &str) -> (r: &str)
    ensures
        r@ == trimmed(s@),
{
    let n = s.unicode_len();
    let mut a: usize = 0;
    while a < n && is_whitespace(s.get_char(a))
        invariant
            n == s@.len(),
            a <= n,
            forall|t: int| 0 <= t < a ==> is_white_space(#[trigger] s@[t]),
        decreases n - a,
    {
        a = a + 1;
    }
    let mut b: usize = n;
    while b > a && is_whitespace(s.get_char(b - 1))
        invariant
            n == s@.len(),
            a <= b <= n,
            forall|t: int| b <= t < n ==> is_white_space(#[trigger] s@[t]),
        decreases b,
    {
        b = b - 1;
    }
    proof {
        if a < b {
            assert(!is_white_space(s@[a as int]));
        }
        lemma_trimmed(s@, a as int, b as int);
    }
    s.substring_char(a, b)
}

pub open spec fn is_ascii_digit(c: char) -> bool {
    '0' <= c <= '9'
}

/// `s` without a leading `+`.
pub open spec fn without_plus_sign(s: Seq<char>) -> Seq<char> {
    if s.len() > 0 && s[0] == '+' { s.drop_first() } else { s }
}

pub open spec fn all_ascii_digits(d: Seq<char>) -> bool {
    forall|i: int| 0 <= i < d.len() ==> is_ascii_digit(#[trigger] d[i])
}

/// Value of a sequence of decimal digits.
pub open spec fn digits_value(s: Seq<char>) -> int
    decreases s.len(),
{
    if s.len() == 0 {
        0
    } else {
        digits_value(s.drop_last()) * 10 + (s.last() as int - '0' as int)
    }
}

/// What `u32::from_str` gives: an optional `+`, then one or more decimal
/// digits whose value fits in a `u32`.
pub open spec fn parsed_u32(s: Seq<char>) -> Option<u32> {
    let d = without_plus_sign(s);
    if d.len() > 0 && all_ascii_digits(d) && digits_value(d) <= u32::MAX {
        Some(digits_value(d) as u32)
    } else {
        None
    }
}

proof fn lemma_digits_value_nonneg(s: Seq<char>)
    requires
        forall|i: int| 0 <= i < s.len() ==> is_ascii_digit(#[trigger] s[i]),
    ensures
        digits_value(s) >= 0,
    decreases s.len(),
{
    if s.len() > 0 {
        lemma_digits_value_nonneg(s.drop_last());
    }
}

proof fn lemma_digits_value_monotone(s: Seq<char>, k: int)
    requires
        0 <= k <= s.len(),
        forall|i: int| 0 <= i < s.len() ==> is_ascii_digit(#[trigger] s[i]),
    ensures
        digits_value(s.take(k)) <= digits_value(s),
    decreases s.len() - k,
{
    if k < s.len() {
        assert(s.take(s.len() - 1) =~= s.drop_last());
        lemma_digits_value_monotone(s.drop_last(), k);
        assert(s.drop_last().take(k) =~= s.take(k));
        lemma_digits_value_nonneg(s.drop_last());
    } else {
        assert(s.take(k) =~= s);
    }
}

/// Parses an unsigned 32-bit number as `u32::from_str` does.
pub fn parse_u32(s: &str) -> (r: Option<u32>)
    ensures
        r == parsed_u32(s@),
{
    let n = s.unicode_len();
    let start: usize = if n > 0 && s.get_char(0) == '+' { 1 } else { 0 };
    let ghost d = without_plus_sign(s@);
    assert(d =~= s@.skip(start as int));
    if start == n {
        return None;
    }
    let mut value: u64 = 0;
    let mut i: usize = start;
    while i < n
        invariant
            n == s@.len(),
            start <= i <= n,
            d == s@.skip(start as int),
            d == without_plus_sign(s@),
            forall|t: int| start <= t < i ==> is_ascii_digit(#[trigger] s@[t]),
            value == digits_value(d.take(i - start)),
            value <= u32::MAX,
        decreases n - i,
    {
        let c = s.get_char(i);
        if !('0' <= c && c <= '9') {
            proof {
                assert(d[i - start] == c);
                assert(!is_ascii_digit(d[i - start]));
            }
            return None;
        }
        let digit = (c as u32 - '0' as u32) as u64;
        let next = value * 10 + digit;
        proof {
            let j = i - start;
            assert(d.take(j + 1).drop_last() =~= d.take(j));
            assert(d.take(j + 1).last() == c);
            assert(digits_value(d.take(j + 1)) == digits_value(d.take(j)) * 10 + (c as int - '0' as int));
            assert(digits_value(d.take(j + 1)) == next);
        }
        if next > u32::MAX as u64 {
            proof {
                if d.len() > 0 && all_ascii_digits(d) {
                    lemma_digits_value_monotone(d, i - start + 1);
                }
            }
            return None;
        }
        value = next;
        i = i + 1;
    }
    proof {
        assert(d.take(n - start) =~= d);
    }
    Some(value as u32)
}

// ---------------------------------------------------------------------------
// std String operations
// ---------------------------------------------------------------------------

/// `String::insert`: puts the encoding of `c` at byte position `idx`, which
/// must be a character boundary (std panics otherwise).  A `String`'s byte
/// length always fits in a `usize`.
#[verifier::external_body]
pub(crate) fn string_insert(s: &mut String, idx: usize, c: char)
    requires
        is_boundary(old(s)@, idx as int),
    ensures
        encode_utf8(final(s)@) == encode_utf8(old(s)@).take(idx as int) + encode_scalar(c as u32)
            + encode_utf8(old(s)@).skip(idx as int),
        byte_len(final(s)@) <= usize::MAX,
{
    s.insert(idx, c);
}

/// `String::drain` over `start..end`, with the drained part dropped: removes the
/// bytes in between; both ends must be character boundaries (std panics otherwise).
#[verifier::external_body]
pub(crate) fn string_drain(s: &mut String, start: usize, end: usize)
    requires
        start <= end,
        is_boundary(old(s)@, start as int),
        is_boundary(old(s)@, end as int),
    ensures
        encode_utf8(final(s)@) == encode_utf8(old(s)@).take(start as int) + encode_utf8(
            old(s)@,
        ).skip(end as int),
{
    s.drain(start..end);
}

/// `String::push`: appends `c` at the end.
#[verifier::external_body]
pub(crate) fn string_push(s: &mut String, c: char)
    ensures
        final(s)@ == old(s)@.push(c),
{
    s.push(c);
}

} // verus!
