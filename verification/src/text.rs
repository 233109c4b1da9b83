use vstd::prelude::*;
use vstd::string::StringSliceAdditionalSpecFns;

verus! {

/// Whether a character carries the Unicode `White_Space` property.
pub open spec fn is_unicode_whitespace(c: char) -> bool {
    let v = c as u32;
    ||| (0x09 <= v && v <= 0x0d)
    ||| v == 0x20
    ||| v == 0x85
    ||| v == 0xa0
    ||| v == 0x1680
    ||| (0x2000 <= v && v <= 0x200a)
    ||| v == 0x2028
    ||| v == 0x2029
    ||| v == 0x202f
    ||| v == 0x205f
    ||| v == 0x3000
}

/// A text is blank when trimming whitespace leaves nothing.
pub open spec fn is_blank(s: Seq<char>) -> bool {
    forall|i: int| 0 <= i < s.len() ==> is_unicode_whitespace(#[trigger] s[i])
}

fn char_is_whitespace(c: char) -> (b: bool)
    ensures
        b == is_unicode_whitespace(c),
{
    let v = c as u32;
    (0x09 <= v && v <= 0x0d) || v == 0x20 || v == 0x85 || v == 0xa0 || v == 0x1680 || (0x2000
        <= v && v <= 0x200a) || v == 0x2028 || v == 0x2029 || v == 0x202f || v == 0x205f || v
        == 0x3000
}

/// Returns whether `s` holds only whitespace (so trimming it leaves an empty string).
pub fn text_is_blank(s: &str) -> (b: bool)
    ensures
        b == is_blank(s@),
{
    broadcast use vstd::string::group_string_axioms;

    for c in it: s.chars()
        invariant
            it.seq() == s@,
            forall|i: int| 0 <= i < it.index() ==> is_unicode_whitespace(#[trigger] s@[i]),
    {
        if !char_is_whitespace(c) {
            return false;
        }
    }
    true
}

} // verus!

verus! {

/// Appends one character to a string (`String::push`).
#[verifier::external_body]
pub(crate) fn push_char(s: &mut String, c: char)
    ensures
        final(s)@ == old(s)@.push(c),
{
    s.push(c);
}

/// The RFC 3986 unreserved bytes: ASCII letters, digits, `.`, `_`, `~` and `-`.
pub open spec fn is_unreserved_byte(b: u8) -> bool {
    ||| (65 <= b && b <= 90)
    ||| (97 <= b && b <= 122)
    ||| (48 <= b && b <= 57)
    ||| b == 46
    ||| b == 95
    ||| b == 126
    ||| b == 45
}

/// The upper-case hexadecimal digit for a value below sixteen.
pub open spec fn hex_digit_upper(n: u8) -> char {
    if n < 10 {
        (48 + n) as char
    } else {
        (55 + n) as char
    }
}

/// The characters that stand for one byte in a percent-encoded text.
pub open spec fn percent_encode_byte(b: u8) -> Seq<char> {
    if is_unreserved_byte(b) {
        seq![b as char]
    } else {
        seq!['%', hex_digit_upper(b / 16), hex_digit_upper(b % 16)]
    }
}

/// Percent-encodes a byte sequence, keeping only unreserved bytes literal.
pub open spec fn percent_encode_bytes(bytes: Seq<u8>) -> Seq<char>
    decreases bytes.len(),
{
    if bytes.len() == 0 {
        Seq::empty()
    } else {
        percent_encode_bytes(bytes.drop_last()) + percent_encode_byte(bytes.last())
    }
}

/// Percent-encodes the UTF-8 encoding of a text.
pub open spec fn percent_encoded(text: Seq<char>) -> Seq<char> {
    percent_encode_bytes(vstd::utf8::encode_utf8(text))
}

/// No character of a percent-encoded text is a path separator.
pub proof fn lemma_percent_encoded_has_no_slash(bytes: Seq<u8>)
    ensures
        forall|i: int| 0 <= i < percent_encode_bytes(bytes).len() ==> #[trigger] percent_encode_bytes(bytes)[i] != '/',
    decreases bytes.len(),
{
    if bytes.len() > 0 {
        lemma_percent_encoded_has_no_slash(bytes.drop_last());
        let b = bytes.last();
        let tail = percent_encode_byte(b);
        assert forall|i: int| 0 <= i < tail.len() implies tail[i] != '/' by {
            if is_unreserved_byte(b) {
                assert(tail[i] == b as char);
            } else {
                assert(b / 16 < 16 && b % 16 < 16);
            }
        }
        let whole = percent_encode_bytes(bytes);
        let head = percent_encode_bytes(bytes.drop_last());
        assert(whole == head + tail);
        assert forall|i: int| 0 <= i < whole.len() implies whole[i] != '/' by {
            if i < head.len() {
                assert(whole[i] == head[i]);
            } else {
                assert(whole[i] == tail[i - head.len()]);
            }
        }
    }
}

proof fn lemma_percent_encode_bytes_append(a: Seq<u8>, b: Seq<u8>)
    ensures
        percent_encode_bytes(a + b) == percent_encode_bytes(a) + percent_encode_bytes(b),
    decreases b.len(),
{
    if b.len() == 0 {
        assert(a + b =~= a);
    } else {
        lemma_percent_encode_bytes_append(a, b.drop_last());
        assert((a + b).drop_last() =~= a + b.drop_last());
        assert((a + b).last() == b.last());
    }
}

proof fn lemma_percent_encode_bytes_len(bytes: Seq<u8>)
    ensures
        percent_encode_bytes(bytes).len() >= bytes.len(),
    decreases bytes.len(),
{
    if bytes.len() > 0 {
        lemma_percent_encode_bytes_len(bytes.drop_last());
    }
}

proof fn lemma_hex_digit_injective(m: u8, n: u8)
    requires
        m < 16,
        n < 16,
        hex_digit_upper(m) == hex_digit_upper(n),
    ensures
        m == n,
{
    assert((hex_digit_upper(m) as u32) == (if m < 10 { 48 + m } else { 55 + m }));
    assert((hex_digit_upper(n) as u32) == (if n < 10 { 48 + n } else { 55 + n }));
}

proof fn lemma_percent_encode_bytes_front(x: u8, rest: Seq<u8>)
    ensures
        percent_encode_bytes(seq![x] + rest) == percent_encode_byte(x) + percent_encode_bytes(rest),
{
    lemma_percent_encode_bytes_append(seq![x], rest);
    assert(seq![x].drop_last() =~= Seq::<u8>::empty());
    assert(seq![x].last() == x);
    assert(percent_encode_bytes(Seq::<u8>::empty()) =~= Seq::<char>::empty());
    assert(percent_encode_bytes(seq![x]) =~= percent_encode_byte(x));
}

/// Percent encoding loses nothing: different byte sequences encode to
/// different texts.
pub proof fn lemma_percent_encode_bytes_injective(a: Seq<u8>, b: Seq<u8>)
    requires
        percent_encode_bytes(a) == percent_encode_bytes(b),
    ensures
        a == b,
    decreases a.len(),
{
    if a.len() == 0 {
        lemma_percent_encode_bytes_len(b);
        if b.len() > 0 {
            lemma_percent_encode_bytes_front(b[0], b.subrange(1, b.len() as int));
            assert(seq![b[0]] + b.subrange(1, b.len() as int) =~= b);
        }
        assert(a =~= b);
    } else {
        lemma_percent_encode_bytes_len(b);
        let x = a[0];
        let ra = a.subrange(1, a.len() as int);
        assert(seq![x] + ra =~= a);
        lemma_percent_encode_bytes_front(x, ra);
        if b.len() == 0 {
            assert(percent_encode_byte(x).len() > 0);
        } else {
            let y = b[0];
            let rb = b.subrange(1, b.len() as int);
            assert(seq![y] + rb =~= b);
            lemma_percent_encode_bytes_front(y, rb);
            let ex = percent_encode_byte(x);
            let ey = percent_encode_byte(y);
            let whole = percent_encode_bytes(a);
            assert(whole[0] == ex[0]);
            assert(whole[0] == ey[0]);
            if is_unreserved_byte(x) {
                assert(ex[0] == x as char);
                assert((x as char) as u32 == x);
                if !is_unreserved_byte(y) {
                    assert(ey[0] == '%');
                    assert(false);
                }
                assert(ey[0] == y as char);
                assert((y as char) as u32 == y);
            } else {
                if is_unreserved_byte(y) {
                    assert(ey[0] == y as char);
                    assert((y as char) as u32 == y);
                    assert(false);
                }
                assert(whole[1] == ex[1] && whole[1] == ey[1]);
                assert(whole[2] == ex[2] && whole[2] == ey[2]);
                lemma_hex_digit_injective(x / 16, y / 16);
                lemma_hex_digit_injective(x % 16, y % 16);
            }
            assert(x == y);
            assert(ex == ey);
            assert(percent_encode_bytes(ra) =~= whole.subrange(ex.len() as int, whole.len() as int));
            assert(percent_encode_bytes(rb) =~= whole.subrange(ey.len() as int, whole.len() as int));
            lemma_percent_encode_bytes_injective(ra, rb);
            assert(a =~= b);
        }
    }
}

/// Different texts percent-encode to different texts.
pub proof fn lemma_percent_encoded_injective(a: Seq<char>, b: Seq<char>)
    requires
        percent_encoded(a) == percent_encoded(b),
    ensures
        a == b,
{
    lemma_percent_encode_bytes_injective(vstd::utf8::encode_utf8(a), vstd::utf8::encode_utf8(b));
    vstd::utf8::encode_utf8_decode_utf8(a);
    vstd::utf8::encode_utf8_decode_utf8(b);
}

fn hex_digit(n: u8) -> (c: char)
    requires
        n < 16,
    ensures
        c == hex_digit_upper(n),
{
    if n < 10 {
        (48 + n) as char
    } else {
        (55 + n) as char
    }
}

/// Percent-encodes the UTF-8 bytes of `value`: RFC 3986 unreserved bytes stay
/// literal and every other byte becomes `%XX` with upper-case hex digits.
pub fn percent_encode(value: &str) -> (encoded: String)
    ensures
        encoded@ == percent_encoded(value@),
{
    let bytes = value.as_bytes();
    let mut encoded = String::new();
    let mut i: usize = 0;
    while i < bytes.len()
        invariant
            bytes@ == value.spec_bytes(),
            i <= bytes@.len(),
            encoded@ == percent_encode_bytes(bytes@.subrange(0, i as int)),
        decreases bytes@.len() - i,
    {
        let b = bytes[i];
        assert(bytes@.subrange(0, i + 1).drop_last() == bytes@.subrange(0, i as int));
        if (65 <= b && b <= 90) || (97 <= b && b <= 122) || (48 <= b && b <= 57) || b == 46 || b
            == 95 || b == 126 || b == 45 {
            push_char(&mut encoded, b as char);
        } else {
            push_char(&mut encoded, '%');
            push_char(&mut encoded, hex_digit(b / 16));
            push_char(&mut encoded, hex_digit(b % 16));
        }
        i = i + 1;
    }
    assert(bytes@.subrange(0, bytes@.len() as int) == bytes@);
    encoded
}

} // verus!

verus! {

/// Compares two texts character by character.
pub fn text_equals(a: &str, b: &str) -> (equal: bool)
    ensures
        equal == (a@ == b@),
{
    let x = a.as_bytes();
    let y = b.as_bytes();
    proof {
        vstd::utf8::encode_utf8_decode_utf8(a@);
        vstd::utf8::encode_utf8_decode_utf8(b@);
    }
    if x.len() != y.len() {
        return false;
    }
    let mut i: usize = 0;
    while i < x.len()
        invariant
            x@ == a.spec_bytes(),
            y@ == b.spec_bytes(),
            x@.len() == y@.len(),
            i <= x@.len(),
            forall|j: int| 0 <= j < i ==> x@[j] == y@[j],
        decreases x@.len() - i,
    {
        if x[i] != y[i] {
            return false;
        }
        i = i + 1;
    }
    assert(x@ =~= y@);
    true
}

/// Whether `needle` occurs as a contiguous part of `haystack`.
pub open spec fn has_infix(haystack: Seq<char>, needle: Seq<char>) -> bool {
    exists|i: int|
        0 <= i && i + needle.len() <= haystack.len() && #[trigger] haystack.subrange(
            i,
            i + needle.len(),
        ) == needle
}

/// Whether `prefix` begins `text`.
pub open spec fn has_prefix(text: Seq<char>, prefix: Seq<char>) -> bool {
    prefix.len() <= text.len() && text.subrange(0, prefix.len() as int) == prefix
}

/// `str::contains` with a string pattern: true when `needle` matches a
/// contiguous sub-slice of `haystack`.
#[verifier::external_body]
pub(crate) fn text_contains(haystack: &str, needle: &str) -> (found: bool)
    ensures
        found == has_infix(haystack@, needle@),
{
    haystack.contains(needle)
}

/// `str::starts_with` with a string pattern.
#[verifier::external_body]
pub(crate) fn text_starts_with(text: &str, prefix: &str) -> (starts: bool)
    ensures
        starts == has_prefix(text@, prefix@),
{
    text.starts_with(prefix)
}

/// The Unicode lower-case mapping of a text, as `str::to_lowercase` computes it.
pub uninterp spec fn unicode_lowercase(text: Seq<char>) -> Seq<char>;

/// `str::to_lowercase`. The claim: the result is `unicode_lowercase` of the
/// input; the mapping itself (Unicode's `Lowercase_Mapping`, with the special
/// final-sigma rule) is not written out.
#[verifier::external_body]
pub(crate) fn text_to_lowercase(text: &str) -> (lower: String)
    ensures
        lower@ == unicode_lowercase(text@),
{
    text.to_lowercase()
}

} // verus!

verus! {

/// A text without its leading whitespace.
pub open spec fn trim_start(s: Seq<char>) -> Seq<char>
    decreases s.len(),
{
    if s.len() > 0 && is_unicode_whitespace(s[0]) {
        trim_start(s.drop_first())
    } else {
        s
    }
}

/// A text without its trailing whitespace.
pub open spec fn trim_end(s: Seq<char>) -> Seq<char>
    decreases s.len(),
{
    if s.len() > 0 && is_unicode_whitespace(s.last()) {
        trim_end(s.drop_last())
    } else {
        s
    }
}

/// A text without leading or trailing whitespace.
pub open spec fn trimmed(s: Seq<char>) -> Seq<char> {
    trim_end(trim_start(s))
}

/// `str::trim`: removes leading and trailing characters with the Unicode
/// `White_Space` property.
#[verifier::external_body]
pub(crate) fn text_trim(text: &str) -> (inner: &str)
    ensures
        inner@ == trimmed(text@),
{
    text.trim()
}

} // verus!
