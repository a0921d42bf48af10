//! Byte-level text predicates shared by the manifest checks: UTF-8 bytes of a text, hex digits,
//! byte prefixes and the byte-wise lexical order that Rust's `str` comparison uses.
use vstd::prelude::*;
use vstd::utf8::{encode_utf8, encode_utf8_decode_utf8};

verus! {

/// The UTF-8 bytes of a text (what `str::as_bytes` and `str::len` see).
pub open spec fn text_bytes(text: Seq<char>) -> Seq<u8> {
    encode_utf8(text)
}

/// ASCII `0-9`, `a-f` or `A-F`.
pub open spec fn is_ascii_hex_digit(byte: u8) -> bool {
    (48 <= byte <= 57) || (97 <= byte <= 102) || (65 <= byte <= 70)
}

/// Exactly 64 bytes, each an ASCII hex digit: the shape of a SHA-256 hex digest.
pub open spec fn is_sha256_hex_text(text: Seq<char>) -> bool {
    let bytes = text_bytes(text);
    &&& bytes.len() == 64
    &&& forall|i: int| 0 <= i < bytes.len() ==> is_ascii_hex_digit(#[trigger] bytes[i])
}

/// Strict byte-wise lexical order (a proper prefix comes first).
pub open spec fn bytes_lex_less(a: Seq<u8>, b: Seq<u8>) -> bool
    decreases a.len(),
{
    if a.len() == 0 {
        b.len() > 0
    } else if b.len() == 0 {
        false
    } else if a[0] != b[0] {
        a[0] < b[0]
    } else {
        bytes_lex_less(a.drop_first(), b.drop_first())
    }
}

/// Decimal digits of a natural number, most significant first, without leading zeros.
pub open spec fn decimal_text(n: nat) -> Seq<char>
    decreases n,
{
    if n < 10 {
        seq![(n + 48) as char]
    } else {
        decimal_text(n / 10).push(((n % 10) + 48) as char)
    }
}

/// Calls `u32::to_string`, whose `Display` output is the decimal representation.
#[verifier::external_body]
pub(crate) fn decimal_string(n: u32) -> (text: String)
    ensures
        text@ == decimal_text(n as nat),
{
    n.to_string()
}

/// Calls `String::push`, documented to append the character to the end of the string.
#[verifier::external_body]
pub(crate) fn string_push(text: &mut String, character: char)
    ensures
        final(text)@ == old(text)@.push(character),
{
    text.push(character)
}

/// Calls `String::pop`, documented to remove and return the last character, or to return `None`
/// and leave the string unchanged when it is empty.
#[verifier::external_body]
pub(crate) fn string_pop(text: &mut String) -> (last: Option<char>)
    ensures
        old(text)@.len() == 0 ==> last is None && final(text)@ == old(text)@,
        old(text)@.len() > 0 ==> last == Some(old(text)@.last())
            && final(text)@ == old(text)@.drop_last(),
{
    text.pop()
}

/// Whether a text is a SHA-256 hex digest in shape (64 hex-digit bytes).
pub fn is_sha256_hex(text: &str) -> (ok: bool)
    ensures
        ok == is_sha256_hex_text(text@),
{
    let bytes = text.as_bytes();
    if bytes.len() != 64 {
        return false;
    }
    let mut i: usize = 0;
    while i < bytes.len()
        invariant
            bytes@ == text_bytes(text@),
            i <= bytes@.len(),
            forall|j: int| 0 <= j < i ==> is_ascii_hex_digit(#[trigger] bytes@[j]),
        decreases bytes@.len() - i,
    {
        let b: u8 = bytes[i];
        if !((48 <= b && b <= 57) || (97 <= b && b <= 102) || (65 <= b && b <= 70)) {
            return false;
        }
        i = i + 1;
    }
    true
}

/// Byte-wise equality of two byte strings.
pub fn bytes_equal(a: &[u8], b: &[u8]) -> (equal: bool)
    ensures
        equal == (a@ == b@),
{
    if a.len() != b.len() {
        return false;
    }
    let mut i: usize = 0;
    while i < a.len()
        invariant
            a@.len() == b@.len(),
            i <= a@.len(),
            forall|j: int| 0 <= j < i ==> a@[j] == b@[j],
        decreases a@.len() - i,
    {
        if a[i] != b[i] {
            return false;
        }
        i = i + 1;
    }
    assert(a@ =~= b@);
    true
}

/// Whether two texts are equal, compared by their UTF-8 bytes.
pub fn text_equal(a: &str, b: &str) -> (equal: bool)
    ensures
        equal == (a@ == b@),
{
    let equal = bytes_equal(a.as_bytes(), b.as_bytes());
    proof {
        encode_utf8_decode_utf8(a@);
        encode_utf8_decode_utf8(b@);
    }
    equal
}

/// Whether `prefix` is a prefix of `bytes`.
pub fn bytes_start_with(bytes: &[u8], prefix: &[u8]) -> (starts: bool)
    ensures
        starts == (prefix@.len() <= bytes@.len() && bytes@.subrange(0, prefix@.len() as int)
            == prefix@),
{
    if prefix.len() > bytes.len() {
        return false;
    }
    let mut i: usize = 0;
    while i < prefix.len()
        invariant
            prefix@.len() <= bytes@.len(),
            i <= prefix@.len(),
            forall|j: int| 0 <= j < i ==> bytes@[j] == prefix@[j],
        decreases prefix@.len() - i,
    {
        if bytes[i] != prefix[i] {
            assert(bytes@.subrange(0, prefix@.len() as int)[i as int] != prefix@[i as int]);
            return false;
        }
        i = i + 1;
    }
    assert(bytes@.subrange(0, prefix@.len() as int) =~= prefix@);
    true
}

proof fn lemma_lex_less_skip(a: Seq<u8>, b: Seq<u8>, i: int)
    requires
        0 <= i < a.len(),
        i < b.len(),
        a[i] == b[i],
    ensures
        bytes_lex_less(a.skip(i), b.skip(i)) == bytes_lex_less(a.skip(i + 1), b.skip(i + 1)),
{
    assert(a.skip(i).drop_first() =~= a.skip(i + 1));
    assert(b.skip(i).drop_first() =~= b.skip(i + 1));
}

/// Strict byte-wise lexical comparison, as Rust's `<` on `str`.
pub fn bytes_less(a: &[u8], b: &[u8]) -> (less: bool)
    ensures
        less == bytes_lex_less(a@, b@),
{
    let mut i: usize = 0;
    assert(a@.skip(0) =~= a@);
    assert(b@.skip(0) =~= b@);
    while i < a.len() && i < b.len()
        invariant
            i <= a@.len(),
            i <= b@.len(),
            bytes_lex_less(a@, b@) == bytes_lex_less(a@.skip(i as int), b@.skip(i as int)),
        decreases a@.len() - i,
    {
        if a[i] != b[i] {
            return a[i] < b[i];
        }
        proof {
            lemma_lex_less_skip(a@, b@, i as int);
        }
        i = i + 1;
    }
    i == a.len() && i < b.len()
}

} // verus!
