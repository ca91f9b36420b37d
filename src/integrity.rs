//! Content-hash verification of downloaded archives.

use vstd::prelude::*;
use vstd::string::*;

verus! {

/// The SHA-1 digest of a byte string, as lowercase hexadecimal text.
pub uninterp spec fn sha1_hex(bytes: Seq<u8>) -> Seq<char>;

/// A lowercase hexadecimal digit.
pub open spec fn is_lower_hex_digit(c: char) -> bool {
    ('0' <= c && c <= '9') || ('a' <= c && c <= 'f')
}

/// Relies on sha1::Sha1 (through the digest::Digest trait), whose output is
/// 20 bytes, and on the lowercase hex formatting of generic_array, two
/// digits per byte.
#[verifier::external_body]
fn sha1_hex_of(bytes: &[u8]) -> (r: String)
    ensures
        r@ == sha1_hex(bytes@),
        r@.len() == 40,
        forall|i: int| 0 <= i < r@.len() ==> is_lower_hex_digit(#[trigger] r@[i]),
{
    let digest = <sha1::Sha1 as sha1::Digest>::digest(bytes);
    format!("{:x}", digest)
}

/// A character with ASCII upper case folded to lower case.
pub open spec fn fold_case(c: char) -> u32 {
    if 'A' <= c && c <= 'Z' {
        (c as u32 + 32) as u32
    } else {
        c as u32
    }
}

/// Two texts are equal up to ASCII case.
pub open spec fn eq_ignore_case(a: Seq<char>, b: Seq<char>) -> bool {
    a.len() == b.len() && forall|i: int| 0 <= i < a.len() ==> fold_case(#[trigger] a[i]) == fold_case(b[i])
}

fn fold_char(c: char) -> (r: u32)
    ensures
        r == fold_case(c),
{
    if 'A' <= c && c <= 'Z' {
        c as u32 + 32
    } else {
        c as u32
    }
}

/// Compares two hex digests, ignoring ASCII case.
pub fn digest_matches(computed: &str, expected: &str) -> (r: bool)
    ensures
        r == eq_ignore_case(computed@, expected@),
{
    let n = computed.unicode_len();
    if n != expected.unicode_len() {
        return false;
    }
    let mut i: usize = 0;
    while i < n
        invariant
            n == computed@.len(),
            n == expected@.len(),
            i <= n,
            forall|j: int| 0 <= j < i ==> fold_case(#[trigger] computed@[j]) == fold_case(expected@[j]),
        decreases n - i,
    {
        if fold_char(computed.get_char(i)) != fold_char(expected.get_char(i)) {
            return false;
        }
        i = i + 1;
    }
    true
}

/// The digest of `bytes` matches `expected`.
pub open spec fn integrity_ok(bytes: Seq<u8>, expected: Seq<char>) -> bool {
    eq_ignore_case(sha1_hex(bytes), expected)
}

/// Computes the SHA-1 digest of `bytes` as hex text.
pub fn content_digest(bytes: &Vec<u8>) -> (r: String)
    ensures
        r@ == sha1_hex(bytes@),
        r@.len() == 40,
        forall|i: int| 0 <= i < r@.len() ==> is_lower_hex_digit(#[trigger] r@[i]),
{
    sha1_hex_of(bytes.as_slice())
}

/// Accepts the payload exactly when its digest equals `expected` up to case.
pub fn verify_integrity(bytes: &Vec<u8>, expected: &str) -> (r: bool)
    ensures
        r == integrity_ok(bytes@, expected@),
{
    let computed = content_digest(bytes);
    digest_matches(computed.as_str(), expected)
}

} // verus!
