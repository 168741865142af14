//! The content key: a fingerprint of a source text that names its artifact.

use sha2::{Digest, Sha256};
use vstd::prelude::*;

verus! {

/// Number of digest bytes that go into a key.
pub const KEY_BYTES: usize = 12;

/// Number of characters of a key.
pub const KEY_LEN: usize = 24;

/// The SHA-256 digest of a byte string, as the `sha2` crate computes it.
pub uninterp spec fn sha256_digest(data: Seq<u8>) -> Seq<u8>;

/// Calls `sha2::Sha256::digest` (through the `Digest` trait) and copies the
/// 32-byte output into a vector. Trusted: the output is the SHA-256 digest of
/// `data`, a function of the bytes alone, and it is 32 bytes long.
#[verifier::external_body]
fn sha256(data: &[u8]) -> (out: Vec<u8>)
    ensures
        out@ == sha256_digest(data@),
        out@.len() == 32,
{
    Sha256::digest(data).to_vec()
}

/// The lowercase hexadecimal digit for a value below sixteen.
pub open spec fn hex_digit(nibble: int) -> char {
    if nibble < 10 {
        (('0' as int) + nibble) as char
    } else {
        (('a' as int) + nibble - 10) as char
    }
}

/// `c` is one of `0`..`9`, `a`..`f`.
pub open spec fn is_lower_hex(c: char) -> bool {
    ('0' <= c && c <= '9') || ('a' <= c && c <= 'f')
}

/// Lowercase hexadecimal text of a byte string: two digits per byte, the high
/// half first.
pub open spec fn hex_encode(bytes: Seq<u8>) -> Seq<char> {
    Seq::new(
        2 * bytes.len(),
        |i: int|
            if i % 2 == 0 {
                hex_digit(bytes[i / 2] as int / 16)
            } else {
                hex_digit(bytes[i / 2] as int % 16)
            },
    )
}

/// The key that a digest gives: the hexadecimal text of its first twelve
/// bytes (of all of them, where it is shorter).
pub open spec fn key_of_digest(digest: Seq<u8>) -> Seq<char> {
    if digest.len() <= KEY_BYTES {
        hex_encode(digest)
    } else {
        hex_encode(digest.take(KEY_BYTES as int))
    }
}

/// The key of a source text: the key of the SHA-256 digest of its UTF-8 bytes.
pub open spec fn content_key(content: Seq<char>) -> Seq<char> {
    key_of_digest(sha256_digest(vstd::utf8::encode_utf8(content)))
}

/// A well-formed key: twenty-four lowercase hexadecimal characters.
pub open spec fn is_key(key: Seq<char>) -> bool {
    &&& key.len() == KEY_LEN
    &&& forall|i: int| 0 <= i < key.len() ==> is_lower_hex(#[trigger] key[i])
}

fn hex_char(nibble: u8) -> (c: char)
    requires
        nibble < 16,
    ensures
        c == hex_digit(nibble as int),
        is_lower_hex(c),
{
    if nibble < 10 {
        (48u8 + nibble) as char
    } else {
        (87u8 + nibble) as char
    }
}

/// The key that a digest gives.
pub fn key_from_digest(digest: &[u8]) -> (key: String)
    ensures
        key@ == key_of_digest(digest@),
        digest@.len() >= KEY_BYTES ==> is_key(key@),
{
    let n: usize = if digest.len() <= KEY_BYTES {
        digest.len()
    } else {
        KEY_BYTES
    };
    let ghost used = digest@.take(n as int);
    let mut key = String::new();
    let mut i: usize = 0;
    while i < n
        invariant
            i <= n <= digest@.len(),
            n <= KEY_BYTES,
            used == digest@.take(n as int),
            key@ == hex_encode(used).take(2 * i),
            forall|j: int| 0 <= j < key@.len() ==> is_lower_hex(#[trigger] key@[j]),
        decreases n - i,
    {
        let byte = digest[i];
        let high = hex_char(byte / 16);
        let low = hex_char(byte % 16);
        key.push(high);
        key.push(low);
        i += 1;
        assert(key@ == hex_encode(used).take(2 * i));
    }
    assert(hex_encode(used).take(2 * n) == hex_encode(used));
    assert(digest@.len() <= KEY_BYTES ==> used == digest@);
    key
}

/// The content key of `input`: the first twenty-four characters of the
/// lowercase hexadecimal SHA-256 digest of its UTF-8 bytes.
pub fn hash(input: &str) -> (key: String)
    ensures
        key@ == content_key(input@),
        is_key(key@),
{
    let digest = sha256(input.as_bytes());
    key_from_digest(digest.as_slice())
}

/// The key is a function of the text alone: equal texts have equal keys.
pub proof fn lemma_key_is_deterministic(a: Seq<char>, b: Seq<char>)
    requires
        a == b,
    ensures
        content_key(a) == content_key(b),
{
}

/// The key of a digest of twelve bytes or more is twenty-four lowercase
/// hexadecimal characters.
pub proof fn lemma_key_shape(digest: Seq<u8>)
    requires
        digest.len() >= KEY_BYTES,
    ensures
        is_key(key_of_digest(digest)),
{
    let key = key_of_digest(digest);
    assert forall|i: int| 0 <= i < key.len() implies is_lower_hex(#[trigger] key[i]) by {
        let byte = digest[i / 2] as int;
        assert(0 <= byte / 16 < 16 && 0 <= byte % 16 < 16);
    }
}

} // verus!
