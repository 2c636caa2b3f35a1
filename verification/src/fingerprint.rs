//! Fingerprints of configuration files, under which the permission store
//! files its markers.
//!
//! A fingerprint is the SHA-256 digest of some bytes, written as lower-case
//! hexadecimal digits. The digest comes from the `sha2` crate.

use sha2::{Digest, Sha256};
use vstd::prelude::*;
use vstd::string::*;
use vstd::utf8::*;

verus! {

/// The SHA-256 digest of a byte sequence.
pub uninterp spec fn sha256_of(data: Seq<u8>) -> Seq<u8>;

/// `sha2::Sha256::digest`: the digest of the data, the same for the same
/// bytes. Nothing about the digest is proved here.
#[verifier::external_body]
pub(crate) fn digest_sha256(data: &[u8]) -> (r: Vec<u8>)
    ensures
        r@ == sha256_of(data@),
{
    Sha256::digest(data).to_vec()
}

/// The lower-case hexadecimal digit of a number below 16.
pub open spec fn spec_hex_digit(n: u8) -> char {
    if n < 10 {
        (0x30 + n) as char
    } else {
        (0x61 + (n - 10)) as char
    }
}

/// Two lower-case hexadecimal digits for each byte, the high half first.
pub open spec fn spec_hex_lower(bytes: Seq<u8>) -> Seq<char>
    decreases bytes.len(),
{
    if bytes.len() == 0 {
        Seq::empty()
    } else {
        spec_hex_lower(bytes.drop_last()).push(spec_hex_digit(bytes.last() / 16)).push(
            spec_hex_digit(bytes.last() % 16),
        )
    }
}

fn hex_digit(n: u8) -> (r: char)
    requires
        n < 16,
    ensures
        r == spec_hex_digit(n),
{
    if n < 10 {
        (0x30 + n) as char
    } else {
        (0x61 + (n - 10)) as char
    }
}

/// The bytes written as lower-case hexadecimal digits.
pub fn hex_lower(bytes: &[u8]) -> (r: String)
    ensures
        r@ == spec_hex_lower(bytes@),
{
    let mut out = String::new();
    let mut i: usize = 0;
    assert(bytes@.take(0) == Seq::<u8>::empty());
    while i < bytes.len()
        invariant
            i <= bytes.len(),
            out@ == spec_hex_lower(bytes@.take(i as int)),
        decreases bytes.len() - i,
    {
        let b = bytes[i];
        out.push(hex_digit(b / 16));
        out.push(hex_digit(b % 16));
        i += 1;
        proof {
            let now = bytes@.take(i as int);
            assert(now.drop_last() == bytes@.take(i - 1));
            assert(now.last() == b);
        }
    }
    assert(bytes@.take(bytes.len() as int) == bytes@);
    out
}

/// What is hashed for an allow marker: the path in UTF-8, a line feed, and
/// the file's content.
pub open spec fn spec_allow_input(path: Seq<char>, content: Seq<u8>) -> Seq<u8> {
    encode_utf8(path) + seq![0x0au8] + content
}

/// What is hashed for a deny marker: the path in UTF-8 and a line feed.
pub open spec fn spec_deny_input(path: Seq<char>) -> Seq<u8> {
    encode_utf8(path) + seq![0x0au8]
}

/// The fingerprint of a file with its content; an edit of the file changes
/// it.
pub open spec fn spec_allow_hash(path: Seq<char>, content: Seq<u8>) -> Seq<char> {
    spec_hex_lower(sha256_of(spec_allow_input(path, content)))
}

/// The fingerprint of a path alone.
pub open spec fn spec_deny_hash(path: Seq<char>) -> Seq<char> {
    spec_hex_lower(sha256_of(spec_deny_input(path)))
}

fn append_bytes(out: &mut Vec<u8>, src: &[u8])
    ensures
        final(out)@ == old(out)@ + src@,
{
    let mut i: usize = 0;
    assert(src@.take(0) == Seq::<u8>::empty());
    while i < src.len()
        invariant
            i <= src.len(),
            out@ == old(out)@ + src@.take(i as int),
        decreases src.len() - i,
    {
        out.push(src[i]);
        i += 1;
        assert(src@.take(i as int) == src@.take(i - 1).push(src@[i - 1]));
    }
    assert(src@.take(src.len() as int) == src@);
}

/// The bytes that are hashed for the allow marker of a file.
pub fn allow_input(path: &str, content: &[u8]) -> (r: Vec<u8>)
    ensures
        r@ == spec_allow_input(path@, content@),
{
    let mut input: Vec<u8> = Vec::new();
    append_bytes(&mut input, path.as_bytes());
    input.push(0x0au8);
    append_bytes(&mut input, content);
    input
}

/// The bytes that are hashed for the deny marker of a path.
pub fn deny_input(path: &str) -> (r: Vec<u8>)
    ensures
        r@ == spec_deny_input(path@),
{
    let mut input: Vec<u8> = Vec::new();
    append_bytes(&mut input, path.as_bytes());
    input.push(0x0au8);
    input
}

/// The name of the allow marker of a file.
pub fn allow_hash(path: &str, content: &[u8]) -> (r: String)
    ensures
        r@ == spec_allow_hash(path@, content@),
{
    let input = allow_input(path, content);
    let digest = digest_sha256(input.as_slice());
    hex_lower(digest.as_slice())
}

/// The name of the deny marker of a path.
pub fn deny_hash(path: &str) -> (r: String)
    ensures
        r@ == spec_deny_hash(path@),
{
    let input = deny_input(path);
    let digest = digest_sha256(input.as_slice());
    hex_lower(digest.as_slice())
}

} // verus!
