//! Content digests: the supported algorithms, the digest of a byte string as
//! lowercase hexadecimal text, and the recognition of such text.

use crate::hex::{hex_lower, is_lower_hex_digit, lemma_hex_lower_shape, to_hex};
use sha1::{Digest, Sha1};
use sha2::Sha256;
use vstd::prelude::*;
use vstd::string::*;

verus! {

/// The digest algorithms that a scan can use.
#[derive(Clone, Copy, Debug, PartialEq, Eq, Structural)]
pub enum HashType {
    MD5,
    SHA1,
    SHA256,
}

/// The MD5 digest of `data`, as `md5::compute` returns it.
pub uninterp spec fn md5_digest(data: Seq<u8>) -> Seq<u8>;

/// The SHA-1 digest of `data`, as `Sha1::digest` returns it.
pub uninterp spec fn sha1_digest(data: Seq<u8>) -> Seq<u8>;

/// The SHA-256 digest of `data`, as `Sha256::digest` returns it.
pub uninterp spec fn sha256_digest(data: Seq<u8>) -> Seq<u8>;

/// Calls `md5::compute`. Trusted: the bytes that come back are the MD5 digest
/// of `data`, a function of `data` alone, and there are 16 of them (the
/// crate's `Digest` wraps a `[u8; 16]`).
#[verifier::external_body]
fn md5_bytes(data: &[u8]) -> (out: Vec<u8>)
    ensures
        out@ == md5_digest(data@),
        out@.len() == 16,
{
    md5::compute(data).0.to_vec()
}

/// Calls `Digest::digest` of the `sha1` crate's `Sha1`. Trusted: the bytes
/// that come back are the SHA-1 digest of `data`, a function of `data` alone,
/// and there are 20 of them (the hasher's output size is `U20`).
#[verifier::external_body]
fn sha1_bytes(data: &[u8]) -> (out: Vec<u8>)
    ensures
        out@ == sha1_digest(data@),
        out@.len() == 20,
{
    Sha1::digest(data).to_vec()
}

/// Calls `Digest::digest` of the `sha2` crate's `Sha256`. Trusted: the bytes
/// that come back are the SHA-256 digest of `data`, a function of `data`
/// alone, and there are 32 of them (the hasher's output size is `U32`).
#[verifier::external_body]
fn sha256_bytes(data: &[u8]) -> (out: Vec<u8>)
    ensures
        out@ == sha256_digest(data@),
        out@.len() == 32,
{
    Sha256::digest(data).to_vec()
}

/// The number of bytes in a digest of the algorithm.
pub open spec fn digest_len(hash_type: HashType) -> nat {
    match hash_type {
        HashType::MD5 => 16,
        HashType::SHA1 => 20,
        HashType::SHA256 => 32,
    }
}

/// The digest of `data` under the algorithm, as bytes.
pub open spec fn raw_digest(hash_type: HashType, data: Seq<u8>) -> Seq<u8> {
    match hash_type {
        HashType::MD5 => md5_digest(data),
        HashType::SHA1 => sha1_digest(data),
        HashType::SHA256 => sha256_digest(data),
    }
}

/// The digest of `data` under the algorithm, as lowercase hexadecimal text.
pub open spec fn digest_text(hash_type: HashType, data: Seq<u8>) -> Seq<char> {
    hex_lower(raw_digest(hash_type, data))
}

/// Whether `c` is a hexadecimal digit, of either case.
pub open spec fn is_hex_digit(c: char) -> bool {
    ('0' <= c && c <= '9') || ('a' <= c && c <= 'f') || ('A' <= c && c <= 'F')
}

/// Whether `text` is made of exactly `len` hexadecimal digits.
pub open spec fn is_hex_of_len(text: Seq<char>, len: nat) -> bool {
    text.len() == len && forall|i: int| 0 <= i < text.len() ==> is_hex_digit(#[trigger] text[i])
}

/// Whether `text` has the form of a digest of the algorithm: twice as many
/// hexadecimal digits as the digest has bytes.
pub open spec fn is_valid_hash(hash_type: HashType, text: Seq<char>) -> bool {
    is_hex_of_len(text, 2 * digest_len(hash_type))
}

/// The algorithm whose digests have the form of `text`, if there is one.
pub open spec fn hash_type_of(text: Seq<char>) -> Option<HashType> {
    if is_valid_hash(HashType::MD5, text) {
        Some(HashType::MD5)
    } else if is_valid_hash(HashType::SHA1, text) {
        Some(HashType::SHA1)
    } else if is_valid_hash(HashType::SHA256, text) {
        Some(HashType::SHA256)
    } else {
        None
    }
}

fn hex_digit_char(c: char) -> (b: bool)
    ensures
        b == is_hex_digit(c),
{
    ('0' <= c && c <= '9') || ('a' <= c && c <= 'f') || ('A' <= c && c <= 'F')
}

fn has_hex_form(text: &str, len: usize) -> (b: bool)
    ensures
        b == is_hex_of_len(text@, len as nat),
{
    if text.unicode_len() != len {
        return false;
    }
    let mut i: usize = 0;
    while i < len
        invariant
            i <= len,
            text@.len() == len,
            forall|k: int| 0 <= k < i ==> is_hex_digit(#[trigger] text@[k]),
        decreases len - i,
    {
        if !hex_digit_char(text.get_char(i)) {
            return false;
        }
        i = i + 1;
    }
    true
}

/// Whether `hash` has the form of an MD5 digest: 32 hexadecimal digits.
pub fn is_valid_hash_md5(hash: &String) -> (b: bool)
    ensures
        b == is_valid_hash(HashType::MD5, hash@),
{
    has_hex_form(hash.as_str(), 32)
}

/// Whether `hash` has the form of a SHA-1 digest: 40 hexadecimal digits.
pub fn is_valid_hash_sha1(hash: &String) -> (b: bool)
    ensures
        b == is_valid_hash(HashType::SHA1, hash@),
{
    has_hex_form(hash.as_str(), 40)
}

/// Whether `hash` has the form of a SHA-256 digest: 64 hexadecimal digits.
pub fn is_valid_hash_sha2(hash: &String) -> (b: bool)
    ensures
        b == is_valid_hash(HashType::SHA256, hash@),
{
    has_hex_form(hash.as_str(), 64)
}

/// Tells from the form of `hash` which algorithm it is a digest of: `None`
/// exactly when it is neither 32, 40 nor 64 hexadecimal digits.
pub fn validate_hash(hash: &String) -> (found: Option<HashType>)
    ensures
        found == hash_type_of(hash@),
        found matches Some(t) ==> is_valid_hash(t, hash@),
        found is None ==> forall|t: HashType| !is_valid_hash(t, hash@),
{
    if is_valid_hash_md5(hash) {
        return Some(HashType::MD5);
    }
    if is_valid_hash_sha1(hash) {
        return Some(HashType::SHA1);
    }
    if is_valid_hash_sha2(hash) {
        return Some(HashType::SHA256);
    }
    None
}

/// Whether `hash` has the form of a digest of the given algorithm.
pub fn is_valid_hash_for(hash: &String, hash_type: &HashType) -> (b: bool)
    ensures
        b == is_valid_hash(*hash_type, hash@),
{
    match hash_type {
        HashType::MD5 => is_valid_hash_md5(hash),
        HashType::SHA1 => is_valid_hash_sha1(hash),
        HashType::SHA256 => is_valid_hash_sha2(hash),
    }
}

/// A rendering of `len` bytes has the form of a digest of the algorithm
/// whose digests are `len` bytes long, and of that algorithm only.
pub proof fn lemma_rendering_is_valid(hash_type: HashType, bytes: Seq<u8>)
    requires
        bytes.len() == digest_len(hash_type),
    ensures
        is_valid_hash(hash_type, hex_lower(bytes)),
        hash_type_of(hex_lower(bytes)) == Some(hash_type),
{
    lemma_hex_lower_shape(bytes);
    let text = hex_lower(bytes);
    assert forall|i: int| 0 <= i < text.len() implies is_hex_digit(#[trigger] text[i]) by {
        assert(is_lower_hex_digit(text[i]));
    }
}

/// The MD5 digest of `data` as 32 lowercase hexadecimal digits.
pub fn get_hash_md5(data: &[u8]) -> (text: String)
    ensures
        text@ == digest_text(HashType::MD5, data@),
        text@.len() == 32,
        hash_type_of(text@) == Some(HashType::MD5),
{
    let bytes = md5_bytes(data);
    proof {
        lemma_hex_lower_shape(bytes@);
        lemma_rendering_is_valid(HashType::MD5, bytes@);
    }
    to_hex(bytes.as_slice())
}

/// The SHA-1 digest of `data` as 40 lowercase hexadecimal digits.
pub fn get_hash_sha1(data: &[u8]) -> (text: String)
    ensures
        text@ == digest_text(HashType::SHA1, data@),
        text@.len() == 40,
        hash_type_of(text@) == Some(HashType::SHA1),
{
    let bytes = sha1_bytes(data);
    proof {
        lemma_hex_lower_shape(bytes@);
        lemma_rendering_is_valid(HashType::SHA1, bytes@);
    }
    to_hex(bytes.as_slice())
}

/// The SHA-256 digest of `data` as 64 lowercase hexadecimal digits.
pub fn get_hash_sha2(data: &[u8]) -> (text: String)
    ensures
        text@ == digest_text(HashType::SHA256, data@),
        text@.len() == 64,
        hash_type_of(text@) == Some(HashType::SHA256),
{
    let bytes = sha256_bytes(data);
    proof {
        lemma_hex_lower_shape(bytes@);
        lemma_rendering_is_valid(HashType::SHA256, bytes@);
    }
    to_hex(bytes.as_slice())
}

/// The digest of `data` under the chosen algorithm, as lowercase hexadecimal
/// text of the algorithm's fixed length; the text has the form that
/// `validate_hash` recognises as that algorithm's.
pub fn get_hash(data: &[u8], hash_type: &HashType) -> (text: String)
    ensures
        text@ == digest_text(*hash_type, data@),
        text@.len() == 2 * digest_len(*hash_type),
        forall|i: int| 0 <= i < text@.len() ==> is_lower_hex_digit(#[trigger] text@[i]),
        hash_type_of(text@) == Some(*hash_type),
{
    let text = match hash_type {
        HashType::MD5 => get_hash_md5(data),
        HashType::SHA1 => get_hash_sha1(data),
        HashType::SHA256 => get_hash_sha2(data),
    };
    proof {
        lemma_hex_lower_shape(raw_digest(*hash_type, data@));
    }
    text
}

} // verus!
