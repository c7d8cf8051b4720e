//! Content hashing: SHA-256 digests, hex-encoded.
//!
//! The digest itself comes from the `sha2` crate and is only named here;
//! the lower-case hex encoding of the digest is implemented and verified
//! in this module.

use vstd::prelude::*;
use sha2::Digest;

verus! {

/// The SHA-256 digest of a byte sequence: 32 bytes, a function of the
/// input alone. Named, not defined; the `sha2` crate computes it.
pub uninterp spec fn sha256_of(data: Seq<u8>) -> Seq<u8>;

/// Relies on `sha2::Sha256::digest` (the one-shot `Digest` API): the
/// digest depends on the input bytes alone and is exactly 32 bytes long.
#[verifier::external_body]
fn sha256_digest(data: &[u8]) -> (r: Vec<u8>)
    ensures
        r@ == sha256_of(data@),
        r@.len() == 32,
{
    sha2::Sha256::digest(data).to_vec()
}

/// Relies on `String::push`: appends exactly the one character.
#[verifier::external_body]
pub(crate) fn string_push(s: &mut String, c: char)
    ensures
        final(s)@ == old(s)@.push(c),
{
    s.push(c);
}

/// The lower-case hex character for a value below 16.
pub open spec fn spec_hex_char(n: u8) -> char
    recommends
        n < 16,
{
    if n == 0 {
        '0'
    } else if n == 1 {
        '1'
    } else if n == 2 {
        '2'
    } else if n == 3 {
        '3'
    } else if n == 4 {
        '4'
    } else if n == 5 {
        '5'
    } else if n == 6 {
        '6'
    } else if n == 7 {
        '7'
    } else if n == 8 {
        '8'
    } else if n == 9 {
        '9'
    } else if n == 10 {
        'a'
    } else if n == 11 {
        'b'
    } else if n == 12 {
        'c'
    } else if n == 13 {
        'd'
    } else if n == 14 {
        'e'
    } else {
        'f'
    }
}

/// Lower-case hex encoding of a byte sequence: two characters per byte,
/// high nibble first.
pub open spec fn spec_hex_of_bytes(data: Seq<u8>) -> Seq<char>
    decreases data.len(),
{
    if data.len() == 0 {
        Seq::empty()
    } else {
        seq![
            spec_hex_char(data.first() / 16),
            spec_hex_char(data.first() % 16),
        ] + spec_hex_of_bytes(data.drop_first())
    }
}

/// The hex-encoded SHA-256 digest of a byte sequence, as every contract
/// in this crate speaks of it.
pub open spec fn sha256_hex_of(data: Seq<u8>) -> Seq<char> {
    spec_hex_of_bytes(sha256_of(data))
}

fn hex_char(n: u8) -> (c: char)
    requires
        n < 16,
    ensures
        c == spec_hex_char(n),
{
    if n == 0 {
        '0'
    } else if n == 1 {
        '1'
    } else if n == 2 {
        '2'
    } else if n == 3 {
        '3'
    } else if n == 4 {
        '4'
    } else if n == 5 {
        '5'
    } else if n == 6 {
        '6'
    } else if n == 7 {
        '7'
    } else if n == 8 {
        '8'
    } else if n == 9 {
        '9'
    } else if n == 10 {
        'a'
    } else if n == 11 {
        'b'
    } else if n == 12 {
        'c'
    } else if n == 13 {
        'd'
    } else if n == 14 {
        'e'
    } else {
        'f'
    }
}

/// Encodes a byte slice as lower-case hex, two digits per byte.
pub fn to_hex_lower(data: &[u8]) -> (r: String)
    ensures
        r@ == spec_hex_of_bytes(data@),
        r@.len() == 2 * data@.len(),
{
    let mut r = String::new();
    let n = data.len();
    assert(data@.skip(0) =~= data@);
    for i in 0..n
        invariant
            n == data@.len(),
            spec_hex_of_bytes(data@) =~= r@ + spec_hex_of_bytes(data@.skip(i as int)),
            r@.len() == 2 * i,
    {
        let b = data[i];
        let hi = hex_char(b / 16);
        let lo = hex_char(b % 16);
        string_push(&mut r, hi);
        string_push(&mut r, lo);
        proof {
            assert(data@.skip(i as int).first() == data@[i as int]);
            assert(data@.skip(i as int).drop_first() =~= data@.skip(i + 1));
        }
    }
    proof {
        assert(data@.skip(n as int) =~= Seq::empty());
        assert(r@ + Seq::<char>::empty() =~= r@);
    }
    r
}

/// The hex-encoded SHA-256 digest of the given content: always 64
/// characters. This is the hash recorded in manifests and compared
/// during diffing and downloading.
pub fn sha256_hex(data: &[u8]) -> (r: String)
    ensures
        r@ == sha256_hex_of(data@),
        r@.len() == 64,
{
    let digest = sha256_digest(data);
    to_hex_lower(digest.as_slice())
}

} // verus!
