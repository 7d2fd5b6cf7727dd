//! The two digests of the OpenPGP encoder: SHA-1 for fingerprints and
//! SHA-256 for what is signed.

use sha1::Sha1;
use sha2::{Sha256, Sha512};
use vstd::prelude::*;

verus! {

/// The SHA-1 digest of `data`.
pub uninterp spec fn sha1_digest(data: Seq<u8>) -> Seq<u8>;

/// The SHA-256 digest of `data`.
pub uninterp spec fn sha256_digest(data: Seq<u8>) -> Seq<u8>;

/// Calls `Sha1::digest` of the `sha1` crate. Trusted: the result is the
/// SHA-1 digest of `buffer`, which has twenty octets.
#[verifier::external_body]
pub(crate) fn sha160_hash(buffer: &[u8]) -> (digest: Vec<u8>)
    ensures
        digest@ == sha1_digest(buffer@),
        digest@.len() == 20,
{
    <Sha1 as sha1::Digest>::digest(buffer).to_vec()
}

/// Calls `Sha256::digest` of the `sha2` crate. Trusted: the result is the
/// SHA-256 digest of `buffer`, which has thirty-two octets.
#[verifier::external_body]
pub(crate) fn sha256_hash(buffer: &[u8]) -> (digest: Vec<u8>)
    ensures
        digest@ == sha256_digest(buffer@),
        digest@.len() == 32,
{
    <Sha256 as sha2::Digest>::digest(buffer).to_vec()
}

/// The SHA-512 digest of `data`.
pub uninterp spec fn sha512_digest(data: Seq<u8>) -> Seq<u8>;

/// Calls `Sha512::digest` of the `sha2` crate. Trusted: the result is the
/// SHA-512 digest of `buffer`, which has sixty-four octets.
#[verifier::external_body]
fn sha512(buffer: &[u8]) -> (digest: Vec<u8>)
    ensures
        digest@ == sha512_digest(buffer@),
        digest@.len() == 64,
{
    <Sha512 as sha2::Digest>::digest(buffer).to_vec()
}

/// An octet string without the zero octets that it starts with: the octets
/// of the number that it writes, most significant first.
pub open spec fn without_leading_zeros(v: Seq<u8>) -> Seq<u8>
    decreases v.len(),
{
    if v.len() > 0 && v[0] == 0 {
        without_leading_zeros(v.skip(1))
    } else {
        v
    }
}

/// The SHA-512 digest of `buffer` as the octets of a number: without the
/// zero octets that the digest starts with.
pub fn sha512_hash(buffer: &[u8]) -> (out: Vec<u8>)
    ensures
        out@ == without_leading_zeros(sha512_digest(buffer@)),
{
    let digest = sha512(buffer);
    let mut start: usize = 0;
    proof {
        assert(digest@.skip(0) =~= digest@);
    }
    while start < digest.len() && digest[start] == 0
        invariant
            start <= digest.len(),
            without_leading_zeros(digest@) == without_leading_zeros(digest@.skip(start as int)),
        decreases digest.len() - start,
    {
        proof {
            assert(digest@.skip(start as int).skip(1) =~= digest@.skip(start + 1));
        }
        start = start + 1;
    }
    let mut out: Vec<u8> = Vec::new();
    crate::octets::extend(
        &mut out,
        vstd::slice::slice_subrange(digest.as_slice(), start, digest.len()),
    );
    proof {
        assert(out@ =~= digest@.skip(start as int));
    }
    out
}

} // verus!
