//! Preimage generation and reconciliation. A preimage is a 32-byte secret;
//! its SHA-256 digest, hex-encoded, is the payment hash under which an
//! invoice is known. The digest itself comes from the `sha2` crate and is
//! only named here, so the reconciliation check is verified relative to
//! that name: it accepts exactly the pairs whose hash is the re-computed
//! digest of the decoded preimage.

use vstd::prelude::*;
use sha2::Digest;
use rand::Rng;
use crate::hexstr::{bytes_of_hex, hex_decode, hex_encode, hex_of, lemma_hex_round_trip};

verus! {

/// The SHA-256 digest of a byte string, a function of the bytes alone.
pub uninterp spec fn sha256_of(data: Seq<u8>) -> Seq<u8>;

/// Relies on `sha2::Sha256::digest`: the digest depends on the input
/// bytes alone and is always 32 bytes long.
#[verifier::external_body]
fn sha256(data: &Vec<u8>) -> (r: Vec<u8>)
    ensures
        r@ == sha256_of(data@),
        r@.len() == 32,
{
    sha2::Sha256::digest(data).to_vec()
}

/// Relies on `rand::rng` and `RngCore::fill_bytes` for a buffer of random
/// bytes; nothing is assumed of the values drawn.
#[verifier::external_body]
fn random_bytes32() -> (r: Vec<u8>)
    ensures
        r@.len() == 32,
{
    let mut buf = vec![0u8; 32];
    rand::rng().fill_bytes(&mut buf);
    buf
}

/// The hex-encoded SHA-256 digest of `data`: the payment hash belonging
/// to a preimage, always 64 characters.
pub fn digest_hex(data: &Vec<u8>) -> (r: String)
    ensures
        r@ == hex_of(sha256_of(data@)),
        r@.len() == 64,
{
    let h = sha256(data);
    let r = hex_encode(&h);
    proof {
        crate::hexstr::lemma_hex_of_shape(h@);
    }
    r
}

/// Draws a fresh 32-byte preimage and returns it hex-encoded, together
/// with its hex-encoded payment hash; both texts are 64 characters.
pub fn generate_preimage() -> (r: (String, String))
    ensures
        exists|p: Seq<u8>|
            p.len() == 32 && r.0@ == #[trigger] hex_of(p) && r.1@ == hex_of(sha256_of(p)),
        r.0@.len() == 64,
        r.1@.len() == 64,
{
    let p = random_bytes32();
    let preimage_hex = hex_encode(&p);
    let hash_hex = digest_hex(&p);
    proof {
        crate::hexstr::lemma_hex_of_shape(p@);
        assert(p@.len() == 32 && preimage_hex@ == hex_of(p@) && hash_hex@ == hex_of(
            sha256_of(p@),
        ));
    }
    (preimage_hex, hash_hex)
}

/// The reconciliation judgment: the preimage text decodes to bytes whose
/// digest, hex-encoded, is exactly the given hash text.
pub open spec fn preimage_matches_hash(preimage_hex: Seq<char>, hash_hex: Seq<char>) -> bool {
    match bytes_of_hex(preimage_hex) {
        Some(p) => hash_hex == hex_of(sha256_of(p)),
        None => false,
    }
}

/// Checks a preimage/hash pair before an invoice is created from it: the
/// preimage must decode as hexadecimal and its digest must equal the hash.
pub fn confirm_preimage(preimage_hex: &String, hash_hex: &String) -> (r: bool)
    ensures
        r == preimage_matches_hash(preimage_hex@, hash_hex@),
{
    match hex_decode(preimage_hex.as_str()) {
        Some(p) => {
            let recomputed = digest_hex(&p);
            recomputed.eq(hash_hex)
        },
        None => false,
    }
}

/// A pair produced from a preimage reconciles: hex text decodes back to
/// the preimage, and the stored hash is its digest.
pub proof fn lemma_generated_pair_reconciles(p: Seq<u8>)
    ensures
        preimage_matches_hash(hex_of(p), hex_of(sha256_of(p))),
{
    lemma_hex_round_trip(p);
}

/// A preimage with a different digest is rejected against the stored
/// hash. (Two preimages with equal digests — a SHA-256 collision — are
/// indistinguishable to the check by its nature.)
pub proof fn lemma_distinct_digest_rejected(q: Seq<u8>, p: Seq<u8>)
    requires
        sha256_of(q) != sha256_of(p),
    ensures
        !preimage_matches_hash(hex_of(q), hex_of(sha256_of(p))),
{
    lemma_hex_round_trip(q);
    lemma_hex_round_trip(sha256_of(q));
    lemma_hex_round_trip(sha256_of(p));
}

} // verus!
