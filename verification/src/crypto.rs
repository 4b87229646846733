//! The calls this library makes into `subtle`, `sha2` and `ring`.
use vstd::prelude::*;
use subtle::ConstantTimeEq;
use sha2::Digest;

verus! {

/// The SHA-256 digest of `data`, as `sha2::Sha256` computes it.
pub uninterp spec fn sha256_digest(data: Seq<u8>) -> Seq<u8>;

/// The HMAC-SHA256 tag of `data` under `key`, as `ring::hmac` computes it.
pub uninterp spec fn hmac_sha256_tag(key: Seq<u8>, data: Seq<u8>) -> Seq<u8>;

/// Compares two byte strings with `subtle::ConstantTimeEq::ct_eq`. For slices,
/// `subtle` answers false at once when the lengths differ and otherwise ANDs the
/// byte-wise comparisons; the contract claims the answer is whether the two are
/// equal.
#[verifier::external_body]
pub(crate) fn ct_eq_bytes(a: &[u8], b: &[u8]) -> (r: bool)
    ensures
        r == (a@ == b@),
{
    a.ct_eq(b).into()
}

/// Hashes `data` with `sha2::Sha256::digest`. The contract names the result
/// `sha256_digest(data)` and claims its 32-byte length, as the algorithm fixes.
#[verifier::external_body]
pub(crate) fn sha256(data: &[u8]) -> (r: Vec<u8>)
    ensures
        r@ == sha256_digest(data@),
        r@.len() == 32,
{
    sha2::Sha256::digest(data).to_vec()
}

/// Signs `data` with `ring::hmac::sign` under a `ring::hmac::Key` made by
/// `Key::new(HMAC_SHA256, key)`. The contract names the tag
/// `hmac_sha256_tag(key, data)` and claims its 32-byte length. `ring` panics
/// only on inputs beyond 2^61 bytes, which `requires` leaves out.
#[verifier::external_body]
pub(crate) fn hmac_sha256(key: &[u8], data: &[u8]) -> (r: Vec<u8>)
    requires
        data@.len() < 0x1000_0000_0000_0000,
    ensures
        r@ == hmac_sha256_tag(key@, data@),
        r@.len() == 32,
{
    let k = ring::hmac::Key::new(ring::hmac::HMAC_SHA256, key);
    ring::hmac::sign(&k, data).as_ref().to_vec()
}

} // verus!
