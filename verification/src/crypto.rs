//! Trusted boundary to the cryptographic primitives.
//!
//! The verifier's logic needs Keccak-256 and recoverable ECDSA public-key
//! recovery over secp256k1.  Both results are deterministic functions of
//! their arguments alone, far too large to state, so each is given an
//! uninterpreted name that the callers' contracts speak of.

use sha3::Digest;
use vstd::prelude::*;

verus! {

/// The Keccak-256 digest of `data`: 32 bytes, a function of `data` alone.
pub uninterp spec fn keccak256_of(data: Seq<u8>) -> Seq<u8>;

/// The uncompressed secp256k1 public key (64 bytes, `x ‖ y`) recovered from
/// a 32-byte message hash, a recovery id and a 64-byte `r ‖ s` signature,
/// or `None` where no key can be recovered (overflowing scalar, recovery id
/// above 3, or no curve point matching `r`).  A function of the arguments
/// alone.
pub uninterp spec fn secp256k1_recovered(
    hash: Seq<u8>,
    recovery_id: u8,
    signature: Seq<u8>,
) -> Option<Seq<u8>>;

/// Relies on sha3's `Keccak256` (`Digest::digest`): the Keccak-256 digest
/// is 32 bytes and depends on the input bytes alone.
#[verifier::external_body]
pub fn keccak256(data: &[u8]) -> (digest: Vec<u8>)
    ensures
        digest@ == keccak256_of(data@),
        digest@.len() == 32,
{
    sha3::Keccak256::digest(data).to_vec()
}

/// Relies on libsecp256k1's `recover`, with `Message::parse_slice`,
/// `Signature::parse_standard_slice` and `RecoveryId::parse` converting the
/// arguments: recovery is a deterministic function of the hash, the
/// recovery id and the `r ‖ s` bytes; it fails on a malformed signature or
/// an invalid recovery id, and a recovered key serializes uncompressed to
/// `0x04 ‖ x ‖ y`, of which the trailing 64 bytes are returned.
#[verifier::external_body]
pub fn secp256k1_recover(hash: &[u8], recovery_id: u8, signature: &[u8]) -> (key: Option<
    Vec<u8>,
>)
    ensures
        key is Some <==> secp256k1_recovered(hash@, recovery_id, signature@) is Some,
        key matches Some(k) ==> Some(k@) == secp256k1_recovered(hash@, recovery_id, signature@)
            && k@.len() == 64,
{
    let message = libsecp256k1::Message::parse_slice(hash).ok()?;
    let sig = libsecp256k1::Signature::parse_standard_slice(signature).ok()?;
    let rid = libsecp256k1::RecoveryId::parse(recovery_id).ok()?;
    Some(libsecp256k1::recover(&message, &sig, &rid).ok()?.serialize()[1..].to_vec())
}

} // verus!
