//! Recoverable-signature verification of claim vouchers.
//!
//! The canonical voucher bytes are hashed with Keccak-256; the signer's
//! public key is recovered from the 65-byte `r ‖ s ‖ v` signature, with `v`
//! normalized from the legacy 27/28 convention to 0/1; the trailing 20
//! bytes of the Keccak-256 digest of the recovered key form the signer's
//! fingerprint, which must equal the escrow's bound authorizer identity —
//! by construction the escrow identifier itself.

use crate::crypto::{keccak256, keccak256_of, secp256k1_recover, secp256k1_recovered};
use crate::errors::GiveawayError;
use vstd::prelude::*;

verus! {

/// The 20-byte fingerprint of an uncompressed public key: the trailing 20
/// bytes of its Keccak-256 digest.
pub open spec fn fingerprint_of(public_key: Seq<u8>) -> Seq<u8> {
    keccak256_of(public_key).subrange(12, 32)
}

/// The legacy recovery indicator 27/28 normalized to 0/1; any other value
/// is malformed.
pub open spec fn normalized_recovery_id(v: u8) -> Option<u8> {
    if v == 27 {
        Some(0u8)
    } else if v == 28 {
        Some(1u8)
    } else {
        None
    }
}

/// The fingerprint of whoever signed `message` with the 65-byte signature,
/// or `None` where no signer can be recovered.
pub open spec fn voucher_signer(message: Seq<u8>, signature: Seq<u8>) -> Option<Seq<u8>> {
    match normalized_recovery_id(signature[64]) {
        Some(recovery_id) => match secp256k1_recovered(
            keccak256_of(message),
            recovery_id,
            signature.subrange(0, 64),
        ) {
            Some(public_key) => Some(fingerprint_of(public_key)),
            None => None,
        },
        None => None,
    }
}

/// A voucher is authorized exactly when its signer's fingerprint equals the
/// expected authorizer identity.
pub open spec fn voucher_authorized(
    message: Seq<u8>,
    signature: Seq<u8>,
    expected_authorizer: Seq<u8>,
) -> bool {
    voucher_signer(message, signature) == Some(expected_authorizer)
}

/// Recovers the authorizer fingerprint from a signed voucher pre-image, or
/// `None` where the signature is malformed or recovers to no key.
pub fn recover_signer_fingerprint(message: &[u8], signature: &[u8; 65]) -> (fingerprint: Option<
    Vec<u8>,
>)
    ensures
        fingerprint is Some <==> voucher_signer(message@, signature@) is Some,
        fingerprint matches Some(f) ==> Some(f@) == voucher_signer(message@, signature@)
            && f@.len() == 20,
{
    let v: u8 = signature[64];
    if v != 27 && v != 28 {
        return None;
    }
    let recovery_id: u8 = v - 27;
    let hash: Vec<u8> = keccak256(message);
    let r_s: &[u8] = &signature.as_slice()[0..64];
    assert(r_s@ =~= signature@.subrange(0, 64));
    match secp256k1_recover(hash.as_slice(), recovery_id, r_s) {
        Some(public_key) => {
            let key_digest: Vec<u8> = keccak256(public_key.as_slice());
            let fingerprint_slice: &[u8] = &key_digest.as_slice()[12..32];
            assert(fingerprint_slice@ =~= fingerprint_of(public_key@));
            let mut fingerprint: Vec<u8> = Vec::new();
            crate::codec::push_bytes(&mut fingerprint, fingerprint_slice);
            Some(fingerprint)
        },
        None => None,
    }
}

/// Compares two byte strings for equality.
pub fn bytes_eq(a: &[u8], b: &[u8]) -> (equal: bool)
    ensures
        equal == (a@ == b@),
{
    if a.len() != b.len() {
        assert(a@.len() != b@.len());
        return false;
    }
    let mut i: usize = 0;
    while i < a.len()
        invariant
            i <= a@.len(),
            a@.len() == b@.len(),
            forall|j: int| 0 <= j < i ==> a@[j] == b@[j],
        decreases a@.len() - i,
    {
        if a[i] != b[i] {
            return false;
        }
        i = i + 1;
    }
    assert(a@ =~= b@);
    true
}

/// Authenticates a voucher pre-image against the escrow's bound authorizer:
/// succeeds exactly when the recovered signer fingerprint equals
/// `expected_authorizer`, and rejects with `Forbidden` otherwise — also
/// where the signature is malformed and recovers to no key at all.
pub fn verify_voucher_signature(
    message: &[u8],
    signature: &[u8; 65],
    expected_authorizer: &[u8; 20],
) -> (result: Result<(), GiveawayError>)
    ensures
        result is Ok <==> voucher_authorized(message@, signature@, expected_authorizer@),
        result matches Err(e) ==> e == GiveawayError::Forbidden,
{
    match recover_signer_fingerprint(message, signature) {
        Some(fingerprint) => {
            if bytes_eq(fingerprint.as_slice(), expected_authorizer.as_slice()) {
                Ok(())
            } else {
                Err(GiveawayError::Forbidden)
            }
        },
        None => Err(GiveawayError::Forbidden),
    }
}

} // verus!
