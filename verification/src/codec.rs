//! Canonical voucher encoding.
//!
//! A claim voucher is hashed over the exact concatenation, with no
//! delimiters or length prefixes, of the recipient identity, the escrow
//! identifier, the big-endian expiry timestamp and the big-endian amount.
//! The signer and the verifier must produce byte-identical pre-images, so
//! the field order and the integer encodings are fixed here.

use vstd::prelude::*;

verus! {

/// The 8 bytes of `n` in big-endian order.
pub open spec fn u64_be_bytes(n: u64) -> Seq<u8> {
    seq![
        (n >> 56) as u8,
        (n >> 48) as u8,
        (n >> 40) as u8,
        (n >> 32) as u8,
        (n >> 24) as u8,
        (n >> 16) as u8,
        (n >> 8) as u8,
        n as u8,
    ]
}

/// The 16 bytes of `n` in big-endian order.
pub open spec fn u128_be_bytes(n: u128) -> Seq<u8> {
    seq![
        (n >> 120) as u8,
        (n >> 112) as u8,
        (n >> 104) as u8,
        (n >> 96) as u8,
        (n >> 88) as u8,
        (n >> 80) as u8,
        (n >> 72) as u8,
        (n >> 64) as u8,
        (n >> 56) as u8,
        (n >> 48) as u8,
        (n >> 40) as u8,
        (n >> 32) as u8,
        (n >> 24) as u8,
        (n >> 16) as u8,
        (n >> 8) as u8,
        n as u8,
    ]
}

/// The canonical pre-image that an authorizer signs for one voucher:
/// `recipient ‖ giveaway_id ‖ expiry(be) ‖ amount(be)`.
pub open spec fn voucher_message(
    recipient: Seq<u8>,
    giveaway_id: Seq<u8>,
    expiry_timestamp: u64,
    amount: u128,
) -> Seq<u8> {
    recipient + giveaway_id + u64_be_bytes(expiry_timestamp) + u128_be_bytes(amount)
}

/// Appends the big-endian bytes of `n` to `out`.
pub fn push_u64_be(out: &mut Vec<u8>, n: u64)
    ensures
        final(out)@ == old(out)@ + u64_be_bytes(n),
{
    out.push((n >> 56) as u8);
    out.push((n >> 48) as u8);
    out.push((n >> 40) as u8);
    out.push((n >> 32) as u8);
    out.push((n >> 24) as u8);
    out.push((n >> 16) as u8);
    out.push((n >> 8) as u8);
    out.push(n as u8);
    assert(out@ =~= old(out)@ + u64_be_bytes(n));
}

/// Appends the big-endian bytes of `n` to `out`.
pub fn push_u128_be(out: &mut Vec<u8>, n: u128)
    ensures
        final(out)@ == old(out)@ + u128_be_bytes(n),
{
    out.push((n >> 120) as u8);
    out.push((n >> 112) as u8);
    out.push((n >> 104) as u8);
    out.push((n >> 96) as u8);
    out.push((n >> 88) as u8);
    out.push((n >> 80) as u8);
    out.push((n >> 72) as u8);
    out.push((n >> 64) as u8);
    out.push((n >> 56) as u8);
    out.push((n >> 48) as u8);
    out.push((n >> 40) as u8);
    out.push((n >> 32) as u8);
    out.push((n >> 24) as u8);
    out.push((n >> 16) as u8);
    out.push((n >> 8) as u8);
    out.push(n as u8);
    assert(out@ =~= old(out)@ + u128_be_bytes(n));
}

/// Appends every byte of `bytes` to `out`, in order.
pub fn push_bytes(out: &mut Vec<u8>, bytes: &[u8])
    ensures
        final(out)@ == old(out)@ + bytes@,
{
    let mut i: usize = 0;
    while i < bytes.len()
        invariant
            i <= bytes@.len(),
            out@ == old(out)@ + bytes@.take(i as int),
        decreases bytes@.len() - i,
    {
        out.push(bytes[i]);
        assert(out@ =~= old(out)@ + bytes@.take(i + 1));
        i = i + 1;
    }
    assert(out@ =~= old(out)@ + bytes@);
}

/// Builds the canonical voucher pre-image for one claim.
pub fn encode_voucher_message(
    recipient: &[u8; 32],
    giveaway_id: &[u8; 20],
    expiry_timestamp: u64,
    amount: u128,
) -> (message: Vec<u8>)
    ensures
        message@ == voucher_message(recipient@, giveaway_id@, expiry_timestamp, amount),
        message@.len() == 76,
{
    let mut message: Vec<u8> = Vec::new();
    push_bytes(&mut message, recipient.as_slice());
    push_bytes(&mut message, giveaway_id.as_slice());
    push_u64_be(&mut message, expiry_timestamp);
    push_u128_be(&mut message, amount);
    assert(message@ =~= voucher_message(recipient@, giveaway_id@, expiry_timestamp, amount));
    message
}

} // verus!
