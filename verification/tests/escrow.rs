use giveaway::codec::encode_voucher_message;
use giveaway::errors::GiveawayError;
use giveaway::pool::{
    create_non_put_giveaway, create_put_giveaway, receive_non_put_giveaway, receive_put_giveaway,
    refund_put, refund_token, GiveawayPool,
};
use giveaway::voucher::{recover_signer_fingerprint, verify_voucher_signature};
use sha3::Digest;

fn keccak(data: &[u8]) -> Vec<u8> {
    sha3::Keccak256::digest(data).to_vec()
}

fn test_secret_key(seed: u8) -> libsecp256k1::SecretKey {
    let mut bytes = [0u8; 32];
    bytes[31] = seed;
    bytes[0] = 0x0B;
    libsecp256k1::SecretKey::parse(&bytes).unwrap()
}

/// The 20-byte fingerprint of the secret key's public key: the trailing
/// bytes of the Keccak-256 digest of the uncompressed key.
fn authorizer_id(secret_key: &libsecp256k1::SecretKey) -> [u8; 20] {
    let public_key = libsecp256k1::PublicKey::from_secret_key(secret_key);
    let serialized = public_key.serialize();
    let digest = keccak(&serialized[1..]);
    let mut id = [0u8; 20];
    id.copy_from_slice(&digest[12..32]);
    id
}

fn sign_message(secret_key: &libsecp256k1::SecretKey, message: &[u8]) -> [u8; 65] {
    let hash = keccak(message);
    let parsed = libsecp256k1::Message::parse_slice(&hash).unwrap();
    let (signature, recovery_id) = libsecp256k1::sign(&parsed, secret_key);
    let mut out = [0u8; 65];
    out[..64].copy_from_slice(&signature.serialize());
    out[64] = recovery_id.serialize() + 27;
    out
}

fn sign_voucher(
    secret_key: &libsecp256k1::SecretKey,
    recipient: &[u8; 32],
    giveaway_id: &[u8; 20],
    timestamp: u64,
    amount: u128,
) -> [u8; 65] {
    let message = encode_voucher_message(recipient, giveaway_id, timestamp, amount);
    sign_message(secret_key, &message)
}

fn funded_pool(creator: [u8; 32], amount: u128) -> (GiveawayPool, u128, u128) {
    let mut payer_balance: u128 = amount * 2;
    let mut pool_balance: u128 = 0;
    let pool = create_put_giveaway(&creator, 0, amount, &mut payer_balance, &mut pool_balance)
        .unwrap();
    (pool, pool_balance, payer_balance)
}

#[test]
fn create_moves_funds_and_binds_creator() {
    let creator = [9u8; 32];
    let mut payer_balance: u128 = 1500;
    let mut pool_balance: u128 = 7;
    let pool = create_put_giveaway(&creator, 4, 1000, &mut payer_balance, &mut pool_balance)
        .unwrap();
    assert_eq!(pool.creator, creator);
    assert_eq!(pool.total_amount, 1000);
    assert!(pool.receive_records.is_empty());
    assert_eq!(payer_balance, 500);
    assert_eq!(pool_balance, 1007);
}

#[test]
fn create_fails_on_insufficient_funds() {
    let creator = [9u8; 32];
    let mut payer_balance: u128 = 999;
    let mut pool_balance: u128 = 0;
    let result = create_put_giveaway(&creator, 0, 1000, &mut payer_balance, &mut pool_balance);
    assert_eq!(result.unwrap_err(), GiveawayError::Overflow);
    assert_eq!(payer_balance, 999);
    assert_eq!(pool_balance, 0);
}

#[test]
fn create_token_escrow() {
    let creator = [8u8; 32];
    let mut from_balance: u128 = 300;
    let mut token_pool_balance: u128 = 0;
    let pool =
        create_non_put_giveaway(&creator, 2, 250, &mut from_balance, &mut token_pool_balance)
            .unwrap();
    assert_eq!(pool.total_amount, 250);
    assert_eq!(from_balance, 50);
    assert_eq!(token_pool_balance, 250);
}

#[test]
fn signature_verifies_for_bound_authorizer() {
    let secret_key = test_secret_key(1);
    let giveaway_id = authorizer_id(&secret_key);
    let recipient = [5u8; 32];
    let signature = sign_voucher(&secret_key, &recipient, &giveaway_id, 900, 400);
    let message = encode_voucher_message(&recipient, &giveaway_id, 900, 400);
    assert!(verify_voucher_signature(&message, &signature, &giveaway_id).is_ok());

    let fingerprint = recover_signer_fingerprint(&message, &signature).unwrap();
    assert_eq!(fingerprint, giveaway_id.to_vec());
}

#[test]
fn expiry_boundary_is_exclusive() {
    let secret_key = test_secret_key(1);
    let giveaway_id = authorizer_id(&secret_key);
    let recipient = [5u8; 32];
    let expiry: u64 = 1_000;
    let signature = sign_voucher(&secret_key, &recipient, &giveaway_id, expiry, 400);

    // Strictly before the expiry instant: accepted.
    let (mut pool, mut pool_balance, _) = funded_pool([9u8; 32], 1000);
    let mut recipient_balance: u128 = 0;
    let accepted = receive_put_giveaway(
        &mut pool,
        &mut pool_balance,
        &mut recipient_balance,
        &giveaway_id,
        &recipient,
        400,
        expiry,
        &signature,
        expiry - 1,
    );
    assert!(accepted.is_ok());
    assert_eq!(recipient_balance, 400);

    // At the expiry instant: rejected.
    let (mut pool, mut pool_balance, _) = funded_pool([9u8; 32], 1000);
    let mut recipient_balance: u128 = 0;
    let at_expiry = receive_put_giveaway(
        &mut pool,
        &mut pool_balance,
        &mut recipient_balance,
        &giveaway_id,
        &recipient,
        400,
        expiry,
        &signature,
        expiry,
    );
    assert_eq!(at_expiry.unwrap_err(), GiveawayError::Overtime);

    // After the expiry instant: rejected.
    let (mut pool, mut pool_balance, _) = funded_pool([9u8; 32], 1000);
    let mut recipient_balance: u128 = 0;
    let after_expiry = receive_put_giveaway(
        &mut pool,
        &mut pool_balance,
        &mut recipient_balance,
        &giveaway_id,
        &recipient,
        400,
        expiry,
        &signature,
        expiry + 1,
    );
    assert_eq!(after_expiry.unwrap_err(), GiveawayError::Overtime);
    assert_eq!(recipient_balance, 0);
    assert_eq!(pool.total_amount, 1000);
}

#[test]
fn tampered_voucher_is_forbidden() {
    let secret_key = test_secret_key(1);
    let giveaway_id = authorizer_id(&secret_key);
    let recipient = [5u8; 32];
    let expiry: u64 = 1_000;
    let amount: u128 = 400;
    let signature = sign_voucher(&secret_key, &recipient, &giveaway_id, expiry, amount);

    let claim = |giveaway_id: &[u8; 20], amount: u128, expiry: u64, signature: &[u8; 65]| {
        let (mut pool, mut pool_balance, _) = funded_pool([9u8; 32], 2_000_000);
        let mut recipient_balance: u128 = 0;
        receive_put_giveaway(
            &mut pool,
            &mut pool_balance,
            &mut recipient_balance,
            giveaway_id,
            &recipient,
            amount,
            expiry,
            signature,
            1,
        )
    };
    assert!(claim(&giveaway_id, amount, expiry, &signature).is_ok());

    // A different amount than the signed one.
    assert_eq!(
        claim(&giveaway_id, amount ^ 1, expiry, &signature).unwrap_err(),
        GiveawayError::Forbidden
    );
    // A different expiry than the signed one.
    assert_eq!(
        claim(&giveaway_id, amount, expiry ^ 1, &signature).unwrap_err(),
        GiveawayError::Forbidden
    );
    // A flipped bit in the escrow identifier.
    let mut other_id = giveaway_id;
    other_id[3] ^= 0x10;
    assert_eq!(
        claim(&other_id, amount, expiry, &signature).unwrap_err(),
        GiveawayError::Forbidden
    );
    // A flipped bit in the signature body.
    let mut bad_signature = signature;
    bad_signature[10] ^= 0x04;
    assert_eq!(
        claim(&giveaway_id, amount, expiry, &bad_signature).unwrap_err(),
        GiveawayError::Forbidden
    );
    // A recovery indicator outside the legacy 27/28 convention.
    let mut bad_indicator = signature;
    bad_indicator[64] ^= 0x40;
    assert_eq!(
        claim(&giveaway_id, amount, expiry, &bad_indicator).unwrap_err(),
        GiveawayError::Forbidden
    );
}

#[test]
fn voucher_binds_to_one_authorizer() {
    let authorizer_a = test_secret_key(1);
    let authorizer_b = test_secret_key(2);
    let id_a = authorizer_id(&authorizer_a);
    let id_b = authorizer_id(&authorizer_b);
    assert_ne!(id_a, id_b);

    let recipient = [5u8; 32];
    // Signed by A over B's escrow identifier: well-formed, unexpired, and
    // still rejected against B's escrow.
    let signature = sign_voucher(&authorizer_a, &recipient, &id_b, 1_000, 400);
    let (mut pool, mut pool_balance, _) = funded_pool([9u8; 32], 1000);
    let mut recipient_balance: u128 = 0;
    let result = receive_put_giveaway(
        &mut pool,
        &mut pool_balance,
        &mut recipient_balance,
        &id_b,
        &recipient,
        400,
        1_000,
        &signature,
        1,
    );
    assert_eq!(result.unwrap_err(), GiveawayError::Forbidden);
    assert_eq!(pool.total_amount, 1000);
    assert_eq!(recipient_balance, 0);
}

#[test]
fn claim_sufficiency_boundary() {
    let secret_key = test_secret_key(1);
    let giveaway_id = authorizer_id(&secret_key);
    let recipient = [5u8; 32];

    // One more than the remaining balance: ExceedError.
    let signature = sign_voucher(&secret_key, &recipient, &giveaway_id, 1_000, 1_001);
    let (mut pool, mut pool_balance, _) = funded_pool([9u8; 32], 1000);
    let mut recipient_balance: u128 = 0;
    let result = receive_put_giveaway(
        &mut pool,
        &mut pool_balance,
        &mut recipient_balance,
        &giveaway_id,
        &recipient,
        1_001,
        1_000,
        &signature,
        1,
    );
    assert_eq!(result.unwrap_err(), GiveawayError::ExceedError);
    assert_eq!(pool.total_amount, 1000);

    // Exactly the remaining balance: accepted, and the escrow drains.
    let signature = sign_voucher(&secret_key, &recipient, &giveaway_id, 1_000, 1_000);
    let result = receive_put_giveaway(
        &mut pool,
        &mut pool_balance,
        &mut recipient_balance,
        &giveaway_id,
        &recipient,
        1_000,
        1_000,
        &signature,
        1,
    );
    assert!(result.is_ok());
    assert_eq!(pool.total_amount, 0);
    assert_eq!(recipient_balance, 1_000);
}

#[test]
fn claim_aborts_whole_operation_on_overflow() {
    let secret_key = test_secret_key(1);
    let giveaway_id = authorizer_id(&secret_key);
    let recipient = [5u8; 32];
    let signature = sign_voucher(&secret_key, &recipient, &giveaway_id, 1_000, 400);
    let (mut pool, mut pool_balance, _) = funded_pool([9u8; 32], 1000);
    let mut recipient_balance: u128 = u128::MAX;
    let result = receive_put_giveaway(
        &mut pool,
        &mut pool_balance,
        &mut recipient_balance,
        &giveaway_id,
        &recipient,
        400,
        1_000,
        &signature,
        1,
    );
    assert_eq!(result.unwrap_err(), GiveawayError::Overflow);
    assert_eq!(pool.total_amount, 1000);
    assert_eq!(pool_balance, 1000);
    assert_eq!(recipient_balance, u128::MAX);
}

#[test]
fn token_claim_signs_over_payer_identity() {
    let secret_key = test_secret_key(3);
    let giveaway_id = authorizer_id(&secret_key);
    let payer = [6u8; 32];
    let signature = sign_voucher(&secret_key, &payer, &giveaway_id, 500, 70);

    let creator = [9u8; 32];
    let mut from_balance: u128 = 100;
    let mut token_pool_balance: u128 = 0;
    let mut pool =
        create_non_put_giveaway(&creator, 0, 100, &mut from_balance, &mut token_pool_balance)
            .unwrap();
    let mut to_balance: u128 = 0;
    let result = receive_non_put_giveaway(
        &mut pool,
        &mut token_pool_balance,
        &mut to_balance,
        &giveaway_id,
        &payer,
        70,
        500,
        &signature,
        499,
    );
    assert!(result.is_ok());
    assert_eq!(pool.total_amount, 30);
    assert_eq!(token_pool_balance, 30);
    assert_eq!(to_balance, 70);

    // The same voucher against a different submitting payer fails.
    let other_payer = [7u8; 32];
    let result = receive_non_put_giveaway(
        &mut pool,
        &mut token_pool_balance,
        &mut to_balance,
        &giveaway_id,
        &other_payer,
        30,
        500,
        &signature,
        499,
    );
    assert_eq!(result.unwrap_err(), GiveawayError::Forbidden);
}

#[test]
fn refund_restricted_to_creator() {
    let creator = [9u8; 32];
    let (mut pool, mut pool_balance, _) = funded_pool(creator, 1000);
    let mut caller_balance: u128 = 10;

    let outsider = [8u8; 32];
    let result = refund_put(&mut pool, &mut pool_balance, &mut caller_balance, &outsider);
    assert_eq!(result.unwrap_err(), GiveawayError::Forbidden);
    assert_eq!(pool.total_amount, 1000);
    assert_eq!(caller_balance, 10);

    let result = refund_put(&mut pool, &mut pool_balance, &mut caller_balance, &creator);
    assert!(result.is_ok());
    assert_eq!(pool.total_amount, 0);
    assert_eq!(pool_balance, 0);
    assert_eq!(caller_balance, 1010);
}

#[test]
fn token_refund_drains_record() {
    let creator = [4u8; 32];
    let mut from_balance: u128 = 500;
    let mut token_pool_balance: u128 = 0;
    let mut pool =
        create_non_put_giveaway(&creator, 0, 500, &mut from_balance, &mut token_pool_balance)
            .unwrap();
    let mut to_balance: u128 = 0;
    let result = refund_token(&mut pool, &mut token_pool_balance, &mut to_balance, &creator);
    assert!(result.is_ok());
    assert_eq!(pool.total_amount, 0);
    assert_eq!(token_pool_balance, 0);
    assert_eq!(to_balance, 500);
}

#[test]
fn end_to_end_scenario() {
    let secret_key = test_secret_key(1);
    let giveaway_id = authorizer_id(&secret_key);
    let creator = [9u8; 32];
    let claimant = [5u8; 32];

    // Create the escrow with 1000.
    let mut creator_balance: u128 = 1_000;
    let mut pool_balance: u128 = 0;
    let mut pool =
        create_put_giveaway(&creator, 0, 1_000, &mut creator_balance, &mut pool_balance).unwrap();
    assert_eq!(creator_balance, 0);

    // Claim 400 with a voucher expiring in the future.
    let mut claimant_balance: u128 = 0;
    let signature = sign_voucher(&secret_key, &claimant, &giveaway_id, 2_000, 400);
    let claimed = receive_put_giveaway(
        &mut pool,
        &mut pool_balance,
        &mut claimant_balance,
        &giveaway_id,
        &claimant,
        400,
        2_000,
        &signature,
        100,
    );
    assert!(claimed.is_ok());
    assert_eq!(pool.total_amount, 600);
    assert_eq!(pool_balance, 600);
    assert_eq!(claimant_balance, 400);

    // A subsequent claim of 700 exceeds the remainder.
    let signature = sign_voucher(&secret_key, &claimant, &giveaway_id, 2_000, 700);
    let exceeded = receive_put_giveaway(
        &mut pool,
        &mut pool_balance,
        &mut claimant_balance,
        &giveaway_id,
        &claimant,
        700,
        2_000,
        &signature,
        100,
    );
    assert_eq!(exceeded.unwrap_err(), GiveawayError::ExceedError);

    // The creator reclaims the remaining 600.
    let refunded = refund_put(&mut pool, &mut pool_balance, &mut creator_balance, &creator);
    assert!(refunded.is_ok());
    assert_eq!(creator_balance, 600);
    assert_eq!(pool.total_amount, 0);
    assert_eq!(pool_balance, 0);

    // Balance conservation over the whole run: everything paid out plus
    // what is left equals the deposit.
    assert_eq!(claimant_balance + creator_balance + pool.total_amount, 1_000);
}

#[test]
fn malformed_signature_recovers_no_signer() {
    let message = encode_voucher_message(&[5u8; 32], &[1u8; 20], 1_000, 400);
    // r far above the curve order: no key can be recovered.
    let mut signature = [0xFFu8; 65];
    signature[64] = 27;
    assert!(recover_signer_fingerprint(&message, &signature).is_none());
    assert_eq!(
        verify_voucher_signature(&message, &signature, &[1u8; 20]).unwrap_err(),
        GiveawayError::Forbidden
    );
}
