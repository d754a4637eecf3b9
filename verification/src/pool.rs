//! Escrow accounting engine and lifecycle operations.
//!
//! One `GiveawayPool` record exists per escrow identifier.  A create
//! operation funds it, claims move value from the escrow to a voucher's
//! recipient after expiry, sufficiency and signature checks, and a refund
//! drains the remainder back to the creator.  The host ledger is modeled by
//! the plain balances that each operation takes by mutable reference: the
//! host executes each operation atomically, so an operation either applies
//! every balance movement below or, on an error, none.

use crate::codec::{encode_voucher_message, voucher_message};
use crate::errors::GiveawayError;
use crate::voucher::{bytes_eq, verify_voucher_signature, voucher_authorized};
use vstd::prelude::*;

verus! {

/// The persistent record of one escrow: who funded it, which wallets have
/// claimed (recorded but never consulted — vouchers stay replayable up to
/// the remaining balance), and the remaining balance available for claims
/// or refund.
#[derive(Debug)]
pub struct GiveawayPool {
    /// Identity of the account that funded the escrow; immutable after
    /// creation.
    pub creator: [u8; 32],
    /// Wallets that have claimed.  Present in the data model, but no
    /// operation reads or writes it.
    pub receive_records: Vec<[u8; 32]>,
    /// Remaining balance.  Never increases after creation; decremented by
    /// claims, set to zero by a refund.
    pub total_amount: u128,
}

impl GiveawayPool {
    /// Consistency of the record with the escrow's ledger balance: the
    /// logical remaining amount is covered by what the ledger account
    /// actually holds.
    pub open spec fn consistent_with(self, ledger_balance: u128) -> bool {
        self.total_amount <= ledger_balance
    }
}

/// Storage size of a native-asset escrow record sized for
/// `giveaway_count` claim entries, as the host allocates it.
pub open spec fn spec_put_pool_space(giveaway_count: u32) -> int {
    32 + 8 + 16 + 4 + giveaway_count * 32
}

/// Storage size of a fungible-asset escrow record sized for
/// `giveaway_count` claim entries, as the host allocates it.
pub open spec fn spec_token_pool_space(giveaway_count: u32) -> int {
    32 + 8 + 16 + giveaway_count * 32
}

/// Storage size to request from the host for a native-asset escrow record,
/// or `ArgsError` where the size is unrepresentable.
pub fn put_pool_space(giveaway_count: u32) -> (result: Result<usize, GiveawayError>)
    ensures
        result matches Ok(space) ==> space == spec_put_pool_space(giveaway_count),
        result is Ok <==> spec_put_pool_space(giveaway_count) <= usize::MAX,
        result matches Err(e) ==> e == GiveawayError::ArgsError,
{
    let entries: usize = giveaway_count as usize;
    match entries.checked_mul(32) {
        Some(bytes) => match bytes.checked_add(60) {
            Some(space) => Ok(space),
            None => Err(GiveawayError::ArgsError),
        },
        None => Err(GiveawayError::ArgsError),
    }
}

/// Storage size to request from the host for a fungible-asset escrow
/// record, or `ArgsError` where the size is unrepresentable.
pub fn token_pool_space(giveaway_count: u32) -> (result: Result<usize, GiveawayError>)
    ensures
        result matches Ok(space) ==> space == spec_token_pool_space(giveaway_count),
        result is Ok <==> spec_token_pool_space(giveaway_count) <= usize::MAX,
        result matches Err(e) ==> e == GiveawayError::ArgsError,
{
    let entries: usize = giveaway_count as usize;
    match entries.checked_mul(32) {
        Some(bytes) => match bytes.checked_add(56) {
            Some(space) => Ok(space),
            None => Err(GiveawayError::ArgsError),
        },
        None => Err(GiveawayError::ArgsError),
    }
}

/// Creates a native-asset escrow: allocates the record bound to the payer
/// and moves `amount` from the payer's ledger balance into the escrow's.
pub fn create_put_giveaway(
    payer: &[u8; 32],
    giveaway_count: u32,
    amount: u128,
    payer_balance: &mut u128,
    pool_balance: &mut u128,
) -> (result: Result<GiveawayPool, GiveawayError>)
    ensures
        result matches Err(e) && e == GiveawayError::ArgsError <==> spec_put_pool_space(
            giveaway_count,
        ) > usize::MAX,
        result matches Err(e) && e == GiveawayError::Overflow <==> spec_put_pool_space(
            giveaway_count,
        ) <= usize::MAX && (amount > *old(payer_balance) || *old(pool_balance) + amount
            > u128::MAX),
        result is Ok <==> spec_put_pool_space(giveaway_count) <= usize::MAX && amount <= *old(
            payer_balance,
        ) && *old(pool_balance) + amount <= u128::MAX,
        result matches Ok(pool) ==> pool.creator@ == payer@ && pool.receive_records@.len() == 0
            && pool.total_amount == amount && *final(payer_balance) == *old(payer_balance) - amount
            && *final(pool_balance) == *old(pool_balance) + amount && pool.consistent_with(
            *final(pool_balance),
        ),
        result is Err ==> *final(payer_balance) == *old(payer_balance) && *final(pool_balance)
            == *old(pool_balance),
{
    if let Err(e) = put_pool_space(giveaway_count) {
        return Err(e);
    }
    let new_payer_balance: u128 = match payer_balance.checked_sub(amount) {
        Some(balance) => balance,
        None => {
            return Err(GiveawayError::Overflow);
        },
    };
    let new_pool_balance: u128 = match pool_balance.checked_add(amount) {
        Some(balance) => balance,
        None => {
            return Err(GiveawayError::Overflow);
        },
    };
    *payer_balance = new_payer_balance;
    *pool_balance = new_pool_balance;
    Ok(GiveawayPool { creator: *payer, receive_records: Vec::new(), total_amount: amount })
}

/// Creates a fungible-asset escrow: allocates the record bound to the payer
/// and moves `amount` of the asset from the payer's token account into the
/// escrow's token pool.
pub fn create_non_put_giveaway(
    payer: &[u8; 32],
    giveaway_count: u32,
    amount: u128,
    from_balance: &mut u128,
    token_pool_balance: &mut u128,
) -> (result: Result<GiveawayPool, GiveawayError>)
    ensures
        result matches Err(e) && e == GiveawayError::ArgsError <==> spec_token_pool_space(
            giveaway_count,
        ) > usize::MAX,
        result matches Err(e) && e == GiveawayError::Overflow <==> spec_token_pool_space(
            giveaway_count,
        ) <= usize::MAX && (amount > *old(from_balance) || *old(token_pool_balance) + amount
            > u128::MAX),
        result is Ok <==> spec_token_pool_space(giveaway_count) <= usize::MAX && amount <= *old(
            from_balance,
        ) && *old(token_pool_balance) + amount <= u128::MAX,
        result matches Ok(pool) ==> pool.creator@ == payer@ && pool.receive_records@.len() == 0
            && pool.total_amount == amount && *final(from_balance) == *old(from_balance) - amount
            && *final(token_pool_balance) == *old(token_pool_balance) + amount
            && pool.consistent_with(*final(token_pool_balance)),
        result is Err ==> *final(from_balance) == *old(from_balance) && *final(token_pool_balance)
            == *old(token_pool_balance),
{
    if let Err(e) = token_pool_space(giveaway_count) {
        return Err(e);
    }
    let new_from_balance: u128 = match from_balance.checked_sub(amount) {
        Some(balance) => balance,
        None => {
            return Err(GiveawayError::Overflow);
        },
    };
    let new_pool_balance: u128 = match token_pool_balance.checked_add(amount) {
        Some(balance) => balance,
        None => {
            return Err(GiveawayError::Overflow);
        },
    };
    *from_balance = new_from_balance;
    *token_pool_balance = new_pool_balance;
    Ok(GiveawayPool { creator: *payer, receive_records: Vec::new(), total_amount: amount })
}

/// Claims from a native-asset escrow with a voucher naming the recipient
/// wallet.  The voucher must be strictly before its expiry, covered by the
/// escrow's remaining balance, and signed by the authorizer whose
/// fingerprint is the escrow identifier; then `amount` moves from the
/// escrow's ledger balance to the recipient's.
pub fn receive_put_giveaway(
    pool: &mut GiveawayPool,
    pool_balance: &mut u128,
    recipient_balance: &mut u128,
    giveaway_id: &[u8; 20],
    wallet_address: &[u8; 32],
    amount: u128,
    timestamp: u64,
    signature: &[u8; 65],
    now: u64,
) -> (result: Result<(), GiveawayError>)
    requires
        old(pool).consistent_with(*old(pool_balance)),
    ensures
        claim_contract(
            *old(pool),
            *final(pool),
            *old(pool_balance),
            *final(pool_balance),
            *old(recipient_balance),
            *final(recipient_balance),
            voucher_message(wallet_address@, giveaway_id@, timestamp, amount),
            signature@,
            giveaway_id@,
            amount,
            timestamp,
            now,
            result,
        ),
{
    if timestamp <= now {
        return Err(GiveawayError::Overtime);
    }
    if amount > pool.total_amount {
        return Err(GiveawayError::ExceedError);
    }
    let message: Vec<u8> = encode_voucher_message(wallet_address, giveaway_id, timestamp, amount);
    if let Err(e) = verify_voucher_signature(message.as_slice(), signature, giveaway_id) {
        return Err(e);
    }
    let new_recipient_balance: u128 = match recipient_balance.checked_add(amount) {
        Some(balance) => balance,
        None => {
            return Err(GiveawayError::Overflow);
        },
    };
    *pool_balance = *pool_balance - amount;
    *recipient_balance = new_recipient_balance;
    pool.total_amount = pool.total_amount - amount;
    Ok(())
}

/// Claims from a fungible-asset escrow.  The submitting payer's identity
/// stands in the signed pre-image in place of an explicit recipient field;
/// on success the escrow's token pool pays the designated token account.
pub fn receive_non_put_giveaway(
    pool: &mut GiveawayPool,
    token_pool_balance: &mut u128,
    to_balance: &mut u128,
    giveaway_id: &[u8; 20],
    payer: &[u8; 32],
    amount: u128,
    timestamp: u64,
    signature: &[u8; 65],
    now: u64,
) -> (result: Result<(), GiveawayError>)
    requires
        old(pool).consistent_with(*old(token_pool_balance)),
    ensures
        claim_contract(
            *old(pool),
            *final(pool),
            *old(token_pool_balance),
            *final(token_pool_balance),
            *old(to_balance),
            *final(to_balance),
            voucher_message(payer@, giveaway_id@, timestamp, amount),
            signature@,
            giveaway_id@,
            amount,
            timestamp,
            now,
            result,
        ),
{
    if timestamp <= now {
        return Err(GiveawayError::Overtime);
    }
    if amount > pool.total_amount {
        return Err(GiveawayError::ExceedError);
    }
    let message: Vec<u8> = encode_voucher_message(payer, giveaway_id, timestamp, amount);
    if let Err(e) = verify_voucher_signature(message.as_slice(), signature, giveaway_id) {
        return Err(e);
    }
    let new_to_balance: u128 = match to_balance.checked_add(amount) {
        Some(balance) => balance,
        None => {
            return Err(GiveawayError::Overflow);
        },
    };
    *token_pool_balance = *token_pool_balance - amount;
    *to_balance = new_to_balance;
    pool.total_amount = pool.total_amount - amount;
    Ok(())
}

/// What both claim variants guarantee, over the escrow record, the two
/// ledger balances, the signed pre-image and the claim parameters.  Checks
/// run in a fixed order — expiry, sufficiency, signature, then the checked
/// transfer — and an operation that fails leaves every balance unchanged.
pub open spec fn claim_contract(
    pool_before: GiveawayPool,
    pool_after: GiveawayPool,
    escrow_before: u128,
    escrow_after: u128,
    recipient_before: u128,
    recipient_after: u128,
    message: Seq<u8>,
    signature: Seq<u8>,
    authorizer: Seq<u8>,
    amount: u128,
    expiry_timestamp: u64,
    now: u64,
    result: Result<(), GiveawayError>,
) -> bool {
    let unexpired = expiry_timestamp > now;
    let sufficient = amount <= pool_before.total_amount;
    let authorized = voucher_authorized(message, signature, authorizer);
    let fits = recipient_before + amount <= u128::MAX;
    &&& result == Err::<(), GiveawayError>(GiveawayError::Overtime) <==> !unexpired
    &&& result == Err::<(), GiveawayError>(GiveawayError::ExceedError) <==> unexpired
        && !sufficient
    &&& result == Err::<(), GiveawayError>(GiveawayError::Forbidden) <==> unexpired && sufficient
        && !authorized
    &&& result == Err::<(), GiveawayError>(GiveawayError::Overflow) <==> unexpired && sufficient
        && authorized && !fits
    &&& result is Ok <==> unexpired && sufficient && authorized && fits
    &&& result is Ok ==> pool_after.total_amount == pool_before.total_amount - amount
        && escrow_after == escrow_before - amount && recipient_after == recipient_before + amount
    &&& result is Err ==> pool_after == pool_before && escrow_after == escrow_before
        && recipient_after == recipient_before
    &&& pool_after.creator == pool_before.creator
    &&& pool_after.receive_records == pool_before.receive_records
    &&& pool_before.consistent_with(escrow_before) ==> pool_after.consistent_with(escrow_after)
}

/// Refunds a native-asset escrow: only the stored creator may invoke it;
/// the whole remaining balance moves back to the creator and the record is
/// drained to zero.
pub fn refund_put(
    pool: &mut GiveawayPool,
    pool_balance: &mut u128,
    creator_balance: &mut u128,
    payer: &[u8; 32],
) -> (result: Result<(), GiveawayError>)
    requires
        old(pool).consistent_with(*old(pool_balance)),
    ensures
        refund_contract(
            *old(pool),
            *final(pool),
            *old(pool_balance),
            *final(pool_balance),
            *old(creator_balance),
            *final(creator_balance),
            payer@,
            result,
        ),
{
    if !bytes_eq(payer.as_slice(), pool.creator.as_slice()) {
        return Err(GiveawayError::Forbidden);
    }
    let remain_fund: u128 = pool.total_amount;
    let new_creator_balance: u128 = match creator_balance.checked_add(remain_fund) {
        Some(balance) => balance,
        None => {
            return Err(GiveawayError::Overflow);
        },
    };
    *pool_balance = *pool_balance - remain_fund;
    *creator_balance = new_creator_balance;
    pool.total_amount = 0;
    Ok(())
}

/// Refunds a fungible-asset escrow: the creator-only check and the drain
/// mirror the native variant, with the value moving out of the escrow's
/// token pool.
pub fn refund_token(
    pool: &mut GiveawayPool,
    token_pool_balance: &mut u128,
    to_balance: &mut u128,
    payer: &[u8; 32],
) -> (result: Result<(), GiveawayError>)
    requires
        old(pool).consistent_with(*old(token_pool_balance)),
    ensures
        refund_contract(
            *old(pool),
            *final(pool),
            *old(token_pool_balance),
            *final(token_pool_balance),
            *old(to_balance),
            *final(to_balance),
            payer@,
            result,
        ),
{
    if !bytes_eq(payer.as_slice(), pool.creator.as_slice()) {
        return Err(GiveawayError::Forbidden);
    }
    let remain_amount: u128 = pool.total_amount;
    let new_to_balance: u128 = match to_balance.checked_add(remain_amount) {
        Some(balance) => balance,
        None => {
            return Err(GiveawayError::Overflow);
        },
    };
    *token_pool_balance = *token_pool_balance - remain_amount;
    *to_balance = new_to_balance;
    pool.total_amount = 0;
    Ok(())
}

/// What both refund variants guarantee.  Only the creator may refund; on
/// success the whole remaining balance moves to the creator and the record
/// is drained; on any error every balance is unchanged.
pub open spec fn refund_contract(
    pool_before: GiveawayPool,
    pool_after: GiveawayPool,
    escrow_before: u128,
    escrow_after: u128,
    creator_before: u128,
    creator_after: u128,
    payer: Seq<u8>,
    result: Result<(), GiveawayError>,
) -> bool {
    let is_creator = payer == pool_before.creator@;
    let fits = creator_before + pool_before.total_amount <= u128::MAX;
    &&& result == Err::<(), GiveawayError>(GiveawayError::Forbidden) <==> !is_creator
    &&& result == Err::<(), GiveawayError>(GiveawayError::Overflow) <==> is_creator && !fits
    &&& result is Ok <==> is_creator && fits
    &&& result is Ok ==> pool_after.total_amount == 0 && escrow_after == escrow_before
        - pool_before.total_amount && creator_after == creator_before + pool_before.total_amount
    &&& result is Err ==> pool_after == pool_before && escrow_after == escrow_before
        && creator_after == creator_before
    &&& pool_after.creator == pool_before.creator
    &&& pool_after.receive_records == pool_before.receive_records
    &&& pool_before.consistent_with(escrow_before) ==> pool_after.consistent_with(escrow_after)
}

} // verus!
