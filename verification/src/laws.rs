//! Laws of the escrow accounting protocol.
//!
//! The state of one escrow, for value movement, is its remaining
//! `total_amount`.  Claims and refunds are the only operations that move
//! value out, and a failed operation moves nothing; the model below runs a
//! sequence of attempted operations over the remaining balance and sums
//! what each pays out.

use crate::pool::GiveawayPool;
use crate::voucher::{voucher_authorized, voucher_signer};
use vstd::prelude::*;

verus! {

/// One attempted value-moving operation on an escrow.
pub enum PoolOp {
    /// A claim of `amount`; it pays out only where the remaining balance
    /// covers it, and fails (moving nothing) otherwise.
    Claim { amount: u128 },
    /// A refund by the creator; it pays out the whole remaining balance.
    Refund,
}

/// The remaining balance after one attempted operation.
pub open spec fn step_total(total: u128, op: PoolOp) -> u128 {
    match op {
        PoolOp::Claim { amount } => if amount <= total {
            (total - amount) as u128
        } else {
            total
        },
        PoolOp::Refund => 0,
    }
}

/// What one attempted operation pays out of the escrow.
pub open spec fn step_payout(total: u128, op: PoolOp) -> u128 {
    match op {
        PoolOp::Claim { amount } => if amount <= total {
            amount
        } else {
            0
        },
        PoolOp::Refund => total,
    }
}

/// The remaining balance after a sequence of attempted operations.
pub open spec fn run_total(total: u128, ops: Seq<PoolOp>) -> u128
    decreases ops.len(),
{
    if ops.len() == 0 {
        total
    } else {
        run_total(step_total(total, ops[0]), ops.drop_first())
    }
}

/// The sum paid out of the escrow by a sequence of attempted operations.
pub open spec fn run_payout(total: u128, ops: Seq<PoolOp>) -> int
    decreases ops.len(),
{
    if ops.len() == 0 {
        0
    } else {
        step_payout(total, ops[0]) + run_payout(step_total(total, ops[0]), ops.drop_first())
    }
}

/// Balance conservation: over any sequence of claim and refund attempts on
/// one escrow, every operation that pays out decrements the remaining
/// balance by exactly its payout, so the balance left plus everything ever
/// paid out equals the balance deposited at creation — and in particular
/// the total paid out never exceeds the deposit.
pub proof fn lemma_balance_conservation(total: u128, ops: Seq<PoolOp>)
    ensures
        run_total(total, ops) + run_payout(total, ops) == total,
        0 <= run_payout(total, ops) <= total,
    decreases ops.len(),
{
    if ops.len() > 0 {
        lemma_balance_conservation(step_total(total, ops[0]), ops.drop_first());
    }
}

/// Authorization binding: a voucher whose signature recovers to authorizer
/// `signer` authorizes no escrow bound to a different authorizer, whatever
/// its other fields hold.
pub proof fn lemma_authorization_binding(
    message: Seq<u8>,
    signature: Seq<u8>,
    signer: Seq<u8>,
    bound_authorizer: Seq<u8>,
)
    requires
        voucher_signer(message, signature) == Some(signer),
        signer != bound_authorizer,
    ensures
        !voucher_authorized(message, signature, bound_authorizer),
{
}

/// A signature whose recovery indicator leaves the legacy 27/28 convention
/// recovers no signer at all, so it authorizes no escrow — unconditionally,
/// not merely up to cryptographic likelihood.
pub proof fn lemma_invalid_indicator_rejected(
    message: Seq<u8>,
    signature: Seq<u8>,
    bound_authorizer: Seq<u8>,
)
    requires
        signature[64] != 27,
        signature[64] != 28,
    ensures
        voucher_signer(message, signature) is None,
        !voucher_authorized(message, signature, bound_authorizer),
{
}

/// Every claim attempt that passes the expiry and signature gates and does
/// not abort on overflow moves the remaining balance exactly as the
/// conservation model's claim step does: a covered claim decrements by its
/// amount, an uncovered one fails and moves nothing.
pub proof fn lemma_claim_matches_model(
    pool_before: GiveawayPool,
    pool_after: GiveawayPool,
    escrow_before: u128,
    escrow_after: u128,
    recipient_before: u128,
    recipient_after: u128,
    message: Seq<u8>,
    signature: Seq<u8>,
    authorizer: Seq<u8>,
    amount: u128,
    expiry_timestamp: u64,
    now: u64,
    result: Result<(), crate::errors::GiveawayError>,
)
    requires
        crate::pool::claim_contract(
            pool_before,
            pool_after,
            escrow_before,
            escrow_after,
            recipient_before,
            recipient_after,
            message,
            signature,
            authorizer,
            amount,
            expiry_timestamp,
            now,
            result,
        ),
        result is Ok || result == Err::<(), crate::errors::GiveawayError>(
            crate::errors::GiveawayError::ExceedError,
        ),
    ensures
        pool_after.total_amount == step_total(
            pool_before.total_amount,
            PoolOp::Claim { amount },
        ),
        recipient_after - recipient_before == step_payout(
            pool_before.total_amount,
            PoolOp::Claim { amount },
        ),
{
}

/// Every refund that succeeds drains the escrow exactly as the
/// conservation model's refund step does.
pub proof fn lemma_refund_matches_model(
    pool_before: GiveawayPool,
    pool_after: GiveawayPool,
    escrow_before: u128,
    escrow_after: u128,
    creator_before: u128,
    creator_after: u128,
    payer: Seq<u8>,
    result: Result<(), crate::errors::GiveawayError>,
)
    requires
        crate::pool::refund_contract(
            pool_before,
            pool_after,
            escrow_before,
            escrow_after,
            creator_before,
            creator_after,
            payer,
            result,
        ),
        result is Ok,
    ensures
        pool_after.total_amount == step_total(pool_before.total_amount, PoolOp::Refund),
        creator_after - creator_before == step_payout(pool_before.total_amount, PoolOp::Refund),
{
}

} // verus!
