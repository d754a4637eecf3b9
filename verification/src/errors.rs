use vstd::prelude::*;

verus! {

/// Terminal rejection conditions for escrow operations.  Each aborts the
/// whole operation; no partial effect is observable.
#[derive(Clone, Copy, Debug, PartialEq, Eq, Structural)]
pub enum GiveawayError {
    /// Signature or identity authorization failed: the voucher does not
    /// recover to the escrow's bound authorizer, the signature is malformed,
    /// or a refund was requested by someone other than the creator.
    Forbidden,
    /// Malformed or inconsistent input shaping, such as a record count whose
    /// storage size is unrepresentable.
    ArgsError,
    /// The voucher was presented at or after its expiry instant.
    Overtime,
    /// The requested amount exceeds the escrow's remaining balance.
    ExceedError,
    /// A checked ledger addition or subtraction would wrap, so the transfer
    /// cannot be performed.
    Overflow,
}

} // verus!
