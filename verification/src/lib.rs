//! Escrow-based, signature-authorized fund distribution ("giveaway pools").
//!
//! A creator deposits a fixed amount of a native or fungible asset into an
//! escrow; claimants withdraw portions of it by presenting time-bounded
//! vouchers signed off-system by an authorizer, and the creator may reclaim
//! the remainder.  The crate verifies the claim-authorization and
//! escrow-accounting protocol: canonical voucher encoding, recoverable
//! ECDSA signature checking, expiry and sufficiency enforcement, and
//! overflow-safe balance movement.

pub mod codec;
pub mod crypto;
pub mod errors;
pub mod event;
pub mod laws;
pub mod pool;
pub mod seeds;
pub mod voucher;
