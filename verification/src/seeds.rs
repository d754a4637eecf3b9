//! Seed shapes for deterministic sub-account derivation.
//!
//! The host derives a stable sub-account address plus a disambiguation
//! bump from a seed list, and only re-derivation of the same seeds
//! authorizes outgoing transfers.  Two seed shapes are in use: the escrow
//! identifier alone locates an escrow record or native pool, and the
//! creator identity paired with the asset identity locates a per-(creator,
//! asset) fungible-token pool.  Building the exact seed lists is the
//! protocol's own obligation; the derivation itself is the host's.

use vstd::prelude::*;

verus! {

/// The seed list locating an escrow record or native pool: the escrow
/// identifier alone.
pub fn escrow_seeds(giveaway_id: &[u8; 20]) -> (seed_list: Vec<Vec<u8>>)
    ensures
        seed_list.deep_view() == seq![giveaway_id@],
{
    let mut seed: Vec<u8> = Vec::new();
    crate::codec::push_bytes(&mut seed, giveaway_id.as_slice());
    let mut seed_list: Vec<Vec<u8>> = Vec::new();
    assert(seed.deep_view() =~= giveaway_id@);
    seed_list.push(seed);
    assert(seed_list.deep_view() =~~= seq![giveaway_id@]);
    seed_list
}

/// The seed list locating the fungible-token pool of one (creator, asset)
/// pair: the creator identity, then the asset identity.
pub fn token_pool_seeds(creator: &[u8; 32], asset: &[u8; 32]) -> (seed_list: Vec<Vec<u8>>)
    ensures
        seed_list.deep_view() == seq![creator@, asset@],
{
    let mut creator_seed: Vec<u8> = Vec::new();
    crate::codec::push_bytes(&mut creator_seed, creator.as_slice());
    let mut asset_seed: Vec<u8> = Vec::new();
    crate::codec::push_bytes(&mut asset_seed, asset.as_slice());
    let mut seed_list: Vec<Vec<u8>> = Vec::new();
    assert(creator_seed.deep_view() =~= creator@);
    assert(asset_seed.deep_view() =~= asset@);
    seed_list.push(creator_seed);
    seed_list.push(asset_seed);
    assert(seed_list.deep_view() =~~= seq![creator@, asset@]);
    seed_list
}

} // verus!
