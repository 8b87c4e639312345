//! Update an NFT's on-chain metadata.
//!
//! An NFT's metadata carries lists of data / metadata / license URIs. The metadata updater is
//! append-only: a `MetadataUpdate` prepends a new URI to the relevant list and never removes or
//! replaces one, so published content stays referenced. [`update_metadata`] applies an update
//! while keeping the NFT with its current owner; to change owner and metadata together use
//! [`crate::transfer::transfer_with_metadata`].

use vstd::prelude::*;

use chia_wallet_sdk::driver::SpendContext;

use crate::error::{driver_result, Error};
use crate::sdk::{
    allocates, condition_items, conditions_new, lemma_standard_child, limit_error, metadata_update_spend,
    nft_transfer_with_metadata, standard_output_updating, take_coin_spends,
};
use crate::transfer::{spent_once, update_fails, updated_by, updated_child};
use crate::types::{MetadataUpdate, Nft, NftSpend, Owner};

verus! {

broadcast use crate::sdk::lemma_allocates_transitive;

/// Apply `metadata_update` to `nft`, keeping it with its current owner.
///
/// The NFT is re-created at the same p2 puzzle hash it currently has, with the updater run in
/// the same spend: every field but the metadata (and its updater) is unchanged, and the
/// metadata is what the NFT's metadata updater makes of the update: the update's URI prepended
/// to the list its kind names. It fails only on an even amount, an invalid owner key, an NFT
/// whose updater is not the default one, an updater that raises on the NFT's metadata, or a
/// limit reached.
pub fn update_metadata(ctx: &mut SpendContext, owner: &Owner, nft: Nft, metadata_update: &MetadataUpdate) -> (r: Result<NftSpend, Error>)
    requires
        nft.in_context(*old(ctx)),
    ensures
        allocates(*old(ctx), *final(ctx)),
        r matches Err(e) ==> e is Driver,
        nft@.coin.amount % 2 == 0 ==> r is Err,
        r matches Err(Error::Driver(e)) ==> update_fails(*old(ctx), *owner, nft, *metadata_update) || limit_error(e),
        r matches Ok(s) ==> updated_child(s, nft, nft@.info)
            && updated_by(s, *old(ctx), nft, *metadata_update)
            && spent_once(s, *old(ctx), *final(ctx), nft, standard_output_updating(Seq::empty(), nft@.info.p2_puzzle_hash, nft@.coin.amount)),
{
    let current_owner_puzzle_hash = nft.info().p2_puzzle_hash;
    let update_spend = driver_result(metadata_update_spend(ctx, metadata_update))?;
    let extra = conditions_new();
    proof {
        lemma_standard_child(nft@.info, condition_items(extra), current_owner_puzzle_hash, nft@.coin.amount, None);
    }
    let layer = owner.layer();
    let child = driver_result(
        nft_transfer_with_metadata(ctx, &layer, &nft, current_owner_puzzle_hash, update_spend, extra),
    )?;
    Ok(NftSpend { coin_spends: take_coin_spends(ctx), children: vec![child], did_conditions: conditions_new() })
}

} // verus!
