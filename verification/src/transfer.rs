//! Transfer an NFT to a new owner.
//!
//! [`transfer`] is a plain owner change; [`transfer_with_metadata`] changes the owner and runs
//! the metadata updater in the same spend. Royalties apply only to offer trades, never to a
//! plain transfer, so neither builder charges one. The DID attribution is left unchanged
//! (re-assigning a DID is [`crate::owner::assign_owner`]).
//!
//! The NFT passed in must have been built or parsed in the same `SpendContext` the transfer is
//! built in: its metadata lives in that context.

use vstd::prelude::*;

use chia_wallet_sdk::driver::SpendContext;

use crate::error::{driver_result, Error};
use crate::sdk::{
    allocates, coin_spend_views, condition_items, conditions_new, default_metadata_updater_puzzle_hash,
    lemma_standard_child, limit_error, metadata_update_result, metadata_update_spend, nft_transfer,
    nft_transfer_with_metadata, pending_spends, recreated_from, same_but_metadata, standard_output,
    standard_output_updating, take_coin_spends, ConditionModel,
};
use crate::types::{MetadataUpdate, Nft, NftInfo, NftSpend, Owner};

verus! {

broadcast use crate::sdk::lemma_allocates_transitive;

/// The result of an operation that spends `nft` into one child whose info is `info`, with no
/// DID involved: one child, created by the NFT's coin with its amount, and no DID conditions.
pub open spec fn single_child(s: NftSpend, nft: Nft, info: NftInfo) -> bool {
    &&& s.children@.len() == 1
    &&& s.children@[0]@.info == info
    &&& recreated_from(nft@, s.children@[0]@, nft@.coin.amount)
    &&& condition_items(s.did_conditions).len() == 0
}

/// The coin spends of an operation that spends `nft` once, its p2 puzzle outputting `output`:
/// those `before` held, then the NFT's own; its one child is spendable in `after`, and nothing
/// is left pending there.
pub open spec fn spent_once(s: NftSpend, before: SpendContext, after: SpendContext, nft: Nft, output: Seq<ConditionModel>) -> bool {
    &&& coin_spend_views(s.coin_spends@) == pending_spends(before).push((nft@.coin, output))
    &&& s.children@.len() == 1
    &&& s.children@[0].in_context(after)
    &&& pending_spends(after).len() == 0
}

/// Transfer `nft` to `new_owner_puzzle_hash`, spending it through the `owner` layer.
///
/// The child keeps the NFT's launcher, metadata, royalty and owner DID; only its p2 puzzle hash
/// changes. The owner layer outputs its signature condition and one `CREATE_COIN` of the NFT's
/// amount to the new owner. An NFT coin of even amount cannot be recreated, so the spend fails.
pub fn transfer(ctx: &mut SpendContext, owner: &Owner, nft: Nft, new_owner_puzzle_hash: [u8; 32]) -> (r: Result<NftSpend, Error>)
    requires
        nft.in_context(*old(ctx)),
    ensures
        allocates(*old(ctx), *final(ctx)),
        r matches Err(e) ==> e is Driver,
        nft@.coin.amount % 2 == 0 ==> r is Err,
        r matches Err(Error::Driver(e)) ==> nft@.coin.amount % 2 == 0 || !owner.has_valid_key() || limit_error(e),
        r matches Ok(s) ==> single_child(s, nft, NftInfo { p2_puzzle_hash: new_owner_puzzle_hash, ..nft@.info })
            && spent_once(s, *old(ctx), *final(ctx), nft, standard_output(Seq::empty(), new_owner_puzzle_hash, nft@.coin.amount)),
{
    let extra = conditions_new();
    proof {
        lemma_standard_child(nft@.info, condition_items(extra), new_owner_puzzle_hash, nft@.coin.amount, None);
    }
    let layer = owner.layer();
    let child = driver_result(nft_transfer(ctx, &layer, &nft, new_owner_puzzle_hash, extra))?;
    Ok(NftSpend { coin_spends: take_coin_spends(ctx), children: vec![child], did_conditions: conditions_new() })
}

/// Transfer `nft` to `new_owner_puzzle_hash` and apply `metadata_update` in one spend.
///
/// The child keeps the NFT's launcher, royalty and owner DID, and its p2 puzzle hash changes;
/// its metadata is what the NFT's metadata updater makes of the update (the update's URI
/// prepended to its list). The owner layer outputs its signature condition, one `CREATE_COIN`
/// of the NFT's amount to the new owner, and the metadata update.
pub fn transfer_with_metadata(
    ctx: &mut SpendContext,
    owner: &Owner,
    nft: Nft,
    new_owner_puzzle_hash: [u8; 32],
    metadata_update: &MetadataUpdate,
) -> (r: Result<NftSpend, Error>)
    requires
        nft.in_context(*old(ctx)),
    ensures
        allocates(*old(ctx), *final(ctx)),
        r matches Err(e) ==> e is Driver,
        nft@.coin.amount % 2 == 0 ==> r is Err,
        r matches Err(Error::Driver(e)) ==> update_fails(*old(ctx), *owner, nft, *metadata_update) || limit_error(e),
        r matches Ok(s) ==> updated_child(s, nft, NftInfo { p2_puzzle_hash: new_owner_puzzle_hash, ..nft@.info })
            && updated_by(s, *old(ctx), nft, *metadata_update)
            && spent_once(s, *old(ctx), *final(ctx), nft, standard_output_updating(Seq::empty(), new_owner_puzzle_hash, nft@.coin.amount)),
{
    let update_spend = driver_result(metadata_update_spend(ctx, metadata_update))?;
    let extra = conditions_new();
    proof {
        lemma_standard_child(nft@.info, condition_items(extra), new_owner_puzzle_hash, nft@.coin.amount, None);
    }
    let layer = owner.layer();
    let child = driver_result(
        nft_transfer_with_metadata(ctx, &layer, &nft, new_owner_puzzle_hash, update_spend, extra),
    )?;
    Ok(NftSpend { coin_spends: take_coin_spends(ctx), children: vec![child], did_conditions: conditions_new() })
}

/// Whether a spend of `nft` by `owner` running the metadata updater on `update` fails whatever
/// the limits: an even amount, an invalid owner key, an updater other than the default one, or
/// an updater that raises on the NFT's metadata.
pub open spec fn update_fails(ctx: SpendContext, owner: Owner, nft: Nft, update: MetadataUpdate) -> bool {
    ||| nft@.coin.amount % 2 == 0
    ||| !owner.has_valid_key()
    ||| nft@.info.metadata_updater_puzzle_hash != default_metadata_updater_puzzle_hash()
    ||| metadata_update_result(ctx, nft.metadata_node(), update.kind, update.uri@) is None
}

/// Whether the one child of `s` has the metadata, and the updater, that the default metadata
/// updater makes of `nft`'s metadata in `ctx` given `update`: its URI prepended to the list its
/// kind names.
pub open spec fn updated_by(s: NftSpend, ctx: SpendContext, nft: Nft, update: MetadataUpdate) -> bool {
    metadata_update_result(ctx, nft.metadata_node(), update.kind, update.uri@) == Some(
        (s.children@[0]@.info.metadata_hash@, s.children@[0]@.info.metadata_updater_puzzle_hash@),
    )
}

/// As [`single_child`], for a spend that runs the metadata updater: the child's info is `info`
/// but for the metadata and its updater.
pub open spec fn updated_child(s: NftSpend, nft: Nft, info: NftInfo) -> bool {
    &&& s.children@.len() == 1
    &&& same_but_metadata(s.children@[0]@.info, info)
    &&& recreated_from(nft@, s.children@[0]@, nft@.coin.amount)
    &&& condition_items(s.did_conditions).len() == 0
}

} // verus!
