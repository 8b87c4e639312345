//! Assign or clear an NFT's owner DID.
//!
//! [`assign_owner`] attributes an NFT to a DID (referenced by [`DidRef`]); [`unassign_owner`]
//! clears the attribution. Both keep the NFT with its current p2 owner: only the DID link
//! changes. The DID is never spent here: [`assign_owner`] returns, in
//! [`NftSpend::did_conditions`], the exact acknowledgement the external DID singleton must emit
//! in the same bundle. Clearing an owner needs no DID spend, so [`unassign_owner`] returns empty
//! `did_conditions`.

use vstd::prelude::*;

use chia_wallet_sdk::driver::SpendContext;

use crate::error::{driver_result, Error};
use crate::sdk::{
    allocates, condition_items, limit_error, conditions_new, did_acknowledgement, lemma_standard_child, nft_assign_owner,
    recreated_from, standard_output_with, take_coin_spends,
};
use crate::transfer::{single_child, spent_once};
use crate::types::{DidRef, Nft, NftInfo, NftSpend, Owner};

verus! {

broadcast use crate::sdk::lemma_allocates_transitive;

/// The info of `info`'s NFT once assigned to the DID `did`.
pub open spec fn assigned_to(info: NftInfo, did: DidRef) -> NftInfo {
    NftInfo { current_owner: Some(did.launcher_id), ..info }
}

/// The info of `info`'s NFT once its owner DID is cleared.
pub open spec fn unassigned(info: NftInfo) -> NftInfo {
    NftInfo { current_owner: None, ..info }
}

/// Assign `nft` to the owner DID `did`, keeping its current p2 owner.
///
/// The returned [`NftSpend::did_conditions`] must be emitted by the external DID singleton,
/// spent in the same bundle, to acknowledge the assignment: it asserts the NFT's assignment
/// announcement and announces the NFT's launcher id.
pub fn assign_owner(ctx: &mut SpendContext, owner: &Owner, nft: Nft, did: DidRef) -> (r: Result<NftSpend, Error>)
    requires
        nft.in_context(*old(ctx)),
    ensures
        allocates(*old(ctx), *final(ctx)),
        r matches Err(e) ==> e is Driver,
        nft@.coin.amount % 2 == 0 ==> r is Err,
        r matches Err(Error::Driver(e)) ==> nft@.coin.amount % 2 == 0 || !owner.has_valid_key() || limit_error(e),
        r matches Ok(s) ==> {
            &&& s.children@.len() == 1
            &&& s.children@[0]@.info == assigned_to(nft@.info, did)
            &&& recreated_from(nft@, s.children@[0]@, nft@.coin.amount)
            &&& spent_once(s, *old(ctx), *final(ctx), nft, standard_output_with(
                Seq::empty(),
                nft@.info.p2_puzzle_hash,
                nft@.coin.amount,
                Some((Some(did.launcher_id), Seq::empty())),
            ))
            &&& did_acknowledgement(
                condition_items(s.did_conditions),
                nft@.coin.puzzle_hash,
                nft@.info.launcher_id,
                Some(did.launcher_id),
                Seq::empty(),
                Some(did.inner_puzzle_hash),
            )
        },
{
    let current_owner_puzzle_hash = nft.info().p2_puzzle_hash;
    let extra = conditions_new();
    let layer = owner.layer();
    proof {
        lemma_standard_child(nft@.info, condition_items(extra), current_owner_puzzle_hash, nft@.coin.amount, Some((Some(did.launcher_id), Seq::empty())));
    }
    let (did_conditions, child) = driver_result(
        nft_assign_owner(
            ctx,
            &layer,
            &nft,
            current_owner_puzzle_hash,
            Some(did.launcher_id),
            Some(did.inner_puzzle_hash),
            extra,
        ),
    )?;
    Ok(NftSpend { coin_spends: take_coin_spends(ctx), children: vec![child], did_conditions })
}

/// Clear `nft`'s owner DID, keeping its current p2 owner. No DID spend is required, so the
/// returned `did_conditions` is empty.
pub fn unassign_owner(ctx: &mut SpendContext, owner: &Owner, nft: Nft) -> (r: Result<NftSpend, Error>)
    requires
        nft.in_context(*old(ctx)),
    ensures
        allocates(*old(ctx), *final(ctx)),
        r matches Err(e) ==> e is Driver,
        nft@.coin.amount % 2 == 0 ==> r is Err,
        r matches Err(Error::Driver(e)) ==> nft@.coin.amount % 2 == 0 || !owner.has_valid_key() || limit_error(e),
        r matches Ok(s) ==> single_child(s, nft, unassigned(nft@.info)) && spent_once(s, *old(ctx), *final(ctx), nft,
            standard_output_with(Seq::empty(), nft@.info.p2_puzzle_hash, nft@.coin.amount, Some((None, Seq::empty())))),
{
    let current_owner_puzzle_hash = nft.info().p2_puzzle_hash;
    let extra = conditions_new();
    let layer = owner.layer();
    proof {
        lemma_standard_child(nft@.info, condition_items(extra), current_owner_puzzle_hash, nft@.coin.amount, Some((None, Seq::empty())));
    }
    let (did_conditions, child) = driver_result(
        nft_assign_owner(ctx, &layer, &nft, current_owner_puzzle_hash, None, None, extra),
    )?;
    Ok(NftSpend { coin_spends: take_coin_spends(ctx), children: vec![child], did_conditions })
}

/// Clearing the owner after an assignment gives the NFT's info with no owner: assigning and
/// then unassigning a DID changes nothing but the owner link.
pub proof fn lemma_unassign_after_assign(info: NftInfo, did: DidRef)
    ensures
        unassigned(assigned_to(info, did)) == unassigned(info),
{
}

} // verus!
