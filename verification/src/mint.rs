//! Mint NFT1 singletons: single or bulk, standalone or DID-owned.
//!
//! Both builders launch each NFT from a caller-controlled funding coin through an intermediate
//! launcher whose puzzle curries the NFT's position in the mint, so the launchers created off
//! one funding coin have different coin ids. The funding coin is
//! spent through the caller's [`Owner`] layer, emitting the launcher-creation conditions. For a
//! DID-owned mint the DID coin is never spent here: the DID attribution is recorded on the NFT
//! and the returned [`NftSpend::did_conditions`] hold the exact acknowledgement the external
//! DID singleton must emit in the same bundle.

use vstd::prelude::*;

use chia_wallet_sdk::driver::SpendContext;
use chia_wallet_sdk::types::Conditions;
use clvmr::NodePtr;

use crate::error::{driver_result, Error};
use crate::sdk::{
    alloc_hashed, allocated_nodes, allocates, lemma_allocates_transitive, assignment_announcement_id, child_info, coin_id, coin_id_view,
    coin_spend_views, hint, condition_items, condition_nodes, conditions_assert_puzzle_announcement, conditions_create_coin,
    conditions_create_puzzle_announcement, conditions_extend, conditions_new, conditions_with_transfer,
    create_intermediate_launcher, default_metadata_updater_puzzle_hash, launch_conditions, limit_error, no_metadata_update,
    node_tree_hash, program_deserializes, program_tree_hash, delegated_spend, tree_hash, did_acknowledgement, intermediate_launcher_id_of,
    last_odd_create_coin, last_transfer, mint_eve_nft, nft_mint_new, nft_spend, pending_spends,
    prices_view, singleton_amount, standard_layer_output, standard_spend_coin, take_coin_spends, ConditionModel,
    PendingLauncher, TransferModel,
};
use crate::types::{Coin, DidRef, MintSpec, Nft, NftInfo, NftMint, NftSpend, NftView, Owner, TradePrice, TransferNft};

verus! {

broadcast use {vstd::seq_lib::group_seq_properties, lemma_allocates_transitive};

/// The owner DID launcher id a spec attributes its NFT to, if any.
pub open spec fn did_owner(owner_did: Option<DidRef>) -> Option<[u8; 32]> {
    match owner_did {
        Some(did) => Some(did.launcher_id),
        None => None,
    }
}

/// The info an NFT minted from `spec` has: it is owned by the spec's owner puzzle hash, pays
/// the spec's royalty to that same puzzle hash, is assigned to the spec's DID (if any), has
/// the spec's metadata (by its tree hash), and has the default metadata updater.
pub open spec fn minted_from(info: NftInfo, spec: MintSpec) -> bool {
    &&& info.metadata_hash@ == program_tree_hash(spec.metadata)
    &&& info.current_owner == did_owner(spec.owner_did)
    &&& info.metadata_updater_puzzle_hash == default_metadata_updater_puzzle_hash()
    &&& info.royalty_puzzle_hash == spec.owner_puzzle_hash
    &&& info.royalty_basis_points == spec.royalty_basis_points
    &&& info.p2_puzzle_hash == spec.owner_puzzle_hash
}

/// The transfer condition that assigns an NFT to the spec's DID, if it has one.
pub open spec fn did_transfer(owner_did: Option<DidRef>) -> Option<TransferModel> {
    match owner_did {
        Some(did) => Some((Some(did.launcher_id), Seq::empty())),
        None => None,
    }
}

/// The transfer condition `transfer`, as the eve spend reveals it.
pub open spec fn transfer_model(transfer: Option<TransferNft>) -> Option<TransferModel> {
    match transfer {
        Some(t) => Some((t.launcher_id, prices_view(t.trade_prices@))),
        None => None,
    }
}

/// The conditions the eve NFT's inner puzzle quotes: create the child at `p2_puzzle_hash`
/// with `amount`, hinted to `p2_puzzle_hash` so the owner's wallet finds it, then, when there is
/// one, the transfer condition.
pub open spec fn eve_output(p2_puzzle_hash: [u8; 32], amount: u64, transfer: Option<TransferModel>) -> Seq<ConditionModel> {
    let create = ConditionModel::CreateCoin { puzzle_hash: p2_puzzle_hash, amount, hint: Some(p2_puzzle_hash) };
    match transfer {
        Some((launcher_id, trade_prices)) => seq![create, ConditionModel::TransferNft { launcher_id, trade_prices }],
        None => seq![create],
    }
}

/// The conditions an owner DID must emit for the NFT with launcher id `nft_launcher_id` whose
/// eve coin has the puzzle hash `eve_puzzle_hash`: none without a DID; with one, the
/// acknowledgement of an assignment that reveals no trade prices.
pub open spec fn acknowledged_by(
    items: Seq<ConditionModel>,
    eve_puzzle_hash: [u8; 32],
    nft_launcher_id: [u8; 32],
    owner_did: Option<DidRef>,
) -> bool {
    match owner_did {
        None => items.len() == 0,
        Some(did) => did_acknowledgement(
            items,
            eve_puzzle_hash,
            nft_launcher_id,
            Some(did.launcher_id),
            Seq::empty(),
            Some(did.inner_puzzle_hash),
        ),
    }
}

/// The conditions an owner singleton must emit for the NFT with launcher id `nft_launcher_id`
/// minted with `transfer` from the eve coin with puzzle hash `eve_puzzle_hash`: none without a
/// transfer condition; with one, its acknowledgement.
pub open spec fn acknowledges_transfer(
    items: Seq<ConditionModel>,
    eve_puzzle_hash: [u8; 32],
    nft_launcher_id: [u8; 32],
    transfer: Option<TransferNft>,
) -> bool {
    match transfer {
        None => items.len() == 0,
        Some(t) => did_acknowledgement(
            items,
            eve_puzzle_hash,
            nft_launcher_id,
            t.launcher_id,
            prices_view(t.trade_prices@),
            t.singleton_inner_puzzle_hash,
        ),
    }
}

/// The three coin spends that mint `child` from `spec` off `funding_coin`: the intermediate
/// coin (an amount of 0 created by the funding coin), the launcher coin (an amount of 1, whose
/// id is the child's launcher id), and the eve coin (created by the launcher coin), whose p2
/// puzzle quotes the eve conditions and which creates the child.
pub open spec fn minted_spends(spends: Seq<(Coin, Seq<ConditionModel>)>, funding_coin: Coin, child: NftView, spec: MintSpec) -> bool {
    &&& spends.len() == 3
    &&& spends[0].0.parent_coin_info@ == coin_id_view(funding_coin)
    &&& spends[0].0.amount == 0
    &&& spends[1].0.amount == 1
    &&& coin_id_view(spends[1].0) == child.info.launcher_id@
    &&& spends[2].0.parent_coin_info == child.info.launcher_id
    &&& spends[2].1 == eve_output(spec.owner_puzzle_hash, 1, did_transfer(spec.owner_did))
    &&& child.coin.parent_coin_info@ == coin_id_view(spends[2].0)
}

/// The conditions the funding coin emits to launch the first `count` NFTs of a mint whose coin
/// spends are `spends` and whose children are `children`: each NFT's `launch_conditions`, in
/// mint order, creating the intermediate coin that `spends[3 * i]` spends.
pub open spec fn launch_outputs(spends: Seq<(Coin, Seq<ConditionModel>)>, children: Seq<Nft>, count: nat) -> Seq<ConditionModel>
    decreases count,
{
    if count == 0 {
        Seq::empty()
    } else {
        let i = count - 1;
        launch_outputs(spends, children, i as nat) + launch_conditions(spends[3 * i].0.puzzle_hash, children[i]@.info.launcher_id)
    }
}

/// The coin spends and owner-DID conditions of a mint of `specs` off `funding_coin` into
/// `children`: the three spends of each NFT in mint order, then the one spend of the funding
/// coin, whose standard layer emits every NFT's launch conditions in mint order; and one
/// acknowledgement per NFT (empty for an NFT without a DID), for that NFT's eve coin,
/// concatenated in mint order.
pub open spec fn mint_spends(
    spends: Seq<(Coin, Seq<ConditionModel>)>,
    did_items: Seq<ConditionModel>,
    funding_coin: Coin,
    children: Seq<Nft>,
    specs: Seq<MintSpec>,
) -> bool {
    &&& spends.len() == 3 * specs.len() + 1
    &&& spends.last().0 == funding_coin
    &&& spends.last().1 == seq![ConditionModel::Other] + launch_outputs(spends, children, specs.len())
    &&& forall|i: int| 0 <= i < specs.len() ==> minted_spends(
        #[trigger] spends.subrange(3 * i, 3 * i + 3),
        funding_coin,
        children[i]@,
        specs[i],
    )
    &&& exists|acks: Seq<Seq<ConditionModel>>| {
        &&& acks.len() == specs.len()
        &&& did_items == acks.flatten()
        &&& forall|i: int| 0 <= i < specs.len() ==> acknowledged_by(
            #[trigger] acks[i],
            spends[3 * i + 2].0.puzzle_hash,
            children[i]@.info.launcher_id,
            specs[i].owner_did,
        )
    }
}

/// What a mint of `specs` off `funding_coin` built: one child per spec, in order, minted from
/// it, spendable in `ctx`, of amount 1, with the launcher id of the intermediate launcher
/// numbered by its position (so no two children share a launcher id); `spends` are the coin spends `before` held followed by the mint's
/// own; nothing is left pending in `ctx`.
pub open spec fn minted(
    s: NftSpend,
    before: SpendContext,
    ctx: SpendContext,
    funding_coin: Coin,
    specs: Seq<MintSpec>,
) -> bool {
    let spends = coin_spend_views(s.coin_spends@);
    let held = pending_spends(before).len() as int;
    &&& s.children@.len() == specs.len()
    &&& forall|i: int| 0 <= i < specs.len() ==> minted_from(#[trigger] s.children@[i]@.info, specs[i])
    &&& forall|i: int|
        0 <= i < specs.len() ==> (#[trigger] s.children@[i]@.info.launcher_id)@ == intermediate_launcher_id_of(
            coin_id_view(funding_coin),
            i as usize,
            specs.len() as usize,
        )
    &&& forall|i: int, j: int|
        0 <= i < j < specs.len() ==> (#[trigger] s.children@[i]@.info.launcher_id) != (#[trigger] s.children@[j]@.info.launcher_id)
    &&& forall|i: int| 0 <= i < specs.len() ==> (#[trigger] s.children@[i]).in_context(ctx) && s.children@[i]@.coin.amount == 1
    &&& spends.take(held) == pending_spends(before)
    &&& mint_spends(spends.skip(held), condition_items(s.did_conditions), funding_coin, s.children@, specs)
    &&& pending_spends(ctx).len() == 0
}

/// Allocate a spec's serialized metadata into `ctx` and assemble the mint fields: royalties
/// are paid to the NFT's own owner puzzle hash, and a DID attribution becomes the transfer
/// condition that assigns the NFT to the DID.
fn build_nft_mint(ctx: &mut SpendContext, spec: &MintSpec) -> (r: Result<NftMint, Error>)
    ensures
        allocates(*old(ctx), *final(ctx)),
        pending_spends(*final(ctx)) == pending_spends(*old(ctx)),
        r matches Err(e) ==> e is Driver,
        r matches Err(Error::Driver(e)) ==> !program_deserializes(spec.metadata) || limit_error(e),
        r matches Ok(m) ==> {
            &&& allocated_nodes(*final(ctx)).contains(m.metadata.node)
            &&& node_tree_hash(*final(ctx), m.metadata.node) == program_tree_hash(spec.metadata)
            &&& m.metadata_updater_puzzle_hash == default_metadata_updater_puzzle_hash()
            &&& m.royalty_puzzle_hash == spec.owner_puzzle_hash
            &&& m.royalty_basis_points == spec.royalty_basis_points
            &&& m.p2_puzzle_hash == spec.owner_puzzle_hash
            &&& transfer_model(m.transfer_condition) == did_transfer(spec.owner_did)
            &&& m.transfer_condition is Some <==> spec.owner_did is Some
            &&& m.transfer_condition matches Some(t) ==> {
                &&& spec.owner_did matches Some(did)
                &&& t.launcher_id == Some(did.launcher_id)
                &&& t.trade_prices@.len() == 0
                &&& t.singleton_inner_puzzle_hash == Some(did.inner_puzzle_hash)
            }
        },
{
    let metadata = driver_result(alloc_hashed(ctx, &spec.metadata))?;
    let transfer_condition = match &spec.owner_did {
        Some(did) => Some(did.transfer_condition()),
        None => None,
    };
    let m = nft_mint_new(metadata, spec.owner_puzzle_hash, spec.royalty_basis_points, transfer_condition);
    proof {
        if m.transfer_condition is Some {
            lemma_no_prices(m.transfer_condition->Some_0.trade_prices@);
        }
    }
    Ok(m)
}

/// Mint the eve NFT from an already-created `launcher` and spend it into its first child,
/// returning the conditions the launcher's parent (the funding coin) must emit, the conditions
/// an owner DID must emit (empty when unattributed), and the child NFT.
///
/// The eve's inner puzzle quotes its conditions: create the child at the mint's p2 puzzle
/// hash and, for a DID attribution, the transfer condition. The DID acknowledgement is the
/// two-way handshake of an owner assignment: the DID asserts the NFT's assignment announcement
/// and announces the NFT's launcher id (which the ownership layer asserts). Because the
/// launcher is parented by a separate funding coin, the DID emits both halves itself.
fn mint_from_launcher(ctx: &mut SpendContext, launcher: PendingLauncher, mint: &NftMint) -> (r: Result<(Conditions, Conditions, Nft), Error>)
    requires
        allocated_nodes(*old(ctx)).contains(mint.metadata.node),
        launcher.coin.amount == 1,
    ensures
        allocates(*old(ctx), *final(ctx)),
        r matches Err(e) ==> e is Driver,
        r matches Err(Error::Driver(e)) ==> limit_error(e),
        r matches Ok((p, d, c)) ==> {
            let held = pending_spends(*old(ctx)).len() as int;
            let eve = pending_spends(*final(ctx))[held + 1].0;
            &&& c@.info.launcher_id == launcher.launcher_id
            &&& c@.info.current_owner == match mint.transfer_condition {
                Some(t) => t.launcher_id,
                None => None,
            }
            &&& c@.info.metadata_hash@ == node_tree_hash(*old(ctx), mint.metadata.node)
            &&& c.metadata_node() == mint.metadata.node
            &&& c@.info.metadata_updater_puzzle_hash == mint.metadata_updater_puzzle_hash
            &&& c@.info.royalty_puzzle_hash == mint.royalty_puzzle_hash
            &&& c@.info.royalty_basis_points == mint.royalty_basis_points
            &&& c@.info.p2_puzzle_hash == mint.p2_puzzle_hash
            &&& c@.coin.amount == launcher.coin.amount
            &&& c.in_context(*final(ctx))
            &&& condition_nodes(p) == Set::<NodePtr>::empty()
            &&& condition_items(p) == launch_conditions(launcher.intermediate.puzzle_hash, c@.info.launcher_id)
            &&& pending_spends(*final(ctx)).len() == held + 2
            &&& pending_spends(*final(ctx)).take(held) == pending_spends(*old(ctx))
            &&& pending_spends(*final(ctx))[held].0 == launcher.coin
            &&& eve.parent_coin_info == launcher.launcher_id
            &&& pending_spends(*final(ctx))[held + 1].1 == eve_output(
                mint.p2_puzzle_hash,
                launcher.coin.amount,
                transfer_model(mint.transfer_condition),
            )
            &&& c@.coin.parent_coin_info@ == coin_id_view(eve)
            &&& acknowledges_transfer(condition_items(d), eve.puzzle_hash, c@.info.launcher_id, mint.transfer_condition)
        },
{
    let ghost start = *ctx;
    let amount = singleton_amount(&launcher);
    let memos = driver_result(hint(ctx, mint.p2_puzzle_hash))?;
    let create = conditions_create_coin(conditions_new(), mint.p2_puzzle_hash, amount, Some(memos));
    let eve_conditions = match &mint.transfer_condition {
        Some(transfer) => conditions_with_transfer(create, transfer),
        None => create,
    };
    let ghost items = condition_items(eve_conditions);
    let ghost transfer = transfer_model(mint.transfer_condition);
    assert(items =~= eve_output(mint.p2_puzzle_hash, amount, transfer));
    let inner_spend = driver_result(delegated_spend(ctx, eve_conditions))?;
    let inner_puzzle_hash = tree_hash(ctx, inner_spend.puzzle);
    let (parent_conditions, eve_nft) = driver_result(
        mint_eve_nft(
            ctx,
            launcher,
            inner_puzzle_hash,
            mint.metadata,
            mint.metadata_updater_puzzle_hash,
            mint.royalty_puzzle_hash,
            mint.royalty_basis_points,
        ),
    )?;
    let ghost launched = *ctx;
    proof {
        lemma_eve_child(eve_nft@.info, mint.p2_puzzle_hash, amount, transfer);
    }
    let child = driver_result(nft_spend(ctx, &eve_nft, inner_spend))?;
    proof {
        let held = pending_spends(start).len() as int;
        assert(pending_spends(launched).drop_last() == pending_spends(start));
        assert(pending_spends(*ctx).take(held) =~= pending_spends(start));
        assert(pending_spends(*ctx)[held] == pending_spends(launched)[held]);
    }
    let did_conditions = match &mint.transfer_condition {
        Some(transfer) => {
            let eve_puzzle_hash = eve_nft.coin().puzzle_hash;
            let announcement_id = assignment_announcement_id(eve_puzzle_hash, transfer);
            let acknowledged = conditions_create_puzzle_announcement(
                conditions_assert_puzzle_announcement(conditions_new(), announcement_id),
                eve_nft.info().launcher_id,
            );
            proof {
                assert(did_acknowledgement(
                    condition_items(acknowledged),
                    eve_puzzle_hash,
                    child@.info.launcher_id,
                    transfer.launcher_id,
                    prices_view(transfer.trade_prices@),
                    transfer.singleton_inner_puzzle_hash,
                ));
            }
            acknowledged
        },
        None => conditions_new(),
    };
    proof {
        let held = pending_spends(start).len() as int;
        assert(pending_spends(*ctx)[held + 1].0 == eve_nft@.coin);
    }
    Ok((parent_conditions, did_conditions, child))
}

/// Spend the funding coin through the caller's [`Owner`] layer, emitting `conditions`.
fn spend_funding_coin(ctx: &mut SpendContext, owner: &Owner, funding_coin: &Coin, conditions: Conditions) -> (r: Result<(), Error>)
    requires
        condition_nodes(conditions).subset_of(allocated_nodes(*old(ctx))),
    ensures
        allocates(*old(ctx), *final(ctx)),
        r matches Err(e) ==> e is Driver,
        r is Ok ==> pending_spends(*final(ctx)) == pending_spends(*old(ctx)).push((*funding_coin, standard_layer_output(conditions))),
        r is Err ==> pending_spends(*final(ctx)) == pending_spends(*old(ctx)),
        r matches Err(Error::Driver(e)) ==> limit_error(e),
{
    let layer = owner.layer();
    driver_result(standard_spend_coin(ctx, &layer, funding_coin, conditions))
}

/// Mint one NFT, funded from `funding_coin` (an XCH coin the `owner` controls).
///
/// The returned [`NftSpend`] carries the unsigned coin spends, the minted NFT
/// ([`NftSpend::child`]), and, when `spec.owner_did` is set, the conditions the external DID
/// must emit. `funding_coin` must hold at least one mojo (the singleton amount). The mint is
/// the mint of one spec by [`bulk_mint`]: its launcher is intermediate launcher 0 of 1.
pub fn mint(ctx: &mut SpendContext, owner: &Owner, funding_coin: Coin, spec: &MintSpec) -> (r: Result<NftSpend, Error>)
    ensures
        allocates(*old(ctx), *final(ctx)),
        r matches Err(e) ==> e is Driver,
        r matches Err(Error::Driver(e)) ==> !program_deserializes(spec.metadata) || limit_error(e),
        r matches Ok(s) ==> minted(s, *old(ctx), *final(ctx), funding_coin, seq![*spec]),
{
    let ghost start = *ctx;
    let nft_mint = build_nft_mint(ctx, spec)?;
    let ghost built = *ctx;
    let launcher = driver_result(create_intermediate_launcher(ctx, coin_id(&funding_coin), 0, 1))?;
    let ghost created = *ctx;
    let ghost intermediate = launcher.intermediate;
    let (parent_conditions, did_conditions, nft) = mint_from_launcher(ctx, launcher, &nft_mint)?;
    let ghost launched = *ctx;
    spend_funding_coin(ctx, owner, &funding_coin, parent_conditions)?;
    let ghost funded = *ctx;
    let coin_spends = take_coin_spends(ctx);
    let s = NftSpend { coin_spends, children: vec![nft], did_conditions };
    proof {
        let held = pending_spends(start).len() as int;
        let all = pending_spends(funded);
        assert(coin_spend_views(s.coin_spends@) =~= all);
        assert(pending_spends(created).drop_last() == pending_spends(built));
        assert(pending_spends(launched).take(held + 1) =~= pending_spends(created));
        assert(all.take(held) =~= pending_spends(start));
        let mine = all.skip(held);
        assert(mine =~= seq![pending_spends(created)[held], all[held + 1], all[held + 2], all[held + 3]]);
        assert(mine.subrange(0, 3) =~= seq![mine[0], mine[1], mine[2]]);
        let specs = seq![*spec];
        let children = s.children@;
        assert(children[0] == nft);
        assert(minted_spends(mine.subrange(3 * 0int, 3 * 0int + 3), funding_coin, children[0]@, specs[0]));
        let acks = seq![condition_items(did_conditions)];
        assert(acks.flatten() =~= condition_items(did_conditions)) by {
            Seq::<Seq<ConditionModel>>::empty().lemma_flatten_push(condition_items(did_conditions));
            assert(seq![condition_items(did_conditions)] =~= Seq::<Seq<ConditionModel>>::empty().push(condition_items(did_conditions)));
        }
        assert(acknowledged_by(acks[0], mine[3 * 0int + 2].0.puzzle_hash, children[0]@.info.launcher_id, specs[0].owner_did));
        assert(mine[3 * 0int].0 == intermediate);
        reveal_with_fuel(launch_outputs, 2);
        assert(launch_outputs(mine, children, 1) =~= launch_conditions(intermediate.puzzle_hash, nft@.info.launcher_id));
        assert forall|i: int| 0 <= i < specs.len() implies minted_spends(
            #[trigger] mine.subrange(3 * i, 3 * i + 3),
            funding_coin,
            children[i]@,
            specs[i],
        ) by {
            assert(i == 0);
        }
        assert forall|i: int| 0 <= i < specs.len() implies acknowledged_by(
            #[trigger] acks[i],
            mine[3 * i + 2].0.puzzle_hash,
            children[i]@.info.launcher_id,
            specs[i].owner_did,
        ) by {
            assert(i == 0);
        }
    }
    Ok(s)
}

/// With an odd amount, the child of an NFT whose inner puzzle outputs the eve conditions sits at
/// their p2 puzzle hash, with the owner their transfer names (or the NFT's owner without one);
/// the eve conditions reveal no metadata update.
proof fn lemma_eve_child(info: NftInfo, p2_puzzle_hash: [u8; 32], amount: u64, transfer: Option<TransferModel>)
    requires
        amount % 2 == 1,
    ensures
        no_metadata_update(eve_output(p2_puzzle_hash, amount, transfer)),
        last_odd_create_coin(eve_output(p2_puzzle_hash, amount, transfer)) == Some((p2_puzzle_hash, amount)),
        child_info(info, eve_output(p2_puzzle_hash, amount, transfer)) == (NftInfo {
            p2_puzzle_hash,
            current_owner: match transfer {
                Some((launcher_id, _)) => launcher_id,
                None => info.current_owner,
            },
            ..info
        }),
{
    let items = eve_output(p2_puzzle_hash, amount, transfer);
    let create = ConditionModel::CreateCoin { puzzle_hash: p2_puzzle_hash, amount, hint: Some(p2_puzzle_hash) };
    assert(seq![create].drop_last() =~= Seq::<ConditionModel>::empty());
    if let Some(_) = transfer {
        assert(items.drop_last() =~= seq![create]);
    }
    reveal_with_fuel(last_odd_create_coin, 3);
    reveal_with_fuel(last_transfer, 3);
}

/// Whether the metadata program of every spec deserializes.
pub open spec fn all_deserialize(specs: Seq<MintSpec>) -> bool {
    forall|i: int| 0 <= i < specs.len() ==> program_deserializes(#[trigger] specs[i].metadata)
}

/// Mint many NFTs from a single `funding_coin`, one intermediate launcher per NFT, all in one
/// atomic bundle.
///
/// Each [`MintSpec`] may carry its own metadata, royalty, and DID attribution. The returned
/// [`NftSpend::children`] holds the minted NFTs in order; [`NftSpend::did_conditions`] is the
/// concatenation of every attributed NFT's DID acknowledgement. Errors on an empty `specs`,
/// before touching `ctx`.
pub fn bulk_mint(ctx: &mut SpendContext, owner: &Owner, funding_coin: Coin, specs: &[MintSpec]) -> (r: Result<NftSpend, Error>)
    ensures
        allocates(*old(ctx), *final(ctx)),
        specs@.len() == 0 ==> (r matches Err(Error::InvalidInput(message))
            && message@ == "bulk_mint requires at least one NFT spec"@ && *final(ctx) == *old(ctx)),
        specs@.len() > 0 ==> (r matches Err(e) ==> e is Driver),
        r matches Err(Error::Driver(e)) ==> !all_deserialize(specs@) || limit_error(e),
        r matches Ok(s) ==> minted(s, *old(ctx), *final(ctx), funding_coin, specs@),
{
    if specs.len() == 0 {
        proof {
            reveal_strlit("bulk_mint requires at least one NFT spec");
        }
        return Err(Error::invalid(String::from_str("bulk_mint requires at least one NFT spec")));
    }
    let ghost start = *ctx;
    let ghost held: int = pending_spends(start).len() as int;
    let total = specs.len();
    let parent_coin_id = coin_id(&funding_coin);
    let mut parent_conditions = conditions_new();
    let mut did_conditions = conditions_new();
    let mut children: Vec<Nft> = Vec::new();
    let ghost mut acks: Seq<Seq<ConditionModel>> = Seq::empty();
    let ghost mut mine: Seq<(Coin, Seq<ConditionModel>)> = Seq::empty();
    assert(acks.flatten() =~= condition_items(did_conditions));
    assert(pending_spends(*ctx) =~= pending_spends(start) + mine);
    for index in 0..total
        invariant
            total == specs@.len(),
            start == *old(ctx),
            held == pending_spends(start).len(),
            allocates(start, *ctx),
            children@.len() == index,
            acks.len() == index,
            mine.len() == 3 * index,
            pending_spends(*ctx) == pending_spends(start) + mine,
            condition_items(did_conditions) == acks.flatten(),
            condition_nodes(parent_conditions) == Set::<NodePtr>::empty(),
            condition_items(parent_conditions) == launch_outputs(mine, children@, index as nat),
            parent_coin_id@ == coin_id_view(funding_coin),
            forall|i: int| 0 <= i < index ==> minted_from(#[trigger] children@[i]@.info, specs@[i]),
            forall|i: int|
                0 <= i < index ==> (#[trigger] children@[i]@.info.launcher_id)@ == intermediate_launcher_id_of(
                    parent_coin_id@,
                    i as usize,
                    total,
                ),
            forall|i: int| 0 <= i < index ==> (#[trigger] children@[i]).in_context(*ctx) && children@[i]@.coin.amount == 1,
            forall|i: int, j: int|
                0 <= i < j < index ==> (#[trigger] children@[i]@.info.launcher_id) != (#[trigger] children@[j]@.info.launcher_id),
            forall|i: int| 0 <= i < index ==> minted_spends(
                #[trigger] mine.subrange(3 * i, 3 * i + 3),
                funding_coin,
                children@[i]@,
                specs@[i],
            ),
            forall|i: int|
                0 <= i < index ==> acknowledged_by(
                    #[trigger] acks[i],
                    mine[3 * i + 2].0.puzzle_hash,
                    children@[i]@.info.launcher_id,
                    specs@[i].owner_did,
                ),
    {
        let ghost before = *ctx;
        let spec = &specs[index];
        let nft_mint = build_nft_mint(ctx, spec)?;
        let ghost built = *ctx;
        let launcher = driver_result(create_intermediate_launcher(ctx, parent_coin_id, index, total))?;
        let ghost created = *ctx;
        let ghost intermediate = launcher.intermediate;
        let ghost prev_mine = mine;
        let ghost prev_children = children@;
        let (parent, did, nft) = mint_from_launcher(ctx, launcher, &nft_mint)?;
        proof {
            let base: int = pending_spends(start).len() + 3 * index;
            let added = seq![pending_spends(created)[base], pending_spends(*ctx)[base + 1], pending_spends(*ctx)[base + 2]];
            assert(pending_spends(created).drop_last() == pending_spends(built));
            assert(pending_spends(*ctx).take(base + 1) =~= pending_spends(created));
            let p = pending_spends(*ctx);
            let target = pending_spends(start) + (mine + added);
            assert(pending_spends(created).len() == base + 1);
            assert(p.len() == base + 3);
            assert forall|k: int| 0 <= k < base + 3 implies p[k] == target[k] by {
                if k < base {
                    assert(p[k] == p.take(base + 1)[k]);
                    assert(pending_spends(created)[k] == pending_spends(created).drop_last()[k]);
                    assert(pending_spends(built) == pending_spends(start) + mine);
                } else if k == base {
                    assert(p[k] == p.take(base + 1)[k]);
                }
            }
            assert(p =~= target);
            assert((mine + added).subrange(3 * index, 3 * index + 3) =~= added);
            assert forall|i: int| 0 <= i < index implies #[trigger] (mine + added).subrange(3 * i, 3 * i + 3) == mine.subrange(3 * i, 3 * i + 3) by {
                assert((mine + added).subrange(3 * i, 3 * i + 3) =~= mine.subrange(3 * i, 3 * i + 3));
            }
            assert forall|i: int| 0 <= i < index implies #[trigger] (mine + added)[3 * i + 2] == mine[3 * i + 2] by {}
            assert(minted_spends(added, funding_coin, nft@, *spec));
            acks.lemma_flatten_push(condition_items(did));
            acks = acks.push(condition_items(did));
            mine = mine + added;
        }
        parent_conditions = conditions_extend(parent_conditions, parent);
        did_conditions = conditions_extend(did_conditions, did);
        children.push(nft);
        proof {
            assert(condition_nodes(parent_conditions) =~= Set::<NodePtr>::empty());
            assert(mine[3 * index].0 == intermediate);
            assert(children@[index as int] == nft);
            assert forall|k: int| 0 <= k < index implies #[trigger] mine[3 * k].0.puzzle_hash == prev_mine[3 * k].0.puzzle_hash by {}
            assert forall|k: int| 0 <= k < index implies #[trigger] children@[k]@.info.launcher_id == prev_children[k]@.info.launcher_id by {}
            lemma_launch_outputs_frame(mine, children@, prev_mine, prev_children, index as nat);
            assert(launch_outputs(mine, children@, (index + 1) as nat) == launch_outputs(mine, children@, index as nat)
                + launch_conditions(intermediate.puzzle_hash, nft@.info.launcher_id));
        }
    }
    // One funding-coin spend emits every launcher's conditions: all NFTs mint atomically.
    spend_funding_coin(ctx, owner, &funding_coin, parent_conditions)?;
    let ghost funded = *ctx;
    let coin_spends = take_coin_spends(ctx);
    let s = NftSpend { coin_spends, children, did_conditions };
    proof {
        let all = pending_spends(funded);
        assert(coin_spend_views(s.coin_spends@) =~= all);
        assert(all =~= pending_spends(start) + mine.push(all.last()));
        assert(all.take(held) =~= pending_spends(start));
        let spent = all.skip(held);
        assert(spent =~= mine.push(all.last()));
        assert forall|i: int| 0 <= i < specs@.len() implies #[trigger] spent.subrange(3 * i, 3 * i + 3) == mine.subrange(3 * i, 3 * i + 3) by {
            assert(spent.subrange(3 * i, 3 * i + 3) =~= mine.subrange(3 * i, 3 * i + 3));
        }
        assert forall|i: int| 0 <= i < specs@.len() implies #[trigger] spent[3 * i + 2] == mine[3 * i + 2] by {}
        assert forall|k: int| 0 <= k < specs@.len() implies #[trigger] spent[3 * k].0.puzzle_hash == mine[3 * k].0.puzzle_hash by {}
        lemma_launch_outputs_frame(spent, s.children@, mine, s.children@, specs@.len());
    }
    Ok(s)
}

/// The launch conditions of the first `count` NFTs are four per NFT, the first of each creating
/// the intermediate coin its `3 * i`th spend spends.
proof fn lemma_launch_outputs_create(spends: Seq<(Coin, Seq<ConditionModel>)>, children: Seq<Nft>, count: nat, i: int)
    requires
        0 <= i < count,
    ensures
        launch_outputs(spends, children, count).len() == 4 * count,
        launch_outputs(spends, children, count)[4 * i] == (ConditionModel::CreateCoin {
            puzzle_hash: spends[3 * i].0.puzzle_hash,
            amount: 0,
            hint: None,
        }),
    decreases count,
{
    let last = count - 1;
    if i < last {
        lemma_launch_outputs_create(spends, children, last as nat, i);
    } else if last > 0 {
        lemma_launch_outputs_create(spends, children, last as nat, 0);
    }
}

/// A mint spends the funding coin once, last, and that spend creates every NFT's intermediate
/// coin, whether or not its spec names an owner DID: for each spec `i`, the funding spend's
/// output holds a `CREATE_COIN` of amount 0 to the puzzle hash of the coin the mint's `3 * i`th
/// spend spends, which is a coin of amount 0 created by the funding coin. So every launcher of
/// the series is created in the same bundle.
pub proof fn lemma_funding_spend_creates_every_launcher(
    s: NftSpend,
    before: SpendContext,
    after: SpendContext,
    funding_coin: Coin,
    specs: Seq<MintSpec>,
    i: int,
)
    requires
        minted(s, before, after, funding_coin, specs),
        0 <= i < specs.len(),
    ensures
        ({
            let spends = coin_spend_views(s.coin_spends@).skip(pending_spends(before).len() as int);
            &&& spends.last().0 == funding_coin
            &&& spends[3 * i].0.parent_coin_info@ == coin_id_view(funding_coin)
            &&& spends[3 * i].0.amount == 0
            &&& exists|k: int| 0 <= k < spends.last().1.len() && #[trigger] spends.last().1[k] == (ConditionModel::CreateCoin {
                puzzle_hash: spends[3 * i].0.puzzle_hash,
                amount: 0,
                hint: None,
            })
        }),
{
    let spends = coin_spend_views(s.coin_spends@).skip(pending_spends(before).len() as int);
    let n = specs.len();
    assert(minted_spends(spends.subrange(3 * i, 3 * i + 3), funding_coin, s.children@[i]@, specs[i]));
    assert(spends.subrange(3 * i, 3 * i + 3)[0] == spends[3 * i]);
    lemma_launch_outputs_create(spends, s.children@, n, i);
    let out = spends.last().1;
    assert(out[1 + 4 * i] == launch_outputs(spends, s.children@, n)[4 * i]);
}

/// Every NFT a mint creates is hinted to its owner, whether or not its spec names an owner
/// DID: the spend of its eve coin outputs first a `CREATE_COIN` of amount 1 to the spec's owner
/// puzzle hash whose memos hint that puzzle hash, and that coin is the minted NFT, owned at that
/// puzzle hash. So the owner's wallet finds the minted NFT by its hint.
pub proof fn lemma_minted_nft_is_hinted_to_its_owner(
    s: NftSpend,
    before: SpendContext,
    after: SpendContext,
    funding_coin: Coin,
    specs: Seq<MintSpec>,
    i: int,
)
    requires
        minted(s, before, after, funding_coin, specs),
        0 <= i < specs.len(),
    ensures
        ({
            let spends = coin_spend_views(s.coin_spends@).skip(pending_spends(before).len() as int);
            let eve = spends[3 * i + 2];
            &&& eve.1.len() > 0
            &&& eve.1[0] == (ConditionModel::CreateCoin {
                puzzle_hash: specs[i].owner_puzzle_hash,
                amount: 1,
                hint: Some(specs[i].owner_puzzle_hash),
            })
            &&& s.children@[i]@.coin.parent_coin_info@ == coin_id_view(eve.0)
            &&& s.children@[i]@.coin.amount == 1
            &&& s.children@[i]@.info.p2_puzzle_hash == specs[i].owner_puzzle_hash
        }),
{
    let spends = coin_spend_views(s.coin_spends@).skip(pending_spends(before).len() as int);
    assert(minted_spends(spends.subrange(3 * i, 3 * i + 3), funding_coin, s.children@[i]@, specs[i]));
    assert(spends.subrange(3 * i, 3 * i + 3)[2] == spends[3 * i + 2]);
    assert(minted_from(s.children@[i]@.info, specs[i]));
    assert(s.children@[i].in_context(after));
}

/// The launch conditions of the first `count` NFTs depend only on their intermediate coins'
/// puzzle hashes and their launcher ids.
proof fn lemma_launch_outputs_frame(
    spends: Seq<(Coin, Seq<ConditionModel>)>,
    children: Seq<Nft>,
    other_spends: Seq<(Coin, Seq<ConditionModel>)>,
    other_children: Seq<Nft>,
    count: nat,
)
    requires
        forall|k: int| 0 <= k < count ==> #[trigger] spends[3 * k].0.puzzle_hash == other_spends[3 * k].0.puzzle_hash,
        forall|k: int| 0 <= k < count ==> #[trigger] children[k]@.info.launcher_id == other_children[k]@.info.launcher_id,
    ensures
        launch_outputs(spends, children, count) == launch_outputs(other_spends, other_children, count),
    decreases count,
{
    if count > 0 {
        let i = count - 1;
        assert(spends[3 * i].0.puzzle_hash == other_spends[3 * i].0.puzzle_hash);
        assert(children[i]@.info.launcher_id == other_children[i]@.info.launcher_id);
        lemma_launch_outputs_frame(spends, children, other_spends, other_children, i as nat);
    }
}

/// No trade prices have an empty view.
proof fn lemma_no_prices(prices: Seq<TradePrice>)
    requires
        prices.len() == 0,
    ensures
        prices_view(prices) == Seq::<(u64, Seq<u8>)>::empty(),
{
    assert(prices_view(prices) =~= Seq::<(u64, Seq<u8>)>::empty());
}

} // verus!
