//! The boundary with chia-wallet-sdk: the driver types this crate carries, and one trusted
//! wrapper per driver function that the builders call.
//!
//! Every wrapper, declared type and named result here is trusted: Verus believes its contract
//! and does not read its body. Each contract states only what the chia-wallet-sdk source shows
//! of the function it wraps. The spec functions with bodies and the lemmas here only phrase
//! those contracts.
//!
//! A `SpendContext` is modelled by two names: the nodes its CLVM allocator holds (which only
//! grow), and the coin spends it holds, each by its coin and the conditions its innermost
//! puzzle outputs. Every wrapper that reads a node requires that the context holds it: reading
//! a node of another context panics in the allocator.
//!
//! Each wrapper says when the driver call fails. Besides the failures its contract names, a
//! call fails only when it reaches a resource limit (`limit_error`): the allocator's node or
//! heap limits of the caller's context, the CLVM cost limit, or the serialization size limit.
//! Where a result is named by tree hashes, sha256 is taken to be free of collisions.

use vstd::prelude::*;

use chia_protocol::{Bytes32, Coin as ChiaCoin, CoinSpend, Program};
use chia_puzzle_types::offer::{NotarizedPayment as SdkNotarizedPayment, Payment as SdkPayment};
use chia_puzzle_types::Memos;
use chia_wallet_sdk::driver::{
    assignment_puzzle_announcement_id, DriverError, HashedPtr, IntermediateLauncher, Launcher,
    MetadataUpdate, Nft as SdkNft, UriKind as SdkUriKind, NftInfo as SdkNftInfo, NftMint as SdkNftMint, Puzzle, Singleton,
    Spend, SpendContext, StandardLayer,
};
use chia_wallet_sdk::prelude::PublicKey;
use chia_wallet_sdk::signer::{AggSigConstants, RequiredSignature, SignerError};
use chia_wallet_sdk::types::conditions::{TradePrice as SdkTradePrice, TransferNft as SdkTransferNft};
use chia_wallet_sdk::types::Conditions;
use chia_wallet_sdk::utils::{Address, Bech32Error};
use clvmr::{Allocator, NodePtr};

use crate::types::{
    Coin, MetadataUpdate as UpdateModel, Nft, NftInfo, NftMint, NftView, NotarizedPayment, Payment, TradePrice, TransferNft,
    UriKind,
};

verus! {

#[verifier::external_type_specification]
#[verifier::external_body]
pub struct ExSpendContext(SpendContext);

#[verifier::external_type_specification]
#[verifier::external_body]
pub struct ExHashedPtr(HashedPtr);

#[verifier::external_type_specification]
#[verifier::external_body]
pub struct ExPublicKey(PublicKey);

#[verifier::external_type_specification]
#[verifier::external_body]
pub struct ExProgram(Program);

#[verifier::external_type_specification]
#[verifier::external_body]
pub struct ExCoinSpend(CoinSpend);

#[verifier::external_type_specification]
#[verifier::external_body]
pub struct ExDriverError(DriverError);

#[verifier::external_type_specification]
#[verifier::external_body]
pub struct ExSignerError(SignerError);

#[verifier::external_type_specification]
#[verifier::external_body]
pub struct ExBech32Error(Bech32Error);

#[verifier::external_type_specification]
#[verifier::external_body]
pub struct ExNodePtr(NodePtr);

#[verifier::external_type_specification]
#[verifier::external_body]
#[verifier::reject_recursive_types(T)]
pub struct ExConditions<T>(Conditions<T>);

#[verifier::external_type_specification]
#[verifier::external_body]
#[verifier::reject_recursive_types(T)]
pub struct ExMemos<T>(Memos<T>);

#[verifier::external_type_specification]
#[verifier::external_body]
pub struct ExLauncher(Launcher);

/// Declared with its two public fields, `puzzle` and `solution`, visible.
#[verifier::external_type_specification]
pub struct ExSpend(Spend);

#[verifier::external_type_specification]
#[verifier::external_body]
pub struct ExSdkNftInfo(SdkNftInfo);

#[verifier::external_type_specification]
#[verifier::external_body]
#[verifier::reject_recursive_types(I)]
pub struct ExSingleton<I>(Singleton<I>);

#[verifier::external_type_specification]
#[verifier::external_body]
pub struct ExPuzzle(Puzzle);

/// Declared with its one public field, `synthetic_key`, visible.
#[verifier::external_type_specification]
pub struct ExStandardLayer(StandardLayer);

#[verifier::external_type_specification]
#[verifier::external_body]
pub struct ExRequiredSignature(RequiredSignature);

/// `Program`'s derived `Clone`: the clone is the same serialized program.
pub assume_specification [<Program as Clone>::clone](p: &Program) -> (r: Program)
    ensures
        r == *p,
;

/// The coin id of a coin: `Coin::coin_id`, the sha256 of its parent id, puzzle hash and
/// amount.
pub uninterp spec fn coin_id_of(parent_coin_info: Seq<u8>, puzzle_hash: Seq<u8>, amount: u64) -> Seq<u8>;

/// `Coin::coin_id`: the result is the named coin id of the coin's three fields.
#[verifier::external_body]
pub(crate) fn coin_id(coin: &Coin) -> (r: [u8; 32])
    ensures
        r@ == coin_id_of(coin.parent_coin_info@, coin.puzzle_hash@, coin.amount),
{
    ChiaCoin::new(coin.parent_coin_info.into(), coin.puzzle_hash.into(), coin.amount).coin_id().into()
}

/// What a driver condition is, as far as the builders' contracts speak of it. Each condition
/// of a `Conditions` list maps to one of these; fields the contracts never read are dropped.
pub enum ConditionModel {
    /// `CREATE_COIN`, with the puzzle hash its memos hint: `Some(h)` when its memo list is the
    /// one-item list of the 32-byte `h` (as `SpendContext::hint(h)` allocates it), `None` when
    /// it has no memos or other ones.
    CreateCoin { puzzle_hash: [u8; 32], amount: u64, hint: Option<[u8; 32]> },
    /// The NFT ownership layer's transfer condition (the owner's inner puzzle hash dropped).
    TransferNft { launcher_id: Option<[u8; 32]>, trade_prices: Seq<(u64, Seq<u8>)> },
    /// `ASSERT_PUZZLE_ANNOUNCEMENT`.
    AssertPuzzleAnnouncement { announcement_id: [u8; 32] },
    /// `CREATE_PUZZLE_ANNOUNCEMENT` of a 32-byte message.
    CreatePuzzleAnnouncement { message: [u8; 32] },
    /// The NFT state layer's metadata-update condition (its updater spend dropped).
    UpdateNftMetadata,
    /// Any other condition.
    Other,
}

/// Whether `items` hold no metadata-update condition.
pub open spec fn no_metadata_update(items: Seq<ConditionModel>) -> bool {
    forall|i: int| 0 <= i < items.len() ==> !(#[trigger] items[i] is UpdateNftMetadata)
}

/// Whether the driver error `error` reports that a resource limit was reached: the CLVM
/// allocator's atom, pair or heap limit, the CLVM cost limit, or the size limit on a
/// serialized program.
pub uninterp spec fn limit_error(error: DriverError) -> bool;

/// Whether `key` is a valid BLS public key (`PublicKey::is_valid`: a point of the G1 subgroup).
pub uninterp spec fn public_key_is_valid(key: PublicKey) -> bool;

/// Whether the serialized CLVM of `program` deserializes (`node_from_bytes` accepts it, given
/// room in the allocator).
pub uninterp spec fn program_deserializes(program: Program) -> bool;

/// The tree hash of the CLVM tree that `program` serializes.
pub uninterp spec fn program_tree_hash(program: Program) -> Seq<u8>;

/// The conditions a `Conditions` list holds, in order.
pub uninterp spec fn condition_items(conditions: Conditions) -> Seq<ConditionModel>;

/// The allocator nodes a `Conditions` list points to (the memos of its `CREATE_COIN`s).
pub uninterp spec fn condition_nodes(conditions: Conditions) -> Set<NodePtr>;

/// The nodes a `SpendContext`'s allocator holds. The allocator only grows: no builder of this
/// crate restores an earlier checkpoint.
pub uninterp spec fn allocated_nodes(ctx: SpendContext) -> Set<NodePtr>;

/// The coin spends a `SpendContext` holds, in the order they were added: each by the coin it
/// spends and the conditions its innermost puzzle outputs (the p2 puzzle of an NFT or of a
/// standard coin; none when the puzzle raises or outputs no list of conditions), as for
/// `spend_output`.
pub uninterp spec fn pending_spends(ctx: SpendContext) -> Seq<(Coin, Seq<ConditionModel>)>;

/// A coin spend by the coin it spends and the conditions its innermost puzzle outputs, as
/// `pending_spends` records it.
pub uninterp spec fn coin_spend_view(coin_spend: CoinSpend) -> (Coin, Seq<ConditionModel>);

/// The tree hash of the node `node` of a `SpendContext`'s allocator.
pub uninterp spec fn node_tree_hash(ctx: SpendContext, node: NodePtr) -> Seq<u8>;

/// The conditions the puzzle at `puzzle` outputs when run on the solution at `solution`, in a
/// `SpendContext`'s allocator, by the CLVM semantics with no limit on cost or allocation (none
/// when the run raises or its output is not a list of conditions).
pub uninterp spec fn spend_output(ctx: SpendContext, puzzle: NodePtr, solution: NodePtr) -> Seq<ConditionModel>;

/// What the default metadata updater makes of the NFT metadata at `metadata` given the update
/// `kind` and `uri`: the tree hash of the new metadata (the metadata with `uri` prepended to the
/// URI list `kind` names) and the new updater puzzle hash; `None` when the updater raises.
pub uninterp spec fn metadata_update_result(ctx: SpendContext, metadata: NodePtr, kind: UriKind, uri: Seq<char>) -> Option<(Seq<u8>, Seq<u8>)>;

/// The messages of the puzzle announcements the settlement payments puzzle makes for
/// `notarized_payments`, one per notarized payment in order: the tree hash of each notarized
/// payment, whose memos are nodes of `ctx`.
pub uninterp spec fn settlement_announcements(ctx: SpendContext, notarized_payments: Seq<NotarizedPayment>) -> Seq<[u8; 32]>;

/// Whether `after` holds every node `before` holds, unchanged: the same tree hashes, the same
/// outputs of puzzles run on solutions, and the same results of metadata updates.
pub open spec fn allocates(before: SpendContext, after: SpendContext) -> bool {
    &&& allocated_nodes(before).subset_of(allocated_nodes(after))
    &&& forall|node: NodePtr|
        allocated_nodes(before).contains(node) ==> #[trigger] node_tree_hash(after, node) == node_tree_hash(before, node)
    &&& forall|puzzle: NodePtr, solution: NodePtr|
        allocated_nodes(before).contains(puzzle) && allocated_nodes(before).contains(solution)
            ==> #[trigger] spend_output(after, puzzle, solution) == spend_output(before, puzzle, solution)
    &&& forall|metadata: NodePtr, kind: UriKind, uri: Seq<char>|
        allocated_nodes(before).contains(metadata) ==> #[trigger] metadata_update_result(after, metadata, kind, uri)
            == metadata_update_result(before, metadata, kind, uri)
}

/// Growing the allocator twice grows it.
pub broadcast proof fn lemma_allocates_transitive(a: SpendContext, b: SpendContext, c: SpendContext)
    requires
        #[trigger] allocates(a, b),
        #[trigger] allocates(b, c),
    ensures
        allocates(a, c),
{
}

/// Whether `after` only adds nodes to `before`: it holds every node and the same coin spends.
pub open spec fn only_allocates(before: SpendContext, after: SpendContext) -> bool {
    &&& allocates(before, after)
    &&& pending_spends(after) == pending_spends(before)
}

/// Whether every node `conditions` points to is held by `ctx`.
pub open spec fn conditions_in(conditions: Conditions, ctx: SpendContext) -> bool {
    condition_nodes(conditions).subset_of(allocated_nodes(ctx))
}

/// Whether `after` holds the coin spends of `before` followed by exactly one more, of `coin`.
pub open spec fn adds_spend_of(before: SpendContext, after: SpendContext, coin: Coin) -> bool {
    &&& pending_spends(after).len() == pending_spends(before).len() + 1
    &&& pending_spends(after).drop_last() == pending_spends(before)
    &&& pending_spends(after).last().0 == coin
}

/// `Conditions::new`: an empty list.
#[verifier::external_body]
pub(crate) fn conditions_new() -> (r: Conditions)
    ensures
        condition_items(r) == Seq::<ConditionModel>::empty(),
        condition_nodes(r) == Set::<NodePtr>::empty(),
{
    Conditions::new()
}

/// The node of an optional memo list, as a set.
pub open spec fn memo_nodes(memos: Option<NodePtr>) -> Set<NodePtr> {
    match memos {
        Some(node) => set![node],
        None => Set::empty(),
    }
}

/// The memo list that hints a coin to `puzzle_hash`, as `SpendContext::hint` allocates it.
pub struct HintMemos {
    pub(crate) memos: Option<NodePtr>,
    pub(crate) puzzle_hash: [u8; 32],
}

/// The hint a memo list gives, if any.
pub(crate) open spec fn hint_of(memos: Option<HintMemos>) -> Option<[u8; 32]> {
    match memos {
        Some(m) => Some(m.puzzle_hash),
        None => None,
    }
}

/// The nodes a memo list points to.
pub(crate) open spec fn hint_nodes(memos: Option<HintMemos>) -> Set<NodePtr> {
    match memos {
        Some(m) => memo_nodes(m.memos),
        None => Set::empty(),
    }
}

/// `Conditions::create_coin`: appends one `CREATE_COIN` with the memo list `memos` (none when
/// `None`).
#[verifier::external_body]
pub(crate) fn conditions_create_coin(
    conditions: Conditions,
    puzzle_hash: [u8; 32],
    amount: u64,
    memos: Option<HintMemos>,
) -> (r: Conditions)
    ensures
        condition_items(r) == condition_items(conditions).push(
            ConditionModel::CreateCoin { puzzle_hash, amount, hint: hint_of(memos) },
        ),
        condition_nodes(r) == condition_nodes(conditions).union(hint_nodes(memos)),
{
    let memos = match memos { Some(HintMemos { memos: Some(m), .. }) => Memos::Some(m), _ => Memos::None };
    conditions.create_coin(puzzle_hash.into(), amount, memos)
}

/// `Conditions::with`, given the ownership layer's transfer condition: appends it.
#[verifier::external_body]
pub(crate) fn conditions_with_transfer(conditions: Conditions, transfer: &TransferNft) -> (r: Conditions)
    ensures
        condition_items(r) == condition_items(conditions).push(
            ConditionModel::TransferNft {
                launcher_id: transfer.launcher_id,
                trade_prices: prices_view(transfer.trade_prices@),
            },
        ),
        condition_nodes(r) == condition_nodes(conditions),
{
    let prices = transfer.trade_prices.iter().map(|p| SdkTradePrice::new(p.amount, p.puzzle_hash.into()));
    let t = SdkTransferNft::new(transfer.launcher_id.map(Bytes32::new), prices.collect(), transfer.singleton_inner_puzzle_hash.map(Bytes32::new));
    conditions.with(t)
}

/// `Conditions::extend`, given another list: appends its conditions in order.
#[verifier::external_body]
pub(crate) fn conditions_extend(conditions: Conditions, other: Conditions) -> (r: Conditions)
    ensures
        condition_items(r) == condition_items(conditions) + condition_items(other),
        condition_nodes(r) == condition_nodes(conditions).union(condition_nodes(other)),
{
    conditions.extend(other)
}

/// `Conditions::assert_puzzle_announcement`: appends one `ASSERT_PUZZLE_ANNOUNCEMENT`.
#[verifier::external_body]
pub(crate) fn conditions_assert_puzzle_announcement(conditions: Conditions, announcement_id: [u8; 32]) -> (r: Conditions)
    ensures
        condition_items(r) == condition_items(conditions).push(
            ConditionModel::AssertPuzzleAnnouncement { announcement_id },
        ),
        condition_nodes(r) == condition_nodes(conditions),
{
    conditions.assert_puzzle_announcement(announcement_id.into())
}

/// `Conditions::create_puzzle_announcement`: appends one `CREATE_PUZZLE_ANNOUNCEMENT`.
#[verifier::external_body]
pub(crate) fn conditions_create_puzzle_announcement(conditions: Conditions, message: [u8; 32]) -> (r: Conditions)
    ensures
        condition_items(r) == condition_items(conditions).push(
            ConditionModel::CreatePuzzleAnnouncement { message },
        ),
        condition_nodes(r) == condition_nodes(conditions),
{
    conditions.create_puzzle_announcement(message.to_vec().into())
}

/// The announcement id a DID asserts to acknowledge an NFT assignment:
/// `assignment_puzzle_announcement_id`, a sha256 over the NFT's full puzzle hash and the
/// tree hash of the transfer condition's arguments.
pub uninterp spec fn assignment_announcement_id_of(
    nft_puzzle_hash: Seq<u8>,
    launcher_id: Option<Seq<u8>>,
    trade_prices: Seq<(u64, Seq<u8>)>,
    singleton_inner_puzzle_hash: Option<Seq<u8>>,
) -> Seq<u8>;

/// An optional hash, by its bytes.
pub open spec fn opt_bytes(h: Option<[u8; 32]>) -> Option<Seq<u8>> {
    match h {
        Some(b) => Some(b@),
        None => None,
    }
}

/// Trade prices, by their amounts and puzzle hash bytes.
pub open spec fn prices_view(prices: Seq<TradePrice>) -> Seq<(u64, Seq<u8>)> {
    prices.map_values(|p: TradePrice| (p.amount, p.puzzle_hash@))
}

/// The conditions an owner singleton emits to acknowledge that the NFT with full puzzle hash
/// `nft_puzzle_hash` and launcher id `nft_launcher_id` is assigned to it by a transfer
/// condition naming `owner_launcher_id`, `trade_prices` and `owner_inner_puzzle_hash`: it
/// asserts the NFT's assignment announcement and announces the NFT's launcher id.
pub open spec fn did_acknowledgement(
    items: Seq<ConditionModel>,
    nft_puzzle_hash: [u8; 32],
    nft_launcher_id: [u8; 32],
    owner_launcher_id: Option<[u8; 32]>,
    trade_prices: Seq<(u64, Seq<u8>)>,
    owner_inner_puzzle_hash: Option<[u8; 32]>,
) -> bool {
    &&& items.len() == 2
    &&& items[0] matches ConditionModel::AssertPuzzleAnnouncement { announcement_id }
        && announcement_id@ == assignment_announcement_id_of(
            nft_puzzle_hash@,
            opt_bytes(owner_launcher_id),
            trade_prices,
            opt_bytes(owner_inner_puzzle_hash),
        )
    &&& items[1] == (ConditionModel::CreatePuzzleAnnouncement { message: nft_launcher_id })
}

/// `assignment_puzzle_announcement_id`: the result is the named announcement id.
#[verifier::external_body]
pub(crate) fn assignment_announcement_id(nft_puzzle_hash: [u8; 32], transfer: &TransferNft) -> (r: [u8; 32])
    ensures
        r@ == assignment_announcement_id_of(
            nft_puzzle_hash@,
            opt_bytes(transfer.launcher_id),
            prices_view(transfer.trade_prices@),
            opt_bytes(transfer.singleton_inner_puzzle_hash),
        ),
{
    let prices = transfer.trade_prices.iter().map(|p| SdkTradePrice::new(p.amount, p.puzzle_hash.into()));
    let t = SdkTransferNft::new(transfer.launcher_id.map(Bytes32::new), prices.collect(), transfer.singleton_inner_puzzle_hash.map(Bytes32::new));
    assignment_puzzle_announcement_id(nft_puzzle_hash.into(), &t).into()
}


/// A node allocated together with its tree hash, and the node it points to.
#[derive(Clone, Copy)]
pub struct HashedNode {
    pub(crate) hashed: HashedPtr,
    pub(crate) node: NodePtr,
}

/// `SpendContext::alloc_hashed`, given a serialized program: deserializes it into the context
/// and returns the node, whose tree hash is the program's, with that hash. It fails only when
/// the program does not deserialize or a limit is reached.
#[verifier::external_body]
pub(crate) fn alloc_hashed(ctx: &mut SpendContext, program: &Program) -> (r: Result<HashedNode, DriverError>)
    ensures
        only_allocates(*old(ctx), *final(ctx)),
        r matches Ok(h) ==> allocated_nodes(*final(ctx)).contains(h.node)
            && node_tree_hash(*final(ctx), h.node) == program_tree_hash(*program),
        r matches Err(e) ==> !program_deserializes(*program) || limit_error(e),
{
    let hashed = ctx.alloc_hashed(program)?;
    Ok(HashedNode { hashed, node: hashed.ptr() })
}

/// `SpendContext::alloc`, given a serialized program: deserializes it into the context and
/// returns the node, whose tree hash is the program's. It fails only when the program does not
/// deserialize or a limit is reached.
#[verifier::external_body]
pub(crate) fn alloc_program(ctx: &mut SpendContext, program: &Program) -> (r: Result<NodePtr, DriverError>)
    ensures
        only_allocates(*old(ctx), *final(ctx)),
        r matches Ok(node) ==> allocated_nodes(*final(ctx)).contains(node)
            && node_tree_hash(*final(ctx), node) == program_tree_hash(*program),
        r matches Err(e) ==> !program_deserializes(*program) || limit_error(e),
{
    ctx.alloc(program)
}

/// The views of `coin_spends`, in order.
pub open spec fn coin_spend_views(coin_spends: Seq<CoinSpend>) -> Seq<(Coin, Seq<ConditionModel>)> {
    coin_spends.map_values(|coin_spend: CoinSpend| coin_spend_view(coin_spend))
}

/// The coin id of `coin`.
pub open spec fn coin_id_view(coin: Coin) -> Seq<u8> {
    coin_id_of(coin.parent_coin_info@, coin.puzzle_hash@, coin.amount)
}

/// `SpendContext::take`: drains the coin spends added so far and returns them in order.
#[verifier::external_body]
pub(crate) fn take_coin_spends(ctx: &mut SpendContext) -> (r: Vec<CoinSpend>)
    ensures
        r@.map_values(|coin_spend: CoinSpend| coin_spend_view(coin_spend)) == pending_spends(*old(ctx)),
        pending_spends(*final(ctx)) == Seq::<(Coin, Seq<ConditionModel>)>::empty(),
        allocates(*old(ctx), *final(ctx)),
{
    ctx.take()
}

/// `SpendContext::hint`: allocates the memo list that hints a created coin to `puzzle_hash`
/// (the one-item list of `puzzle_hash`, always some memos).
#[verifier::external_body]
pub(crate) fn hint(ctx: &mut SpendContext, puzzle_hash: [u8; 32]) -> (r: Result<HintMemos, DriverError>)
    ensures
        only_allocates(*old(ctx), *final(ctx)),
        r matches Ok(m) ==> m.puzzle_hash == puzzle_hash && m.memos is Some
            && memo_nodes(m.memos).subset_of(allocated_nodes(*final(ctx))),
        r matches Err(e) ==> limit_error(e),
{
    let memos = match ctx.hint(puzzle_hash.into())? { Memos::Some(node) => Some(node), Memos::None => None };
    Ok(HintMemos { memos, puzzle_hash })
}

/// The coin id of the singleton launcher that the intermediate launcher numbered
/// `mint_number` of `mint_total` off the parent coin `parent_coin_id` creates
/// (`IntermediateLauncher::new(..).launcher_coin().coin_id()`).
pub uninterp spec fn intermediate_launcher_id_of(parent_coin_id: Seq<u8>, mint_number: usize, mint_total: usize) -> Seq<u8>;

/// A singleton launcher about to be spent, with the intermediate coin that creates it, its
/// launcher coin and that coin's id.
pub struct PendingLauncher {
    pub(crate) launcher: Launcher,
    pub(crate) intermediate: Coin,
    pub(crate) coin: Coin,
    pub(crate) launcher_id: [u8; 32],
}

/// `IntermediateLauncher::create`, for the intermediate launcher numbered `mint_number` of
/// `mint_total` off the parent coin `parent_coin_id`: adds the spend of the intermediate coin
/// (an amount of 0 created by the parent) and returns the launcher it creates. The launcher's
/// puzzle curries `mint_number`, so the launchers numbered otherwise off the same parent have
/// other ids (sha256 is taken to be free of collisions). The launcher coin is created by the
/// intermediate coin with the amount 1 and has the named launcher id. The intermediate puzzle's
/// output is not stated.
#[verifier::external_body]
pub(crate) fn create_intermediate_launcher(
    ctx: &mut SpendContext,
    parent_coin_id: [u8; 32],
    mint_number: usize,
    mint_total: usize,
) -> (r: Result<PendingLauncher, DriverError>)
    ensures
        allocates(*old(ctx), *final(ctx)),
        r matches Err(e) ==> limit_error(e),
        r matches Ok(l) ==> {
            &&& l.launcher_id@ == intermediate_launcher_id_of(parent_coin_id@, mint_number, mint_total)
            &&& forall|other: usize| other != mint_number ==> #[trigger] intermediate_launcher_id_of(parent_coin_id@, other, mint_total) != l.launcher_id@
            &&& l.launcher_id@ == coin_id_of(l.coin.parent_coin_info@, l.coin.puzzle_hash@, l.coin.amount)
            &&& l.coin.amount == 1
            &&& pending_spends(*final(ctx)).len() == pending_spends(*old(ctx)).len() + 1
            &&& pending_spends(*final(ctx)).drop_last() == pending_spends(*old(ctx))
            &&& pending_spends(*final(ctx)).last().0 == l.intermediate
            &&& l.intermediate.parent_coin_info == parent_coin_id
            &&& l.intermediate.amount == 0
            &&& l.coin.parent_coin_info@ == coin_id_view(l.intermediate)
        },
{
    let intermediate = IntermediateLauncher::new(parent_coin_id.into(), mint_number, mint_total);
    let (i, k) = (intermediate.intermediate_coin(), intermediate.launcher_coin());
    let inter = Coin { parent_coin_info: i.parent_coin_info.into(), puzzle_hash: i.puzzle_hash.into(), amount: i.amount };
    let coin = Coin { parent_coin_info: k.parent_coin_info.into(), puzzle_hash: k.puzzle_hash.into(), amount: k.amount };
    Ok(PendingLauncher { launcher: intermediate.create(ctx)?, intermediate: inter, coin, launcher_id: k.coin_id().into() })
}

/// `Launcher::singleton_amount`: for a launcher made from its coin, that coin's amount.
#[verifier::external_body]
pub(crate) fn singleton_amount(launcher: &PendingLauncher) -> (r: u64)
    ensures
        r == launcher.coin.amount,
{
    launcher.launcher.singleton_amount()
}

/// The conditions a standard-layer coin outputs when its delegated puzzle quotes `conditions`:
/// its signature condition (none of the modelled kinds), then `conditions`.
pub open spec fn standard_layer_output(conditions: Conditions) -> Seq<ConditionModel> {
    seq![ConditionModel::Other] + condition_items(conditions)
}

/// `StandardLayer::spend`: adds the spend of `coin` through the standard layer, with the
/// delegated puzzle that quotes `conditions`. Nothing is added when it fails.
#[verifier::external_body]
pub(crate) fn standard_spend_coin(
    ctx: &mut SpendContext,
    owner: &StandardLayer,
    coin: &Coin,
    conditions: Conditions,
) -> (r: Result<(), DriverError>)
    requires
        conditions_in(conditions, *old(ctx)),
    ensures
        allocates(*old(ctx), *final(ctx)),
        r is Ok ==> pending_spends(*final(ctx)) == pending_spends(*old(ctx)).push((*coin, standard_layer_output(conditions))),
        r is Err ==> pending_spends(*final(ctx)) == pending_spends(*old(ctx)),
        r matches Err(e) ==> limit_error(e),
{
    owner.spend(ctx, ChiaCoin::new(coin.parent_coin_info.into(), coin.puzzle_hash.into(), coin.amount), conditions)
}

/// The metadata-updater spend of an update, with the update's kind and URI.
pub struct UpdaterSpend {
    pub(crate) spend: Spend,
    pub(crate) kind: UriKind,
    pub(crate) uri: String,
}

/// `MetadataUpdate::spend`, for the update of kind `update.kind` with `update.uri`: the spend of
/// the default metadata updater that prepends the URI, whose puzzle and solution are allocated
/// in the context.
#[verifier::external_body]
pub(crate) fn metadata_update_spend(ctx: &mut SpendContext, update: &UpdateModel) -> (r: Result<UpdaterSpend, DriverError>)
    ensures
        only_allocates(*old(ctx), *final(ctx)),
        r matches Ok(u) ==> {
            &&& allocated_nodes(*final(ctx)).contains(u.spend.puzzle)
            &&& allocated_nodes(*final(ctx)).contains(u.spend.solution)
            &&& u.kind == update.kind
            &&& u.uri@ == update.uri@
        },
        r matches Err(e) ==> limit_error(e),
{
    let kind = match update.kind { UriKind::Data => SdkUriKind::Data, UriKind::Metadata => SdkUriKind::Metadata, UriKind::License => SdkUriKind::License };
    let spend = MetadataUpdate { kind, uri: update.uri.clone() }.spend(ctx)?;
    Ok(UpdaterSpend { spend, kind: update.kind, uri: update.uri.clone() })
}

/// A puzzle parsed from a node, with that node.
pub struct ParsedPuzzle {
    pub(crate) puzzle: Puzzle,
    pub(crate) node: NodePtr,
}

/// `Puzzle::parse`: the puzzle at `ptr`, curried or not.
#[verifier::external_body]
pub(crate) fn parse_puzzle(ctx: &SpendContext, ptr: NodePtr) -> (r: ParsedPuzzle)
    requires
        allocated_nodes(*ctx).contains(ptr),
    ensures
        r.node == ptr,
{
    ParsedPuzzle { puzzle: Puzzle::parse(ctx, ptr), node: ptr }
}

/// `SpendContext::delegated_spend`: allocates the puzzle that quotes `conditions`, with an
/// empty solution; run, it outputs `conditions`.
#[verifier::external_body]
pub(crate) fn delegated_spend(ctx: &mut SpendContext, conditions: Conditions) -> (r: Result<Spend, DriverError>)
    requires
        conditions_in(conditions, *old(ctx)),
    ensures
        only_allocates(*old(ctx), *final(ctx)),
        r matches Ok(spend) ==> {
            &&& allocated_nodes(*final(ctx)).contains(spend.puzzle)
            &&& allocated_nodes(*final(ctx)).contains(spend.solution)
            &&& spend_output(*final(ctx), spend.puzzle, spend.solution) == condition_items(conditions)
        },
        r matches Err(e) ==> limit_error(e),
{
    ctx.delegated_spend(conditions)
}

/// `SpendContext::tree_hash`: the tree hash of the node `node`.
#[verifier::external_body]
pub(crate) fn tree_hash(ctx: &SpendContext, node: NodePtr) -> (r: [u8; 32])
    requires
        allocated_nodes(*ctx).contains(node),
    ensures
        r@ == node_tree_hash(*ctx, node),
{
    ctx.tree_hash(node).into()
}

/// The p2 puzzle hash and amount of the last odd-amount `CREATE_COIN` in `items`: the coin
/// the NFT layers recreate the NFT as.
pub open spec fn last_odd_create_coin(items: Seq<ConditionModel>) -> Option<([u8; 32], u64)>
    decreases items.len(),
{
    if items.len() == 0 {
        None
    } else {
        match items.last() {
            ConditionModel::CreateCoin { puzzle_hash, amount, .. } if amount % 2 == 1 => Some((puzzle_hash, amount)),
            _ => last_odd_create_coin(items.drop_last()),
        }
    }
}

/// The owner named by the last transfer condition in `items`, if there is one.
pub open spec fn last_transfer(items: Seq<ConditionModel>) -> Option<Option<[u8; 32]>>
    decreases items.len(),
{
    if items.len() == 0 {
        None
    } else {
        match items.last() {
            ConditionModel::TransferNft { launcher_id, .. } => Some(launcher_id),
            _ => last_transfer(items.drop_last()),
        }
    }
}

/// The info of the child an NFT with `info` creates when its p2 puzzle outputs `items`
/// (`NftInfo::child_from_p2_spend`): the p2 puzzle hash of the last odd-amount coin, and the
/// owner of the last transfer condition if there is one.
pub open spec fn child_info(info: NftInfo, items: Seq<ConditionModel>) -> NftInfo {
    NftInfo {
        p2_puzzle_hash: last_odd_create_coin(items).unwrap().0,
        current_owner: match last_transfer(items) {
            Some(owner) => owner,
            None => info.current_owner,
        },
        ..info
    }
}

/// The library's view of a driver NFT: its coin and on-chain fields read from it, and the node
/// of its metadata. The driver value is kept whole.
#[verifier::external_body]
pub(crate) fn nft_from_driver(driver: Singleton<SdkNftInfo>) -> (r: Nft)
    ensures
        r.driver() == driver,
{
    let (k, i) = (driver.coin, driver.info);
    Nft { inner: driver, metadata_node: i.metadata.ptr(),
        coin: Coin { parent_coin_info: k.parent_coin_info.into(), puzzle_hash: k.puzzle_hash.into(), amount: k.amount },
        info: NftInfo { launcher_id: i.launcher_id.into(), metadata_hash: i.metadata.tree_hash().into(),
            metadata_updater_puzzle_hash: i.metadata_updater_puzzle_hash.into(), current_owner: i.current_owner.map(Into::into),
            royalty_puzzle_hash: i.royalty_puzzle_hash.into(), royalty_basis_points: i.royalty_basis_points, p2_puzzle_hash: i.p2_puzzle_hash.into() } }
}

/// What a spend of `nft` whose p2 puzzle outputs `output` does to the context and gives back:
/// the child `c` it recreates (`spent_into`), held in the context, and one more coin spend, of
/// the NFT's coin with that output.
pub open spec fn nft_spent(before: SpendContext, after: SpendContext, nft: Nft, c: Nft, output: Seq<ConditionModel>) -> bool {
    &&& spent_into(nft@, c@, output)
    &&& c.in_context(after)
    &&& pending_spends(after) == pending_spends(before).push((nft@.coin, output))
}

/// `Nft::spend`: spends `nft` with the inner spend `inner`, whose puzzle must hash to the
/// NFT's p2 puzzle hash for the spend to be valid. The child is recreated from what that puzzle
/// outputs: its coin is created by the NFT's coin with the last odd `CREATE_COIN`'s amount, and
/// its info is `child_info`, with the NFT's metadata (the inner puzzle reveals no metadata
/// update); with no odd `CREATE_COIN` there is no child and the call fails. It fails otherwise
/// only when a limit is reached.
#[verifier::external_body]
pub(crate) fn nft_spend(ctx: &mut SpendContext, nft: &Nft, inner: Spend) -> (r: Result<Nft, DriverError>)
    requires
        nft.in_context(*old(ctx)),
        allocated_nodes(*old(ctx)).contains(inner.puzzle),
        allocated_nodes(*old(ctx)).contains(inner.solution),
        node_tree_hash(*old(ctx), inner.puzzle) == nft@.info.p2_puzzle_hash@,
        no_metadata_update(spend_output(*old(ctx), inner.puzzle, inner.solution)),
    ensures
        allocates(*old(ctx), *final(ctx)),
        last_odd_create_coin(spend_output(*old(ctx), inner.puzzle, inner.solution)) is None ==> r is Err,
        r matches Err(e) ==> last_odd_create_coin(spend_output(*old(ctx), inner.puzzle, inner.solution)) is None || limit_error(e),
        r matches Ok(c) ==> nft_spent(*old(ctx), *final(ctx), *nft, c, spend_output(*old(ctx), inner.puzzle, inner.solution))
            && c.metadata_node() == nft.metadata_node(),
{
    Ok(nft_from_driver(nft.inner.spend(ctx, inner)?))
}

/// The puzzle hash of the default NFT metadata updater (`NFT_METADATA_UPDATER_DEFAULT_HASH`),
/// which prepends a URI to one of the metadata's URI lists.
pub open spec fn default_metadata_updater_puzzle_hash() -> [u8; 32] {
    [
        0xfeu8, 0x8a, 0x4b, 0x4e, 0x27, 0xa2, 0xe2, 0x9a, 0x4d, 0x3f, 0xc7, 0xce, 0x9d, 0x52, 0x7a, 0xdb,
        0xca, 0xcc, 0xba, 0xb6, 0xad, 0xa3, 0x90, 0x3c, 0xcf, 0x3b, 0xa9, 0xa7, 0x69, 0xd2, 0xd7, 0x8b,
    ]
}

/// `NftMint::new`: the mint fields for metadata, owner, royalty and transfer condition. The
/// royalty is paid to the owner's puzzle hash, and the metadata updater is the default one.
#[verifier::external_body]
pub(crate) fn nft_mint_new(
    metadata: HashedNode,
    p2_puzzle_hash: [u8; 32],
    royalty_basis_points: u16,
    transfer_condition: Option<TransferNft>,
) -> (r: NftMint)
    ensures
        r.metadata == metadata,
        r.metadata_updater_puzzle_hash == default_metadata_updater_puzzle_hash(),
        r.royalty_puzzle_hash == p2_puzzle_hash,
        r.royalty_basis_points == royalty_basis_points,
        r.p2_puzzle_hash == p2_puzzle_hash,
        r.transfer_condition == transfer_condition,
{
    let m = SdkNftMint::new(metadata.hashed, p2_puzzle_hash.into(), royalty_basis_points, None);
    NftMint { metadata, metadata_updater_puzzle_hash: m.metadata_updater_puzzle_hash.into(), royalty_puzzle_hash: m.royalty_puzzle_hash.into(),
        royalty_basis_points: m.royalty_basis_points, p2_puzzle_hash: m.p2_puzzle_hash.into(), transfer_condition }
}

/// The conditions the parent of the intermediate coin with puzzle hash
/// `intermediate_puzzle_hash` emits to launch the NFT with launcher id `launcher_id`: create
/// the intermediate coin (amount 0, no memos), assert the intermediate coin's and the launcher
/// coin's announcements (none of the modelled kinds), and announce the launcher id.
pub open spec fn launch_conditions(intermediate_puzzle_hash: [u8; 32], launcher_id: [u8; 32]) -> Seq<ConditionModel> {
    seq![
        ConditionModel::CreateCoin { puzzle_hash: intermediate_puzzle_hash, amount: 0, hint: None },
        ConditionModel::Other,
        ConditionModel::Other,
        ConditionModel::CreatePuzzleAnnouncement { message: launcher_id },
    ]
}

/// `Launcher::mint_eve_nft`: adds the spend of the launcher coin, which creates the eve NFT,
/// and returns the conditions the launcher's parent must emit (`launch_conditions`, pointing to
/// no node) with the eve NFT. The eve has the given fields and metadata, the launcher's coin id as its launcher
/// id, and no assigned owner; its coin is created by the launcher coin with the singleton
/// amount. The eve coin's puzzle hash and the launcher puzzle's output are not stated.
#[verifier::external_body]
pub(crate) fn mint_eve_nft(
    ctx: &mut SpendContext,
    launcher: PendingLauncher,
    p2_puzzle_hash: [u8; 32],
    metadata: HashedNode,
    metadata_updater_puzzle_hash: [u8; 32],
    royalty_puzzle_hash: [u8; 32],
    royalty_basis_points: u16,
) -> (r: Result<(Conditions, Nft), DriverError>)
    requires
        allocated_nodes(*old(ctx)).contains(metadata.node),
    ensures
        allocates(*old(ctx), *final(ctx)),
        r matches Err(e) ==> limit_error(e),
        r matches Ok((d, e)) ==> {
            &&& condition_nodes(d) == Set::<NodePtr>::empty()
            &&& condition_items(d) == launch_conditions(launcher.intermediate.puzzle_hash, launcher.launcher_id)
            &&& e@.info.metadata_hash@ == node_tree_hash(*old(ctx), metadata.node)
            &&& e@.info.launcher_id == launcher.launcher_id
            &&& e@.info.current_owner is None
            &&& e@.info.metadata_updater_puzzle_hash == metadata_updater_puzzle_hash
            &&& e@.info.royalty_puzzle_hash == royalty_puzzle_hash
            &&& e@.info.royalty_basis_points == royalty_basis_points
            &&& e@.info.p2_puzzle_hash == p2_puzzle_hash
            &&& e@.coin.parent_coin_info == launcher.launcher_id
            &&& e@.coin.amount == launcher.coin.amount
            &&& e.metadata_node() == metadata.node
            &&& e.in_context(*final(ctx))
            &&& adds_spend_of(*old(ctx), *final(ctx), launcher.coin)
        },
{
    let (conditions, c) = launcher.launcher.mint_eve_nft(ctx, p2_puzzle_hash.into(), metadata.hashed, metadata_updater_puzzle_hash.into(),
        royalty_puzzle_hash.into(), royalty_basis_points)?;
    Ok((conditions, nft_from_driver(c)))
}

/// The coin a spend of `nft` recreates it as, given the recreated coin's amount: a coin
/// created by the NFT's coin.
pub open spec fn recreated_from(nft: NftView, child: NftView, amount: u64) -> bool {
    &&& child.coin.amount == amount
    &&& child.coin.parent_coin_info@ == coin_id_of(nft.coin.parent_coin_info@, nft.coin.puzzle_hash@, nft.coin.amount)
}

/// The child `c` that spending `nft` with a p2 puzzle outputting `output` recreates: the last
/// odd-amount `CREATE_COIN` decides its p2 puzzle hash and amount, the last transfer condition
/// its owner (`NftInfo::child_from_p2_spend`), and the NFT's coin is its parent.
pub open spec fn spent_into(nft: NftView, c: NftView, output: Seq<ConditionModel>) -> bool {
    &&& last_odd_create_coin(output) matches Some((_, amount))
    &&& c.info == child_info(nft.info, output)
    &&& recreated_from(nft, c, amount)
}

/// The conditions a standard-layer owner outputs when it spends an NFT with
/// `extra_conditions` and then recreates it at `p2_puzzle_hash` with `amount`, hinted to
/// `p2_puzzle_hash` (its signature condition comes first and is none of the modelled kinds).
pub open spec fn standard_output(extra_conditions: Seq<ConditionModel>, p2_puzzle_hash: [u8; 32], amount: u64) -> Seq<ConditionModel> {
    seq![ConditionModel::Other] + extra_conditions.push(
        ConditionModel::CreateCoin { puzzle_hash: p2_puzzle_hash, amount, hint: Some(p2_puzzle_hash) },
    )
}

/// A transfer condition, by the owner it names and the trade prices it reveals.
pub type TransferModel = (Option<[u8; 32]>, Seq<(u64, Seq<u8>)>);

/// The output of a standard-layer owner that recreates the NFT, optionally followed by the
/// transfer condition `transfer`.
pub open spec fn standard_output_with(
    extra_conditions: Seq<ConditionModel>,
    p2_puzzle_hash: [u8; 32],
    amount: u64,
    transfer: Option<TransferModel>,
) -> Seq<ConditionModel> {
    match transfer {
        Some((launcher_id, trade_prices)) => standard_output(extra_conditions, p2_puzzle_hash, amount).push(
            ConditionModel::TransferNft { launcher_id, trade_prices },
        ),
        None => standard_output(extra_conditions, p2_puzzle_hash, amount),
    }
}

/// The output of a standard-layer owner that recreates the NFT and then reveals a metadata
/// update.
pub open spec fn standard_output_updating(extra_conditions: Seq<ConditionModel>, p2_puzzle_hash: [u8; 32], amount: u64) -> Seq<ConditionModel> {
    standard_output(extra_conditions, p2_puzzle_hash, amount).push(ConditionModel::UpdateNftMetadata)
}

/// With no extra conditions, a standard-layer spend recreates the NFT exactly when its amount
/// is odd, at the given p2 puzzle hash and with the owner the transfer names (or its own
/// without a transfer); revealing a metadata update changes neither.
pub(crate) proof fn lemma_standard_child(
    info: NftInfo,
    extra_conditions: Seq<ConditionModel>,
    p2_puzzle_hash: [u8; 32],
    amount: u64,
    transfer: Option<TransferModel>,
)
    requires
        extra_conditions.len() == 0,
    ensures
        last_odd_create_coin(standard_output_with(extra_conditions, p2_puzzle_hash, amount, transfer)) == if amount % 2 == 1 {
            Some((p2_puzzle_hash, amount))
        } else {
            None
        },
        amount % 2 == 1 ==> child_info(info, standard_output_with(extra_conditions, p2_puzzle_hash, amount, transfer)) == (NftInfo {
            p2_puzzle_hash,
            current_owner: match transfer {
                Some((launcher_id, _)) => launcher_id,
                None => info.current_owner,
            },
            ..info
        }),
        transfer is None ==> last_odd_create_coin(standard_output_updating(extra_conditions, p2_puzzle_hash, amount))
            == last_odd_create_coin(standard_output_with(extra_conditions, p2_puzzle_hash, amount, transfer)),
        transfer is None ==> child_info(info, standard_output_updating(extra_conditions, p2_puzzle_hash, amount))
            == child_info(info, standard_output_with(extra_conditions, p2_puzzle_hash, amount, transfer)),
{
    let create = ConditionModel::CreateCoin { puzzle_hash: p2_puzzle_hash, amount, hint: Some(p2_puzzle_hash) };
    let base = standard_output(extra_conditions, p2_puzzle_hash, amount);
    assert(base =~= seq![ConditionModel::Other, create]);
    assert(base.drop_last() =~= seq![ConditionModel::Other]);
    assert(seq![ConditionModel::Other].drop_last() =~= Seq::<ConditionModel>::empty());
    assert(standard_output_updating(extra_conditions, p2_puzzle_hash, amount).drop_last() =~= base);
    if let Some((launcher_id, trade_prices)) = transfer {
        assert(base.push(ConditionModel::TransferNft { launcher_id, trade_prices }).drop_last() =~= base);
    }
    reveal_with_fuel(last_odd_create_coin, 4);
    reveal_with_fuel(last_transfer, 4);
}

/// Whether `a` and `b` agree on every field but the metadata and its updater.
pub open spec fn same_but_metadata(a: NftInfo, b: NftInfo) -> bool {
    &&& a.launcher_id == b.launcher_id
    &&& a.current_owner == b.current_owner
    &&& a.royalty_puzzle_hash == b.royalty_puzzle_hash
    &&& a.royalty_basis_points == b.royalty_basis_points
    &&& a.p2_puzzle_hash == b.p2_puzzle_hash
}

/// `StandardLayer::new`: the standard owner layer of a public key, which holds that key.
pub assume_specification [StandardLayer::new](synthetic_key: PublicKey) -> (r: StandardLayer)
    ensures
        r.synthetic_key == synthetic_key,
;

/// `Nft::transfer` through the standard layer `owner`: the owner layer outputs its signature
/// condition, `extra_conditions`, and one `CREATE_COIN` of the NFT's amount to
/// `p2_puzzle_hash`; the child is recreated from that output, with the NFT's metadata. An even
/// amount has no child. It fails otherwise only when the owner's key is not valid (its
/// signature condition does not parse back) or a limit is reached.
#[verifier::external_body]
pub(crate) fn nft_transfer(
    ctx: &mut SpendContext,
    owner: &StandardLayer,
    nft: &Nft,
    p2_puzzle_hash: [u8; 32],
    extra_conditions: Conditions,
) -> (r: Result<Nft, DriverError>)
    requires
        nft.in_context(*old(ctx)),
        conditions_in(extra_conditions, *old(ctx)),
        no_metadata_update(condition_items(extra_conditions)),
    ensures
        allocates(*old(ctx), *final(ctx)),
        last_odd_create_coin(standard_output(condition_items(extra_conditions), p2_puzzle_hash, nft@.coin.amount)) is None ==> r is Err,
        r matches Err(e) ==> last_odd_create_coin(standard_output(condition_items(extra_conditions), p2_puzzle_hash, nft@.coin.amount)) is None
            || !public_key_is_valid(owner.synthetic_key) || limit_error(e),
        r matches Ok(c) ==> nft_spent(*old(ctx), *final(ctx), *nft, c, standard_output(condition_items(extra_conditions), p2_puzzle_hash, nft@.coin.amount))
            && c.metadata_node() == nft.metadata_node(),
{
    Ok(nft_from_driver(nft.inner.transfer(ctx, owner, p2_puzzle_hash.into(), extra_conditions)?))
}

/// `Nft::transfer_with_metadata` through the standard layer `owner`: as `nft_transfer`, with the
/// metadata update revealed after the `CREATE_COIN` and the metadata updater run on
/// `metadata_update`. The child has every field of `child_info` but the metadata and its
/// updater, which are what the updater makes of the NFT's metadata. The call fails when the
/// NFT's updater is not the default one or the updater raises, and otherwise only as
/// `nft_transfer` does.
#[verifier::external_body]
pub(crate) fn nft_transfer_with_metadata(
    ctx: &mut SpendContext,
    owner: &StandardLayer,
    nft: &Nft,
    p2_puzzle_hash: [u8; 32],
    metadata_update: UpdaterSpend,
    extra_conditions: Conditions,
) -> (r: Result<Nft, DriverError>)
    requires
        nft.in_context(*old(ctx)),
        conditions_in(extra_conditions, *old(ctx)),
        no_metadata_update(condition_items(extra_conditions)),
        allocated_nodes(*old(ctx)).contains(metadata_update.spend.puzzle),
        allocated_nodes(*old(ctx)).contains(metadata_update.spend.solution),
    ensures
        allocates(*old(ctx), *final(ctx)),
        last_odd_create_coin(standard_output_updating(condition_items(extra_conditions), p2_puzzle_hash, nft@.coin.amount)) is None ==> r is Err,
        r matches Err(e) ==> last_odd_create_coin(standard_output_updating(condition_items(extra_conditions), p2_puzzle_hash, nft@.coin.amount)) is None
            || !public_key_is_valid(owner.synthetic_key)
            || nft@.info.metadata_updater_puzzle_hash != default_metadata_updater_puzzle_hash()
            || metadata_update_result(*old(ctx), nft.metadata_node(), metadata_update.kind, metadata_update.uri@) is None
            || limit_error(e),
        r matches Ok(c) ==> {
            let output = standard_output_updating(condition_items(extra_conditions), p2_puzzle_hash, nft@.coin.amount);
            &&& last_odd_create_coin(output) matches Some((_, amount)) && recreated_from(nft@, c@, amount)
            &&& same_but_metadata(c@.info, child_info(nft@.info, output))
            &&& nft@.info.metadata_updater_puzzle_hash == default_metadata_updater_puzzle_hash()
            &&& metadata_update_result(*old(ctx), nft.metadata_node(), metadata_update.kind, metadata_update.uri@)
                == Some((c@.info.metadata_hash@, c@.info.metadata_updater_puzzle_hash@))
            &&& c.in_context(*final(ctx))
            &&& pending_spends(*final(ctx)) == pending_spends(*old(ctx)).push((nft@.coin, output))
        },
{
    let u = metadata_update.spend;
    Ok(nft_from_driver(nft.inner.transfer_with_metadata(ctx, owner, p2_puzzle_hash.into(), u, extra_conditions)?))
}

/// `Nft::assign_owner` through the standard layer `owner`, with a transfer condition that
/// names `launcher_id` and `singleton_inner_puzzle_hash` and reveals no trade prices: the
/// child is recreated at `p2_puzzle_hash` with the owner `launcher_id` and the NFT's metadata.
/// When an owner is named, the returned conditions are its acknowledgement; otherwise they are
/// empty. It fails only as `nft_transfer` does.
#[verifier::external_body]
pub(crate) fn nft_assign_owner(
    ctx: &mut SpendContext,
    owner: &StandardLayer,
    nft: &Nft,
    p2_puzzle_hash: [u8; 32],
    launcher_id: Option<[u8; 32]>,
    singleton_inner_puzzle_hash: Option<[u8; 32]>,
    extra_conditions: Conditions,
) -> (r: Result<(Conditions, Nft), DriverError>)
    requires
        nft.in_context(*old(ctx)),
        conditions_in(extra_conditions, *old(ctx)),
        no_metadata_update(condition_items(extra_conditions)),
    ensures
        allocates(*old(ctx), *final(ctx)),
        last_odd_create_coin(standard_output_with(condition_items(extra_conditions), p2_puzzle_hash, nft@.coin.amount, Some((launcher_id, Seq::empty())))) is None ==> r is Err,
        r matches Err(e) ==> last_odd_create_coin(standard_output_with(condition_items(extra_conditions), p2_puzzle_hash, nft@.coin.amount,
            Some((launcher_id, Seq::empty())))) is None || !public_key_is_valid(owner.synthetic_key) || limit_error(e),
        r matches Ok((d, c)) ==> {
            &&& nft_spent(*old(ctx), *final(ctx), *nft, c,
                standard_output_with(condition_items(extra_conditions), p2_puzzle_hash, nft@.coin.amount, Some((launcher_id, Seq::empty()))))
            &&& c.metadata_node() == nft.metadata_node()
            &&& launcher_id is Some ==> did_acknowledgement(
                condition_items(d),
                nft@.coin.puzzle_hash,
                nft@.info.launcher_id,
                launcher_id,
                Seq::empty(),
                singleton_inner_puzzle_hash,
            )
            &&& launcher_id is None ==> condition_items(d).len() == 0
        },
{
    let t = SdkTransferNft::new(launcher_id.map(Bytes32::new), Vec::new(), singleton_inner_puzzle_hash.map(Bytes32::new));
    let (d, c) = nft.inner.assign_owner(ctx, owner, p2_puzzle_hash.into(), t, extra_conditions)?;
    Ok((d, nft_from_driver(c)))
}

/// The settlement payments puzzle hash (`SETTLEMENT_PAYMENT_HASH`), the p2 puzzle of an NFT
/// locked into an offer.
pub open spec fn settlement_payment_puzzle_hash() -> [u8; 32] {
    [
        0xcfu8, 0xbf, 0xde, 0xed, 0x5c, 0x4c, 0xa2, 0xde, 0x3d, 0x0b, 0xf5, 0x20, 0xb9, 0xcb, 0x4b, 0xb7,
        0x74, 0x3a, 0x35, 0x9b, 0xd2, 0xe6, 0xa1, 0x88, 0xd1, 0x9c, 0xe7, 0xdf, 0xfc, 0x21, 0xd3, 0xe7,
    ]
}

/// `Nft::lock_settlement` through the standard layer `owner`: the child is recreated in the
/// settlement payments puzzle with no assigned owner and the NFT's metadata; the transfer
/// condition clears the owner and reveals `trade_prices`. It fails only as `nft_transfer` does.
#[verifier::external_body]
pub(crate) fn nft_lock_settlement(
    ctx: &mut SpendContext,
    owner: &StandardLayer,
    nft: &Nft,
    trade_prices: &Vec<TradePrice>,
    extra_conditions: Conditions,
) -> (r: Result<Nft, DriverError>)
    requires
        nft.in_context(*old(ctx)),
        conditions_in(extra_conditions, *old(ctx)),
        no_metadata_update(condition_items(extra_conditions)),
    ensures
        allocates(*old(ctx), *final(ctx)),
        last_odd_create_coin(standard_output_with(condition_items(extra_conditions), settlement_payment_puzzle_hash(), nft@.coin.amount,
            Some((None, prices_view(trade_prices@))))) is None ==> r is Err,
        r matches Err(e) ==> last_odd_create_coin(standard_output_with(condition_items(extra_conditions), settlement_payment_puzzle_hash(),
            nft@.coin.amount, Some((None, prices_view(trade_prices@))))) is None || !public_key_is_valid(owner.synthetic_key) || limit_error(e),
        r matches Ok(c) ==> nft_spent(*old(ctx), *final(ctx), *nft, c,
            standard_output_with(condition_items(extra_conditions), settlement_payment_puzzle_hash(), nft@.coin.amount, Some((None, prices_view(trade_prices@)))))
            && c.metadata_node() == nft.metadata_node(),
{
    let v = trade_prices.iter().map(|p| SdkTradePrice::new(p.amount, p.puzzle_hash.into())).collect();
    Ok(nft_from_driver(nft.inner.lock_settlement(ctx, owner, v, extra_conditions)?))
}

/// The `CREATE_COIN`s of `payments`, in order, the `j`th hinted as `hints[j]`.
pub open spec fn payment_creates(payments: Seq<Payment>, hints: Seq<Option<[u8; 32]>>) -> Seq<ConditionModel> {
    payments.map(|j: int, p: Payment| ConditionModel::CreateCoin { puzzle_hash: p.puzzle_hash, amount: p.amount, hint: hints[j] })
}

/// The conditions the settlement payments puzzle outputs for `notarized_payments`, whose
/// announcements have the messages `announcements` and whose payments' memos give the hints
/// `hints`: for each notarized payment in order, its puzzle announcement and then one
/// `CREATE_COIN` per payment.
pub open spec fn settlement_output(
    notarized_payments: Seq<NotarizedPayment>,
    announcements: Seq<[u8; 32]>,
    hints: Seq<Seq<Option<[u8; 32]>>>,
) -> Seq<ConditionModel>
    decreases notarized_payments.len(),
{
    if notarized_payments.len() == 0 {
        Seq::empty()
    } else {
        settlement_output(notarized_payments.drop_last(), announcements.drop_last(), hints.drop_last())
            + seq![ConditionModel::CreatePuzzleAnnouncement { message: announcements.last() }]
            + payment_creates(notarized_payments.last().payments@, hints.last())
    }
}

/// Whether `hints` give one hint per payment of `notarized_payments`, none for a payment
/// without memos.
pub open spec fn hints_fit(notarized_payments: Seq<NotarizedPayment>, hints: Seq<Seq<Option<[u8; 32]>>>) -> bool {
    &&& hints.len() == notarized_payments.len()
    &&& forall|i: int| 0 <= i < hints.len() ==> (#[trigger] hints[i]).len() == notarized_payments[i].payments@.len()
    &&& forall|i: int, j: int|
        0 <= i < hints.len() && 0 <= j < hints[i].len() && (#[trigger] notarized_payments[i].payments@[j]).memos is None
            ==> hints[i][j] is None
}

/// The puzzle hash and amount of the last odd-amount payment of `payments`, if any.
pub open spec fn last_odd_in(payments: Seq<Payment>) -> Option<([u8; 32], u64)>
    decreases payments.len(),
{
    if payments.len() == 0 {
        None
    } else if payments.last().amount % 2 == 1 {
        Some((payments.last().puzzle_hash, payments.last().amount))
    } else {
        last_odd_in(payments.drop_last())
    }
}

/// The puzzle hash and amount of the last odd-amount payment of `notarized_payments`, in order,
/// if any: where a settlement spend recreates the NFT.
pub open spec fn last_odd_payment(notarized_payments: Seq<NotarizedPayment>) -> Option<([u8; 32], u64)>
    decreases notarized_payments.len(),
{
    if notarized_payments.len() == 0 {
        None
    } else {
        match last_odd_in(notarized_payments.last().payments@) {
            Some(found) => Some(found),
            None => last_odd_payment(notarized_payments.drop_last()),
        }
    }
}

/// Whether some payment of `notarized_payments` has the amount 0.
pub open spec fn pays_zero(notarized_payments: Seq<NotarizedPayment>) -> bool {
    exists|i: int, j: int|
        0 <= i < notarized_payments.len() && 0 <= j < notarized_payments[i].payments@.len()
            && #[trigger] notarized_payments[i].payments@[j].amount == 0
}

/// Whether every memo node of `notarized_payments` is held by `ctx`.
pub open spec fn payments_in(notarized_payments: Seq<NotarizedPayment>, ctx: SpendContext) -> bool {
    forall|i: int, j: int|
        0 <= i < notarized_payments.len() && 0 <= j < notarized_payments[i].payments@.len()
            ==> memo_nodes(#[trigger] notarized_payments[i].payments@[j].memos).subset_of(allocated_nodes(ctx))
}

/// `Nft::unlock_settlement`: spends a settlement-locked NFT with the taker's notarized
/// payments as the settlement puzzle's solution; the child is recreated from that puzzle's
/// output (the hints of the payments' memos are not stated), with the NFT's metadata. The
/// puzzle raises on a payment of 0; the call fails otherwise only when there is no odd-amount
/// payment or a limit is reached.
#[verifier::external_body]
pub(crate) fn nft_unlock_settlement(
    ctx: &mut SpendContext,
    nft: &Nft,
    notarized_payments: &Vec<NotarizedPayment>,
) -> (r: Result<Nft, DriverError>)
    requires
        nft.in_context(*old(ctx)),
        payments_in(notarized_payments@, *old(ctx)),
    ensures
        allocates(*old(ctx), *final(ctx)),
        last_odd_payment(notarized_payments@) is None ==> r is Err,
        pays_zero(notarized_payments@) ==> r is Err,
        r matches Err(e) ==> last_odd_payment(notarized_payments@) is None || pays_zero(notarized_payments@) || limit_error(e),
        r matches Ok(c) ==> settlement_announcements(*old(ctx), notarized_payments@).len() == notarized_payments@.len()
            && c.metadata_node() == nft.metadata_node()
            && exists|hints: Seq<Seq<Option<[u8; 32]>>>| hints_fit(notarized_payments@, hints) && nft_spent(*old(ctx), *final(ctx), *nft, c,
                #[trigger] settlement_output(notarized_payments@, settlement_announcements(*old(ctx), notarized_payments@), hints)),
{
    let v = notarized_payments.iter().map(|n| SdkNotarizedPayment::new(n.nonce.into(), n.payments.iter().map(|p| SdkPayment::new(
        p.puzzle_hash.into(), p.amount, match p.memos { Some(m) => Memos::Some(m), None => Memos::None })).collect())).collect();
    Ok(nft_from_driver(nft.inner.unlock_settlement(ctx, v)?))
}

/// The views of an optional NFT.
pub open spec fn opt_view(nft: Option<Nft>) -> Option<NftView> {
    match nft {
        Some(n) => Some(n@),
        None => None,
    }
}

/// What `Nft::parse` makes of a spend of `coin` whose puzzle and solution have the tree hashes
/// `puzzle_hash` and `solution_hash` (a tree hash identifies a tree: sha256 is taken to be free
/// of collisions): `Some(Some(nft))` for an NFT, `Some(None)` when the puzzle is not an NFT, and
/// `None` when parsing fails.
pub uninterp spec fn nft_parse_result(coin: Coin, puzzle_hash: Seq<u8>, solution_hash: Seq<u8>) -> Option<Option<NftView>>;

/// What `Nft::parse_child` makes of a spend of `parent_coin` whose puzzle and solution have the
/// tree hashes `puzzle_hash` and `solution_hash`: `Some(Some(child))` for the NFT child of an
/// NFT spend (its owner and metadata as the spend's transfer and metadata update make them),
/// `Some(None)` when the puzzle is not an NFT, and `None` when the spend does not parse or run.
pub uninterp spec fn nft_child_result(parent_coin: Coin, puzzle_hash: Seq<u8>, solution_hash: Seq<u8>) -> Option<Option<NftView>>;

/// `Nft::parse_child`: the NFT child of the spend of `parent_coin` with the given puzzle and
/// solution, or `None` when the puzzle is not an NFT; it adds no coin spend. A child is a coin
/// created by the parent, held in the context; the parent is then an NFT whose launcher and
/// royalty the child keeps. The call fails otherwise only when a limit is reached.
#[verifier::external_body]
pub(crate) fn nft_parse_child(
    ctx: &mut SpendContext,
    parent_coin: &Coin,
    parent_puzzle: ParsedPuzzle,
    parent_solution: NodePtr,
) -> (r: Result<Option<Nft>, DriverError>)
    requires
        allocated_nodes(*old(ctx)).contains(parent_puzzle.node),
        allocated_nodes(*old(ctx)).contains(parent_solution),
    ensures
        only_allocates(*old(ctx), *final(ctx)),
        r matches Ok(o) ==> nft_child_result(*parent_coin, node_tree_hash(*old(ctx), parent_puzzle.node),
            node_tree_hash(*old(ctx), parent_solution)) == Some(opt_view(o)),
        r matches Err(e) ==> nft_child_result(*parent_coin, node_tree_hash(*old(ctx), parent_puzzle.node),
            node_tree_hash(*old(ctx), parent_solution)) is None || limit_error(e),
        r matches Ok(None) ==> nft_parse_result(*parent_coin, node_tree_hash(*old(ctx), parent_puzzle.node),
            node_tree_hash(*old(ctx), parent_solution)) == Some(None::<NftView>),
        r matches Ok(Some(c)) ==> {
            &&& c@.coin.parent_coin_info@ == coin_id_view(*parent_coin)
            &&& c.in_context(*final(ctx))
            &&& nft_parse_result(*parent_coin, node_tree_hash(*old(ctx), parent_puzzle.node), node_tree_hash(*old(ctx), parent_solution))
                matches Some(Some(parent))
            &&& c@.info.launcher_id == parent.info.launcher_id
            &&& c@.info.royalty_puzzle_hash == parent.info.royalty_puzzle_hash
            &&& c@.info.royalty_basis_points == parent.info.royalty_basis_points
        },
{
    let coin = ChiaCoin::new(parent_coin.parent_coin_info.into(), parent_coin.puzzle_hash.into(), parent_coin.amount);
    Ok(SdkNft::parse_child(ctx, coin, parent_puzzle.puzzle, parent_solution)?.map(nft_from_driver))
}

/// `Nft::parse`: the NFT that `coin` is, given its puzzle and solution, or `None` when the
/// puzzle is not an NFT. The parsed NFT's coin is `coin`, and it is held in the context. It
/// only reads the context, so it fails only when the spend of an NFT puzzle does not parse.
#[verifier::external_body]
pub(crate) fn nft_parse(
    ctx: &SpendContext,
    coin: &Coin,
    puzzle: ParsedPuzzle,
    solution: NodePtr,
) -> (r: Result<Option<Nft>, DriverError>)
    requires
        allocated_nodes(*ctx).contains(puzzle.node),
        allocated_nodes(*ctx).contains(solution),
    ensures
        r matches Ok(o) ==> nft_parse_result(*coin, node_tree_hash(*ctx, puzzle.node), node_tree_hash(*ctx, solution)) == Some(opt_view(o)),
        r is Err ==> nft_parse_result(*coin, node_tree_hash(*ctx, puzzle.node), node_tree_hash(*ctx, solution)) is None,
        r matches Ok(Some(c)) ==> c@.coin == *coin && c.in_context(*ctx),
{
    let chia_coin = ChiaCoin::new(coin.parent_coin_info.into(), coin.puzzle_hash.into(), coin.amount);
    Ok(SdkNft::parse(ctx, chia_coin, puzzle.puzzle, solution)?.map(|(c, _, _)| nft_from_driver(c)))
}

/// The bech32m encoding of `data` under the human-readable prefix `prefix`
/// (`Address::encode`).
pub uninterp spec fn bech32m_encoding(data: Seq<u8>, prefix: Seq<char>) -> Seq<char>;

/// The 32-byte payload and lowercase prefix that `Address::decode` reads from `address`, or
/// `None` when it fails (not bech32m, bad checksum or characters, or not 32 bytes).
pub uninterp spec fn bech32m_decoding(address: Seq<char>) -> Option<(Seq<u8>, Seq<char>)>;

/// A human-readable prefix that bech32 encodes and decodes unchanged: 1 to 83 characters, each
/// a lowercase ASCII letter or a digit.
pub open spec fn plain_prefix(prefix: Seq<char>) -> bool {
    &&& 1 <= prefix.len() <= 83
    &&& forall|i: int| 0 <= i < prefix.len() ==> ('a' <= #[trigger] prefix[i] <= 'z' || '0' <= prefix[i] <= '9')
}

/// `Address::encode`: the result is the named encoding; a plain prefix always encodes.
#[verifier::external_body]
pub(crate) fn address_encode(puzzle_hash: [u8; 32], prefix: String) -> (r: Result<String, Bech32Error>)
    ensures
        r matches Ok(s) ==> s@ == bech32m_encoding(puzzle_hash@, prefix@),
        plain_prefix(prefix@) ==> r is Ok,
{
    Address::new(puzzle_hash.into(), prefix).encode()
}

/// Whether a decoding result holds the payload `h` and prefix `p`.
pub open spec fn decoded_as(r: Result<([u8; 32], String), Bech32Error>, h: Seq<u8>, p: Seq<char>) -> bool {
    r matches Ok((d, q)) && d@ == h && q@ == p
}

/// `Address::decode`: the result is the named decoding. Decoding gives back what encoding a
/// 32-byte payload under a plain prefix wrote (the bech32m round trip).
#[verifier::external_body]
pub(crate) fn address_decode(address: &str) -> (r: Result<([u8; 32], String), Bech32Error>)
    ensures
        r matches Ok((h, p)) ==> bech32m_decoding(address@) == Some((h@, p@)),
        r is Err ==> bech32m_decoding(address@) is None,
        forall|h: Seq<u8>, p: Seq<char>| h.len() == 32 && plain_prefix(p) && address@ == #[trigger] bech32m_encoding(h, p) ==> decoded_as(r, h, p),
{
    let a = Address::decode(address)?;
    Ok((a.puzzle_hash.into(), a.prefix))
}

/// The signatures `RequiredSignature::from_coin_spends` reports for `coin_spends` under the
/// signing constants of the network whose `AGG_SIG_ME` additional data is `agg_sig_me`, or
/// `None` when it fails (it runs each spend's puzzle in a fresh allocator).
pub uninterp spec fn required_signatures_for(coin_spends: Seq<CoinSpend>, agg_sig_me: Seq<u8>) -> Option<Seq<RequiredSignature>>;

/// `RequiredSignature::from_coin_spends` under the signing constants of the network whose
/// `AGG_SIG_ME` additional data is `agg_sig_me`: the result is the named one. The signatures of
/// the coin spends are concatenated, so no coin spends require none.
#[verifier::external_body]
pub(crate) fn required_signatures_of(
    coin_spends: &[CoinSpend],
    agg_sig_me: [u8; 32],
) -> (r: Result<Vec<RequiredSignature>, SignerError>)
    ensures
        r matches Ok(v) ==> required_signatures_for(coin_spends@, agg_sig_me@) == Some(v@),
        r is Err ==> required_signatures_for(coin_spends@, agg_sig_me@) is None,
        r matches Ok(v) ==> coin_spends@.len() == 0 ==> v@.len() == 0,
        coin_spends@.len() == 0 ==> r is Ok,
{
    RequiredSignature::from_coin_spends(&mut Allocator::new(), coin_spends, &AggSigConstants::new(agg_sig_me.into()))
}

} // verus!
