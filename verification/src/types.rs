//! The value types every builder speaks in.
//!
//! These types are key-free: an [`Owner`] carries a public key, never a secret; a [`DidRef`]
//! references a DID singleton purely by its on-chain hashes. A builder consumes these, appends
//! coin spends to a caller-owned `SpendContext`, and returns an [`NftSpend`]: the built spends,
//! the resulting child NFT(s), and the exact conditions an external DID singleton must emit.
//!
//! Hashes are plain `[u8; 32]` values so that contracts can speak of them directly.

use vstd::prelude::*;

use chia_protocol::{CoinSpend, Program};
use clvmr::NodePtr;
use chia_wallet_sdk::driver::{NftInfo as SdkNftInfo, SpendContext, Singleton, StandardLayer};
use chia_wallet_sdk::prelude::PublicKey;
use chia_wallet_sdk::types::Conditions;

use crate::sdk::{allocated_nodes, public_key_is_valid, HashedNode};

verus! {

/// A coin, by its three defining fields.
#[derive(Clone, Copy, Debug)]
pub struct Coin {
    /// The id of the coin that created this one.
    pub parent_coin_info: [u8; 32],
    /// The hash of the puzzle that locks this coin.
    pub puzzle_hash: [u8; 32],
    /// The value of the coin in mojos.
    pub amount: u64,
}

impl Coin {
    /// Construct a coin from its parent id, puzzle hash and amount.
    pub fn new(parent_coin_info: [u8; 32], puzzle_hash: [u8; 32], amount: u64) -> (r: Coin)
        ensures
            r == (Coin { parent_coin_info, puzzle_hash, amount }),
    {
        Coin { parent_coin_info, puzzle_hash, amount }
    }
}

/// The on-chain fields of an NFT that the builders read and change: its identity, its
/// assigned owner, its royalty, and the p2 puzzle hash that holds it.
#[derive(Clone, Copy, Debug)]
pub struct NftInfo {
    /// The coin id of the launcher that created this NFT's singleton (its stable identity).
    pub launcher_id: [u8; 32],
    /// The tree hash of the NFT's on-chain metadata.
    pub metadata_hash: [u8; 32],
    /// The puzzle hash of the metadata updater.
    pub metadata_updater_puzzle_hash: [u8; 32],
    /// The launcher id of the assigned owner singleton (a DID), if any.
    pub current_owner: Option<[u8; 32]>,
    /// The puzzle hash royalties are paid to on offer trades.
    pub royalty_puzzle_hash: [u8; 32],
    /// Royalty as hundredths of a percent (300 = 3%).
    pub royalty_basis_points: u16,
    /// The p2 (owner) puzzle hash: where the NFT lives.
    pub p2_puzzle_hash: [u8; 32],
}

/// The abstract state of an [`Nft`]: its coin and its on-chain fields.
pub struct NftView {
    pub coin: Coin,
    pub info: NftInfo,
}

/// A spendable NFT singleton.
///
/// It holds the driver's NFT (coin, lineage proof, and full puzzle info, including the
/// metadata, which lives in the `SpendContext` it was built or parsed in) together with the
/// plain coin and info that contracts speak of. Values of this type are only produced by the
/// builders and parsers of this crate, which fill both parts from the same driver value. An NFT
/// can only be spent in the `SpendContext` it was built or parsed in (`in_context`).
#[derive(Clone, Copy, Debug)]
pub struct Nft {
    pub(crate) inner: Singleton<SdkNftInfo>,
    pub(crate) metadata_node: NodePtr,
    pub(crate) coin: Coin,
    pub(crate) info: NftInfo,
}

impl View for Nft {
    type V = NftView;

    closed spec fn view(&self) -> NftView {
        NftView { coin: self.coin, info: self.info }
    }
}

impl Nft {
    /// The driver's representation of this NFT.
    pub closed spec fn driver(&self) -> Singleton<SdkNftInfo> {
        self.inner
    }

    /// The allocator node of this NFT's metadata.
    pub closed spec fn metadata_node(&self) -> NodePtr {
        self.metadata_node
    }

    /// Whether this NFT can be spent in `ctx`: its metadata node is one `ctx` holds, as it is
    /// when the NFT was built or parsed in `ctx`.
    pub open spec fn in_context(&self, ctx: SpendContext) -> bool {
        allocated_nodes(ctx).contains(self.metadata_node())
    }
}

impl Nft {
    /// The NFT's current coin.
    pub fn coin(&self) -> (r: Coin)
        ensures
            r == self@.coin,
    {
        self.coin
    }

    /// The NFT's on-chain fields.
    pub fn info(&self) -> (r: NftInfo)
        ensures
            r == self@.info,
    {
        self.info
    }

    /// The driver's representation of this NFT (coin, lineage proof, full puzzle info).
    pub fn driver_nft(&self) -> (r: &Singleton<SdkNftInfo>)
        ensures
            *r == self.driver(),
    {
        &self.inner
    }
}

/// A reference to an owner DID singleton, by hash only.
///
/// The crate never constructs, spends, or holds a DID coin or key. To attribute an NFT to a
/// DID it needs only the DID's stable `launcher_id` and the `inner_puzzle_hash` of the DID's
/// current (unspent) coin.
#[derive(Clone, Copy, Debug)]
pub struct DidRef {
    /// The DID singleton's launcher id: its stable on-chain identity.
    pub launcher_id: [u8; 32],
    /// The inner puzzle hash of the DID's current unspent coin.
    pub inner_puzzle_hash: [u8; 32],
}

/// A trade price revealed when an NFT is locked into an offer.
#[derive(Clone, Copy, Debug)]
pub struct TradePrice {
    /// The amount paid.
    pub amount: u64,
    /// The puzzle hash of the asset paid with (the CAT tail hash, or zero for XCH).
    pub puzzle_hash: [u8; 32],
}

/// A payment an offer's taker makes: `amount` mojos to `puzzle_hash`, with memos.
#[derive(Clone, Copy, Debug)]
pub struct Payment {
    /// The puzzle hash paid to.
    pub puzzle_hash: [u8; 32],
    /// The amount paid.
    pub amount: u64,
    /// The node of the created coin's memo list (e.g. a hint of `puzzle_hash`), allocated in
    /// the context the payment is spent in; `None` for no memos.
    pub memos: Option<NodePtr>,
}

/// A list of payments notarized by a nonce, as an offer's settlement spend receives them.
#[derive(Clone, Debug)]
pub struct NotarizedPayment {
    /// The nonce that ties the payments to one offer.
    pub nonce: [u8; 32],
    /// The payments, in order.
    pub payments: Vec<Payment>,
}

/// The ownership-layer transfer condition: assign an owner singleton (or none), revealing
/// trade prices.
#[derive(Clone, Debug)]
pub struct TransferNft {
    /// The launcher id of the new owner singleton; `None` clears the owner.
    pub launcher_id: Option<[u8; 32]>,
    /// The trade prices revealed by an offer.
    pub trade_prices: Vec<TradePrice>,
    /// The inner puzzle hash of the new owner singleton's current coin.
    pub singleton_inner_puzzle_hash: Option<[u8; 32]>,
}

impl DidRef {
    /// Construct a [`DidRef`] from a launcher id and the DID's current inner puzzle hash.
    pub fn new(launcher_id: [u8; 32], inner_puzzle_hash: [u8; 32]) -> (r: DidRef)
        ensures
            r == (DidRef { launcher_id, inner_puzzle_hash }),
    {
        DidRef { launcher_id, inner_puzzle_hash }
    }

    /// The transfer condition that assigns an NFT to this DID.
    pub(crate) fn transfer_condition(&self) -> (r: TransferNft)
        ensures
            r.launcher_id == Some(self.launcher_id),
            r.trade_prices@.len() == 0,
            r.singleton_inner_puzzle_hash == Some(self.inner_puzzle_hash),
    {
        TransferNft {
            launcher_id: Some(self.launcher_id),
            trade_prices: Vec::new(),
            singleton_inner_puzzle_hash: Some(self.inner_puzzle_hash),
        }
    }
}

/// The p2 (owner) layer that authorizes an NFT inner spend, expressed without any secret:
/// the standard `p2_delegated_puzzle_or_hidden_puzzle` layer identified by its public key.
pub enum Owner {
    /// A standard-layer owner identified by its BLS public key.
    Standard(PublicKey),
}

impl Owner {
    /// The public key that authorizes this owner's spends.
    pub open spec fn public_key(self) -> PublicKey {
        match self {
            Owner::Standard(public_key) => public_key,
        }
    }

    /// Whether this owner's public key is valid (a point of the G1 subgroup): only then does
    /// the signature condition of its spends parse back.
    pub open spec fn has_valid_key(self) -> bool {
        public_key_is_valid(self.public_key())
    }

    /// The standard owner layer of this owner.
    pub(crate) fn layer(&self) -> (r: StandardLayer)
        ensures
            r.synthetic_key == self.public_key(),
    {
        match self {
            Owner::Standard(public_key) => StandardLayer::new(*public_key),
        }
    }
}

/// Which URI list of an NFT's metadata an update adds to.
#[derive(Clone, Copy, Debug, PartialEq, Eq)]
pub enum UriKind {
    /// The data URIs (`u`).
    Data,
    /// The metadata URIs (`mu`).
    Metadata,
    /// The license URIs (`lu`).
    License,
}

/// An append-only metadata update: prepend `uri` to the URI list `kind` names.
#[derive(Clone, Debug)]
pub struct MetadataUpdate {
    /// The URI list to add to.
    pub kind: UriKind,
    /// The URI to prepend.
    pub uri: String,
}

/// A specification for minting one NFT: its on-chain metadata, the owner it is created for,
/// its royalty, and an optional owner-DID attribution.
///
/// `metadata` is the serialized CLVM of the NFT's on-chain metadata, allocated into the build
/// context at spend time.
#[derive(Clone, Debug)]
pub struct MintSpec {
    /// The serialized on-chain NFT metadata program (URIs + hashes).
    pub metadata: Program,
    /// The p2 (owner) puzzle hash the minted NFT is created for.
    pub owner_puzzle_hash: [u8; 32],
    /// Royalty as hundredths of a percent (300 = 3%); 0 for no royalty. Royalties are paid
    /// on offer trades to `owner_puzzle_hash`.
    pub royalty_basis_points: u16,
    /// Optional owner-DID attribution.
    pub owner_did: Option<DidRef>,
}

impl MintSpec {
    /// A minimal spec: metadata + owner, no royalty, no DID.
    pub fn new(metadata: Program, owner_puzzle_hash: [u8; 32]) -> (r: MintSpec)
        ensures
            r.metadata == metadata,
            r.owner_puzzle_hash == owner_puzzle_hash,
            r.royalty_basis_points == 0,
            r.owner_did.is_none(),
    {
        MintSpec { metadata, owner_puzzle_hash, royalty_basis_points: 0, owner_did: None }
    }

    /// Set the royalty (basis points) paid to the owner on offer trades.
    pub fn with_royalty(self, royalty_basis_points: u16) -> (r: MintSpec)
        ensures
            r.metadata == self.metadata,
            r.owner_puzzle_hash == self.owner_puzzle_hash,
            r.royalty_basis_points == royalty_basis_points,
            r.owner_did == self.owner_did,
    {
        let mut s = self;
        s.royalty_basis_points = royalty_basis_points;
        s
    }

    /// Attribute the minted NFT to an owner DID.
    pub fn with_owner_did(self, owner_did: DidRef) -> (r: MintSpec)
        ensures
            r.metadata == self.metadata,
            r.owner_puzzle_hash == self.owner_puzzle_hash,
            r.royalty_basis_points == self.royalty_basis_points,
            r.owner_did == Some(owner_did),
    {
        let mut s = self;
        s.owner_did = Some(owner_did);
        s
    }
}

/// The fields one NFT is minted with: its metadata (allocated in the build context), its
/// metadata updater, its royalty, its owner, and the optional transfer condition that assigns
/// it to an owner DID.
pub struct NftMint {
    pub metadata: HashedNode,
    pub metadata_updater_puzzle_hash: [u8; 32],
    pub royalty_puzzle_hash: [u8; 32],
    pub royalty_basis_points: u16,
    pub p2_puzzle_hash: [u8; 32],
    pub transfer_condition: Option<TransferNft>,
}

/// The result of a builder: the unsigned coin spends it produced, the resulting child NFT(s),
/// and the conditions an external owner DID must emit in the same bundle (empty when the
/// operation involves no DID).
pub struct NftSpend {
    /// The unsigned coin spends this operation produced.
    pub coin_spends: Vec<CoinSpend>,
    /// The resulting child NFT(s), in order.
    pub children: Vec<Nft>,
    /// The conditions the external owner-DID singleton must emit in the same bundle.
    pub did_conditions: Conditions,
}

impl NftSpend {
    /// The single resulting child NFT (for operations that produce exactly one).
    pub fn child(&self) -> (r: &Nft)
        requires
            self.children@.len() == 1,
        ensures
            *r == self.children@[0],
    {
        &self.children[0]
    }
}

} // verus!
