//! # dig-nft: a builder of Chia NFT1 coin spends
//!
//! A pure, key-free, network-free builder of coin spends for Chia NFT1 singletons. It
//! constructs the coin spends for every NFT lifecycle operation (mint, single or bulk,
//! standalone or DID-owned; transfer, with or without a metadata update; metadata/URI update;
//! offer settlement lock and unlock; owner-DID assign and unassign; lineage reconstruction)
//! and reports the signatures a caller must produce.
//!
//! ## The custody model
//!
//! The crate never holds a secret key, never signs, and never touches the network. Every
//! builder takes only public inputs (an [`Owner`] carrying a public key, a [`DidRef`]
//! referencing a DID by hash) and appends unsigned coin spends to a caller-owned
//! [`SpendContext`]. The consumer signs the messages reported by [`required_signatures`],
//! assembles the spend bundle, and broadcasts.
//!
//! ## The identity boundary
//!
//! An owner DID is referenced purely by [`DidRef`] (two hashes): the crate never constructs,
//! spends, or holds a DID coin or key. For a DID-owned operation it builds only the NFT-side
//! spend and returns, in [`NftSpend::did_conditions`], the exact conditions the external DID
//! singleton must emit in the same bundle.

use vstd::prelude::*;

pub mod edition;
pub mod error;
pub mod hydrate;
pub mod metadata;
pub mod mint;
pub mod nft_id;
pub mod owner;
pub mod royalty;
pub mod sdk;
pub mod sign;
pub mod transfer;
pub mod types;

pub use error::Error;
pub use hydrate::{parse, parse_child, ParsedNft};
pub use metadata::update_metadata;
pub use mint::{bulk_mint, mint};
pub use nft_id::{decode_nft_id, encode_nft_id};
pub use owner::{assign_owner, unassign_owner};
pub use royalty::{lock_settlement, unlock_settlement};
pub use sign::required_signatures;
pub use transfer::{transfer, transfer_with_metadata};
pub use types::{
    Coin, DidRef, MetadataUpdate, MintSpec, Nft, NftInfo, NftSpend, NftView, NotarizedPayment, Owner, Payment, TradePrice,
    TransferNft, UriKind,
};

pub use chia_wallet_sdk::driver::SpendContext;
pub use chia_wallet_sdk::signer::RequiredSignature;

verus! {

/// The crate's semantic version, surfaced so a consumer can record which builder version
/// produced a spend.
pub fn version() -> (v: &'static str)
    ensures
        v@ == "0.1.0"@,
        v@.len() > 0,
{
    proof {
        reveal_strlit("0.1.0");
    }
    "0.1.0"
}

} // verus!
