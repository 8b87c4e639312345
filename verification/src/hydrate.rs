//! Reconstruct a spendable NFT from an already-fetched coin spend.
//!
//! The caller fetches the parent coin's puzzle reveal and solution (from a node or indexer)
//! and passes the serialized programs here. [`parse_child`] walks a parent spend to the NFT
//! child it created; [`parse`] decodes an NFT directly from its own coin spend. Both
//! reconstruct into the caller-provided `SpendContext`, so the returned NFT is spendable in a
//! spend built in that same context.

use vstd::prelude::*;

use chia_protocol::Program;
use chia_wallet_sdk::driver::SpendContext;

use crate::error::{driver_result, Error};
use crate::sdk::{
    alloc_program, coin_id, coin_id_of, limit_error, nft_child_result, nft_parse, nft_parse_child, nft_parse_result,
    only_allocates, parse_puzzle, program_deserializes, program_tree_hash,
};
use crate::types::{Coin, Nft, NftView};

verus! {

broadcast use crate::sdk::lemma_allocates_transitive;

/// A reconstructed NFT plus the flattened on-chain fields a caller commonly reads, so it can
/// display or index the NFT without re-parsing.
#[derive(Clone, Copy, Debug)]
pub struct ParsedNft {
    /// The spendable NFT.
    pub nft: Nft,
    /// The launcher coin id: the NFT's stable identity (its `nft1…` id encodes this).
    pub launcher_id: [u8; 32],
    /// The current coin id of the unspent NFT singleton.
    pub coin_id: [u8; 32],
    /// The assigned owner DID launcher id, if the NFT is attributed to one.
    pub owner_did: Option<[u8; 32]>,
    /// The puzzle hash royalties are paid to on offer trades.
    pub royalty_puzzle_hash: [u8; 32],
    /// Royalty as hundredths of a percent (300 = 3%).
    pub royalty_basis_points: u16,
    /// The current p2 (owner) puzzle hash: where the NFT lives.
    pub p2_puzzle_hash: [u8; 32],
}

impl ParsedNft {
    /// Whether the flattened fields are those of `self.nft`.
    pub open spec fn flattens(self) -> bool {
        let (coin, info) = (self.nft@.coin, self.nft@.info);
        &&& self.launcher_id == info.launcher_id
        &&& self.coin_id@ == coin_id_of(coin.parent_coin_info@, coin.puzzle_hash@, coin.amount)
        &&& self.owner_did == info.current_owner
        &&& self.royalty_puzzle_hash == info.royalty_puzzle_hash
        &&& self.royalty_basis_points == info.royalty_basis_points
        &&& self.p2_puzzle_hash == info.p2_puzzle_hash
    }

    fn from_nft(nft: Nft) -> (r: ParsedNft)
        ensures
            r.nft == nft,
            r.flattens(),
    {
        let info = nft.info();
        ParsedNft {
            launcher_id: info.launcher_id,
            coin_id: coin_id(&nft.coin()),
            owner_did: info.current_owner,
            royalty_puzzle_hash: info.royalty_puzzle_hash,
            royalty_basis_points: info.royalty_basis_points,
            p2_puzzle_hash: info.p2_puzzle_hash,
            nft,
        }
    }
}

/// The view of the NFT of an optional parse result.
pub open spec fn parsed_view(parsed: Option<ParsedNft>) -> Option<NftView> {
    match parsed {
        Some(p) => Some(p.nft@),
        None => None,
    }
}

/// Reconstruct the NFT child created by spending `parent_coin`, given that parent's serialized
/// puzzle reveal and solution.
///
/// Returns `Ok(None)` when the parent spend did not produce an NFT (its puzzle is not an NFT).
/// Parsing only allocates into `ctx`: it adds no coin spend, and the NFT is spendable there.
/// The reconstruction runs the transfer program / metadata updater revealed in the parent
/// spend, so the returned NFT carries its correct owner and metadata: the driver's child of
/// the parent spend (`nft_child_result`), which keeps the parent's launcher and royalty. It
/// fails only when a program does not deserialize, the spend does not parse or run, or a limit
/// is reached.
pub fn parse_child(
    ctx: &mut SpendContext,
    parent_coin: Coin,
    parent_puzzle_reveal: &Program,
    parent_solution: &Program,
) -> (r: Result<Option<ParsedNft>, Error>)
    ensures
        only_allocates(*old(ctx), *final(ctx)),
        r matches Err(e) ==> e is Driver,
        r matches Ok(o) ==> nft_child_result(
            parent_coin,
            program_tree_hash(*parent_puzzle_reveal),
            program_tree_hash(*parent_solution),
        ) == Some(parsed_view(o)),
        r matches Err(Error::Driver(e)) ==> !program_deserializes(*parent_puzzle_reveal) || !program_deserializes(*parent_solution)
            || nft_child_result(parent_coin, program_tree_hash(*parent_puzzle_reveal), program_tree_hash(*parent_solution)) is None
            || limit_error(e),
        r matches Ok(None) ==> nft_parse_result(parent_coin, program_tree_hash(*parent_puzzle_reveal), program_tree_hash(*parent_solution))
            == Some(None::<NftView>),
        r matches Ok(Some(p)) ==> {
            &&& p.flattens()
            &&& p.nft.in_context(*final(ctx))
            &&& nft_parse_result(parent_coin, program_tree_hash(*parent_puzzle_reveal), program_tree_hash(*parent_solution))
                matches Some(Some(parent))
            &&& p.launcher_id == parent.info.launcher_id
            &&& p.royalty_puzzle_hash == parent.info.royalty_puzzle_hash
            &&& p.royalty_basis_points == parent.info.royalty_basis_points
            &&& p.nft@.coin.parent_coin_info@ == coin_id_of(
                parent_coin.parent_coin_info@,
                parent_coin.puzzle_hash@,
                parent_coin.amount,
            )
        },
{
    let puzzle_ptr = driver_result(alloc_program(ctx, parent_puzzle_reveal))?;
    let puzzle = parse_puzzle(ctx, puzzle_ptr);
    let solution = driver_result(alloc_program(ctx, parent_solution))?;
    let child = driver_result(nft_parse_child(ctx, &parent_coin, puzzle, solution))?;
    match child {
        Some(nft) => Ok(Some(ParsedNft::from_nft(nft))),
        None => Ok(None),
    }
}

/// Decode an NFT directly from its own coin spend (its coin, serialized puzzle reveal, and
/// solution). Returns `Ok(None)` when the puzzle is not an NFT. Parsing only allocates into
/// `ctx`: it adds no coin spend, and the NFT is spendable there. What it returns is the
/// driver's parse of the spend (`nft_parse_result`); it fails only when a program does not
/// deserialize, the spend of an NFT puzzle does not parse, or a limit is reached.
pub fn parse(ctx: &mut SpendContext, coin: Coin, puzzle_reveal: &Program, solution: &Program) -> (r: Result<Option<ParsedNft>, Error>)
    ensures
        only_allocates(*old(ctx), *final(ctx)),
        r matches Err(e) ==> e is Driver,
        r matches Ok(o) ==> nft_parse_result(coin, program_tree_hash(*puzzle_reveal), program_tree_hash(*solution)) == Some(parsed_view(o)),
        r matches Err(Error::Driver(e)) ==> !program_deserializes(*puzzle_reveal) || !program_deserializes(*solution)
            || nft_parse_result(coin, program_tree_hash(*puzzle_reveal), program_tree_hash(*solution)) is None || limit_error(e),
        r matches Ok(Some(p)) ==> p.flattens() && p.nft@.coin == coin && p.nft.in_context(*final(ctx)),
{
    let puzzle_ptr = driver_result(alloc_program(ctx, puzzle_reveal))?;
    let puzzle = parse_puzzle(ctx, puzzle_ptr);
    let solution = driver_result(alloc_program(ctx, solution))?;
    let parsed = driver_result(nft_parse(ctx, &coin, puzzle, solution))?;
    match parsed {
        Some(nft) => Ok(Some(ParsedNft::from_nft(nft))),
        None => Ok(None),
    }
}

} // verus!
