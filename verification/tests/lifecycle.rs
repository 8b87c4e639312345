//! End-to-end lifecycle tests over the in-process Chia simulator: mint an NFT, then transfer /
//! update-metadata / assign-owner / settle it, signing via the crate's own
//! `required_signatures` report and validating each spend on consensus.

use chia_protocol::{Bytes32, CoinSpend, Program, SpendBundle};
use chia_puzzle_types::nft::NftMetadata;
use chia_puzzle_types::Memos;
use clvmr::NodePtr;
use chia_sdk_test::{sign_transaction, BlsPairWithCoin, Simulator};
use chia_wallet_sdk::driver::{Launcher, SingletonInfo, StandardLayer};
use chia_wallet_sdk::prelude::{SecretKey, Signature, ToTreeHash};
use chia_wallet_sdk::types::{Conditions, TESTNET11_CONSTANTS};
use dig_nft::{
    assign_owner, lock_settlement, mint, parse, parse_child, required_signatures, transfer, transfer_with_metadata,
    unassign_owner, unlock_settlement, update_metadata, Coin, DidRef, Error, MetadataUpdate, MintSpec, Nft,
    NotarizedPayment, Owner, Payment, SpendContext, UriKind,
};

/// The data URI every `mint_standalone` NFT is minted with.
const MINT_URI: &str = "https://example.com/mint.png";

/// The data hash every minted NFT carries.
const MINT_DATA_HASH: [u8; 32] = [0x11; 32];

fn ok<T>(r: Result<T, Error>) -> anyhow::Result<T> {
    r.map_err(|e| anyhow::Error::msg(format!("{e:?}")))
}

fn coin(c: chia_protocol::Coin) -> Coin {
    Coin::new(c.parent_coin_info.into(), c.puzzle_hash.into(), c.amount)
}

fn memo_node(memos: Memos<NodePtr>) -> Option<NodePtr> {
    match memos {
        Memos::Some(node) => Some(node),
        Memos::None => None,
    }
}

fn hash(h: Bytes32) -> [u8; 32] {
    h.into()
}

/// Serialize NFT metadata with a single data URI and the standard mint data hash.
fn testnet_metadata(ctx: &mut SpendContext, uri: &str) -> anyhow::Result<Program> {
    Ok(ctx.serialize(&NftMetadata {
        data_uris: vec![uri.to_string()],
        data_hash: Some(Bytes32::from(MINT_DATA_HASH)),
        ..Default::default()
    })?)
}

/// Sign `coin_spends` for the TESTNET11 simulator, first asserting the crate's own
/// `required_signatures` report is non-empty.
fn sign_for_sim(coin_spends: &[CoinSpend], sks: &[SecretKey]) -> anyhow::Result<Signature> {
    let reported = ok(required_signatures(coin_spends, TESTNET11_CONSTANTS.agg_sig_me_additional_data.into()))?;
    assert!(!reported.is_empty(), "a spend must report required signatures");
    Ok(sign_transaction(coin_spends, sks)?)
}

/// Mint a standalone royalty NFT owned by `alice`, apply it to the simulator, and return the
/// spendable NFT (valid in `ctx` for a follow-up spend).
fn mint_standalone(sim: &mut Simulator, ctx: &mut SpendContext, alice: &BlsPairWithCoin) -> anyhow::Result<Nft> {
    let spec = MintSpec::new(testnet_metadata(ctx, MINT_URI)?, hash(alice.puzzle_hash)).with_royalty(300);
    let spend = ok(mint(ctx, &Owner::Standard(alice.pk), coin(alice.coin), &spec))?;
    let nft = *spend.child();
    let signature = sign_for_sim(&spend.coin_spends, std::slice::from_ref(&alice.sk))?;
    sim.new_transaction(SpendBundle::new(spend.coin_spends, signature))?;
    Ok(nft)
}

#[test]
fn transfer_moves_the_nft_to_a_new_owner() -> anyhow::Result<()> {
    let mut sim = Simulator::new();
    let ctx = &mut SpendContext::new();

    let alice = sim.bls(2);
    let bob = sim.bls(0);
    let nft = mint_standalone(&mut sim, ctx, &alice)?;

    let spend = ok(transfer(ctx, &Owner::Standard(alice.pk), nft, hash(bob.puzzle_hash)))?;
    assert_eq!(spend.child().info().p2_puzzle_hash, hash(bob.puzzle_hash));
    assert!(spend.did_conditions.is_empty());

    let signature = sign_for_sim(&spend.coin_spends, &[alice.sk])?;
    sim.new_transaction(SpendBundle::new(spend.coin_spends, signature))?;
    assert!(!sim.hinted_coins(bob.puzzle_hash).is_empty());
    Ok(())
}

#[test]
fn transfer_with_metadata_appends_a_uri_and_moves_owner() -> anyhow::Result<()> {
    let mut sim = Simulator::new();
    let ctx = &mut SpendContext::new();

    let alice = sim.bls(2);
    let bob = sim.bls(0);
    let nft = mint_standalone(&mut sim, ctx, &alice)?;

    let mirror = "https://mirror.example/0.png";
    let update = MetadataUpdate { kind: UriKind::Data, uri: mirror.to_string() };
    let spend = ok(transfer_with_metadata(ctx, &Owner::Standard(alice.pk), nft, hash(bob.puzzle_hash), &update))?;

    // Append-only: the new URI is prepended ahead of the URI it was minted with.
    assert_eq!(
        spend.child().driver_nft().info.metadata.tree_hash(),
        NftMetadata {
            data_uris: vec![mirror.to_string(), MINT_URI.to_string()],
            data_hash: Some(Bytes32::from(MINT_DATA_HASH)),
            ..Default::default()
        }
        .tree_hash()
    );
    assert_eq!(spend.child().info().p2_puzzle_hash, hash(bob.puzzle_hash));

    let signature = sign_for_sim(&spend.coin_spends, &[alice.sk])?;
    sim.new_transaction(SpendBundle::new(spend.coin_spends, signature))?;
    Ok(())
}

#[test]
fn update_metadata_keeps_the_owner() -> anyhow::Result<()> {
    let mut sim = Simulator::new();
    let ctx = &mut SpendContext::new();

    let alice = sim.bls(2);
    let nft = mint_standalone(&mut sim, ctx, &alice)?;

    let update = MetadataUpdate { kind: UriKind::Metadata, uri: "https://meta.example/0.json".to_string() };
    let spend = ok(update_metadata(ctx, &Owner::Standard(alice.pk), nft, &update))?;
    assert_eq!(
        spend.child().info().p2_puzzle_hash,
        hash(alice.puzzle_hash),
        "the owner is unchanged by a pure metadata update"
    );

    let signature = sign_for_sim(&spend.coin_spends, &[alice.sk])?;
    sim.new_transaction(SpendBundle::new(spend.coin_spends, signature))?;
    Ok(())
}

#[test]
fn assign_then_unassign_owner_did() -> anyhow::Result<()> {
    let mut sim = Simulator::new();
    let ctx = &mut SpendContext::new();

    let alice = sim.bls(3);
    let alice_p2 = StandardLayer::new(alice.pk);
    let nft = mint_standalone(&mut sim, ctx, &alice)?;

    // A stand-in external DID.
    let funding = sim.new_coin(alice.puzzle_hash, 1);
    let (create_did, did) = Launcher::new(funding.coin_id(), 1).create_simple_did(ctx, &alice_p2)?;
    alice_p2.spend(ctx, funding, create_did)?;
    sim.spend_coins(ctx.take(), std::slice::from_ref(&alice.sk))?;

    // Assign: the returned did_conditions are emitted by the external DID in the same bundle.
    let did_ref = DidRef::new(hash(did.info.launcher_id), hash(did.info.inner_puzzle_hash().into()));
    let assigned = ok(assign_owner(ctx, &Owner::Standard(alice.pk), nft, did_ref))?;
    assert_eq!(assigned.child().info().current_owner, Some(hash(did.info.launcher_id)));
    assert!(!assigned.did_conditions.is_empty());

    let assigned_nft = *assigned.child();
    let _did = did.update(ctx, &alice_p2, assigned.did_conditions.clone())?;
    let mut coin_spends = assigned.coin_spends;
    coin_spends.extend(ctx.take());
    let signature = sign_for_sim(&coin_spends, std::slice::from_ref(&alice.sk))?;
    sim.new_transaction(SpendBundle::new(coin_spends, signature))?;

    // Unassign: clears the owner, needs no DID spend.
    let unassigned = ok(unassign_owner(ctx, &Owner::Standard(alice.pk), assigned_nft))?;
    assert!(unassigned.child().info().current_owner.is_none());
    assert!(unassigned.did_conditions.is_empty());

    let signature = sign_for_sim(&unassigned.coin_spends, &[alice.sk])?;
    sim.new_transaction(SpendBundle::new(unassigned.coin_spends, signature))?;
    Ok(())
}

#[test]
fn lock_settlement_moves_the_nft_into_the_offer_puzzle() -> anyhow::Result<()> {
    let mut sim = Simulator::new();
    let ctx = &mut SpendContext::new();

    let alice = sim.bls(2);
    let nft = mint_standalone(&mut sim, ctx, &alice)?;

    let spend = ok(lock_settlement(ctx, &Owner::Standard(alice.pk), nft, Vec::new()))?;
    assert_ne!(
        spend.child().info().p2_puzzle_hash,
        hash(alice.puzzle_hash),
        "a locked NFT moves out of the owner puzzle into the settlement puzzle"
    );
    assert!(spend.child().info().current_owner.is_none(), "locking clears the assigned owner");

    let signature = sign_for_sim(&spend.coin_spends, &[alice.sk])?;
    sim.new_transaction(SpendBundle::new(spend.coin_spends, signature))?;
    Ok(())
}

#[test]
fn unlock_settlement_builds_spends() -> anyhow::Result<()> {
    let mut sim = Simulator::new();
    let ctx = &mut SpendContext::new();

    let alice = sim.bls(2);
    let bob = sim.bls(0);
    let nft = mint_standalone(&mut sim, ctx, &alice)?;
    let locked = ok(lock_settlement(ctx, &Owner::Standard(alice.pk), nft, Vec::new()))?;
    let locked_nft = *locked.child();
    let signature = sign_for_sim(&locked.coin_spends, &[alice.sk])?;
    sim.new_transaction(SpendBundle::new(locked.coin_spends, signature))?;

    // The taker's notarized payment reveals the settlement coin to bob (the buyer receiving the
    // NFT). A full offer wires the payment side too; here the builder forms the unlock.
    let payment = Payment { puzzle_hash: hash(bob.puzzle_hash), amount: locked_nft.coin().amount, memos: memo_node(ctx.hint(bob.puzzle_hash)?) };
    let notarized = NotarizedPayment { nonce: [0x55; 32], payments: vec![payment] };
    let unlocked = ok(unlock_settlement(ctx, locked_nft, vec![notarized]))?;
    assert_eq!(unlocked.child().info().p2_puzzle_hash, hash(bob.puzzle_hash));
    assert!(!unlocked.coin_spends.is_empty(), "unlock produces a spend");
    Ok(())
}

#[test]
fn parse_child_and_parse_reconstruct_the_nft() -> anyhow::Result<()> {
    let mut sim = Simulator::new();
    let ctx = &mut SpendContext::new();

    let alice = sim.bls(2);
    let bob = sim.bls(0);
    let minted = mint_standalone(&mut sim, ctx, &alice)?;
    let minted_coin = minted.coin();
    let minted_coin_id = Bytes32::from(minted.driver_nft().coin.coin_id());

    // Transfer so the minted coin becomes a spent parent whose child can be reconstructed.
    let spend = ok(transfer(ctx, &Owner::Standard(alice.pk), minted, hash(bob.puzzle_hash)))?;
    let expected_child = *spend.child();
    let signature = sign_for_sim(&spend.coin_spends, &[alice.sk])?;
    sim.new_transaction(SpendBundle::new(spend.coin_spends, signature))?;

    // parse_child walks the (now spent) minted coin's spend to its child, network-free.
    let parse_ctx = &mut SpendContext::new();
    let puzzle = sim.puzzle_reveal(minted_coin_id).expect("parent puzzle");
    let solution = sim.solution(minted_coin_id).expect("parent solution");
    let parsed = ok(parse_child(parse_ctx, minted_coin, &puzzle, &solution))?.expect("child is an NFT");
    assert_eq!(parsed.nft.driver_nft(), expected_child.driver_nft());
    assert_eq!(parsed.p2_puzzle_hash, hash(bob.puzzle_hash));
    assert_eq!(parsed.launcher_id, expected_child.info().launcher_id);
    assert_eq!(parsed.royalty_basis_points, 300);
    assert!(parsed.owner_did.is_none());

    // parse decodes the same coin spend directly into an NFT.
    let parse_ctx2 = &mut SpendContext::new();
    let direct = ok(parse(parse_ctx2, minted_coin, &puzzle, &solution))?.expect("coin is an NFT");
    assert_eq!(direct.launcher_id, expected_child.info().launcher_id);
    Ok(())
}

#[test]
fn parse_child_returns_none_for_a_non_nft() -> anyhow::Result<()> {
    // A plain standard-layer coin spend is not an NFT: parse_child yields None, not an error.
    let mut sim = Simulator::new();
    let ctx = &mut SpendContext::new();

    let alice = sim.bls(1);
    let alice_p2 = StandardLayer::new(alice.pk);
    let memos = ctx.hint(alice.puzzle_hash)?;
    alice_p2.spend(ctx, alice.coin, Conditions::new().create_coin(alice.puzzle_hash, 1, memos))?;
    sim.spend_coins(ctx.take(), &[alice.sk])?;

    let parse_ctx = &mut SpendContext::new();
    let puzzle = sim.puzzle_reveal(alice.coin.coin_id()).expect("puzzle");
    let solution = sim.solution(alice.coin.coin_id()).expect("solution");
    assert!(ok(parse_child(parse_ctx, coin(alice.coin), &puzzle, &solution))?.is_none());
    Ok(())
}
