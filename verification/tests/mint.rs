//! Minting over the in-process Chia simulator.

use chia_protocol::{Bytes32, CoinSpend, Program, SpendBundle};
use chia_puzzle_types::nft::NftMetadata;
use chia_sdk_test::{sign_transaction, BlsPair, Simulator};
use chia_wallet_sdk::driver::{Launcher, SingletonInfo, StandardLayer};
use chia_wallet_sdk::prelude::{SecretKey, Signature};
use chia_wallet_sdk::types::TESTNET11_CONSTANTS;
use dig_nft::{bulk_mint, mint, required_signatures, Coin, DidRef, Error, MintSpec, Owner, SpendContext};

fn ok<T>(r: Result<T, Error>) -> anyhow::Result<T> {
    r.map_err(|e| anyhow::Error::msg(format!("{e:?}")))
}

fn coin(c: chia_protocol::Coin) -> Coin {
    Coin::new(c.parent_coin_info.into(), c.puzzle_hash.into(), c.amount)
}

/// Sign `coin_spends` for the TESTNET11 simulator, first asserting the crate's own
/// `required_signatures` report is non-empty (the crate never signs: this bridges the built
/// spends onto the simulator in tests).
fn sign_for_sim(coin_spends: &[CoinSpend], sks: &[SecretKey]) -> anyhow::Result<Signature> {
    let reported = ok(required_signatures(coin_spends, TESTNET11_CONSTANTS.agg_sig_me_additional_data.into()))?;
    assert!(!reported.is_empty(), "a spend must report required signatures");
    Ok(sign_transaction(coin_spends, sks)?)
}

fn metadata(ctx: &mut SpendContext, uri: &str) -> anyhow::Result<Program> {
    Ok(ctx.serialize(&NftMetadata {
        data_uris: vec![uri.to_string()],
        data_hash: Some(Bytes32::from([0x11; 32])),
        ..Default::default()
    })?)
}

#[test]
fn mint_standalone_royalty_nft_validates_on_simulator() -> anyhow::Result<()> {
    let mut sim = Simulator::new();
    let ctx = &mut SpendContext::new();

    let alice = sim.bls(2);
    let spec = MintSpec::new(metadata(ctx, "https://example.com/0.png")?, alice.puzzle_hash.into()).with_royalty(300);

    let spend = ok(mint(ctx, &Owner::Standard(alice.pk), coin(alice.coin), &spec))?;

    let nft = spend.child();
    assert_eq!(nft.info().royalty_basis_points, 300);
    assert_eq!(nft.info().p2_puzzle_hash, <[u8; 32]>::from(alice.puzzle_hash));
    assert!(nft.info().current_owner.is_none(), "no DID attribution");
    assert!(spend.did_conditions.is_empty());

    let signature = sign_for_sim(&spend.coin_spends, &[alice.sk])?;
    sim.new_transaction(SpendBundle::new(spend.coin_spends, signature))?;
    assert!(!sim.hinted_coins(alice.puzzle_hash).is_empty());
    Ok(())
}

#[test]
fn bulk_mint_two_nfts_atomically() -> anyhow::Result<()> {
    let mut sim = Simulator::new();
    let ctx = &mut SpendContext::new();

    let alice = sim.bls(2);
    let specs = vec![
        MintSpec::new(metadata(ctx, "https://example.com/0.png")?, alice.puzzle_hash.into()).with_royalty(250),
        MintSpec::new(metadata(ctx, "https://example.com/1.png")?, alice.puzzle_hash.into()).with_royalty(500),
    ];

    let spend = ok(bulk_mint(ctx, &Owner::Standard(alice.pk), coin(alice.coin), &specs))?;
    assert_eq!(spend.children.len(), 2);
    assert_eq!(spend.children[0].info().royalty_basis_points, 250);
    assert_eq!(spend.children[1].info().royalty_basis_points, 500);
    assert_ne!(spend.children[0].info().launcher_id, spend.children[1].info().launcher_id);

    let signature = sign_for_sim(&spend.coin_spends, &[alice.sk])?;
    sim.new_transaction(SpendBundle::new(spend.coin_spends, signature))?;
    Ok(())
}

#[test]
fn bulk_mint_rejects_empty_specs() {
    let ctx = &mut SpendContext::new();
    let funding = Coin::new([0; 32], [0; 32], 1);
    let alice_pk = BlsPair::default().pk;
    let err = bulk_mint(ctx, &Owner::Standard(alice_pk), funding, &[]).err().expect("an empty bulk mint fails");
    assert!(matches!(err, Error::InvalidInput(_)), "got: {err:?}");
}

#[test]
fn bulk_mint_empty_message() {
    let ctx = &mut SpendContext::new();
    let funding = Coin::new([0; 32], [0; 32], 1);
    match bulk_mint(ctx, &Owner::Standard(BlsPair::default().pk), funding, &[]) {
        Err(Error::InvalidInput(message)) => assert_eq!(message, "bulk_mint requires at least one NFT spec"),
        _ => panic!("expected an invalid-input error"),
    }
}

#[test]
fn did_owned_mint_is_acknowledged_and_validates() -> anyhow::Result<()> {
    // The crate builds the NFT side (the funding coin parents the launcher) and returns
    // did_conditions; the test stands in for the external DID by spending a DID coin emitting
    // those conditions in the same bundle.
    let mut sim = Simulator::new();
    let ctx = &mut SpendContext::new();

    let alice = sim.bls(3);
    let alice_p2 = StandardLayer::new(alice.pk);

    // A stand-in DID the caller owns externally.
    let (create_did, did) = Launcher::new(alice.coin.coin_id(), 1).create_simple_did(ctx, &alice_p2)?;
    alice_p2.spend(ctx, alice.coin, create_did)?;
    sim.spend_coins(ctx.take(), &[alice.sk.clone()])?;

    // A separate funding coin parents the NFT launcher (never the DID).
    let funding = sim.new_coin(alice.puzzle_hash, 2);
    let did_ref = DidRef::new(did.info.launcher_id.into(), Bytes32::from(did.info.inner_puzzle_hash()).into());
    let spec = MintSpec::new(metadata(ctx, "dig://store/art")?, alice.puzzle_hash.into())
        .with_royalty(300)
        .with_owner_did(did_ref);

    let spend = ok(mint(ctx, &Owner::Standard(alice.pk), coin(funding), &spec))?;
    assert_eq!(
        spend.child().info().current_owner,
        Some(did.info.launcher_id.into()),
        "the minted NFT must be assigned to the DID"
    );
    assert!(!spend.did_conditions.is_empty(), "the DID must acknowledge");

    // The external DID is spent in the same bundle, emitting the returned did_conditions.
    let _did_child = did.update(ctx, &alice_p2, spend.did_conditions.clone())?;
    let mut coin_spends = spend.coin_spends;
    coin_spends.extend(ctx.take());

    let signature = sign_for_sim(&coin_spends, &[alice.sk])?;
    sim.new_transaction(SpendBundle::new(coin_spends, signature))?;
    Ok(())
}

#[test]
fn minted_nft_pays_royalties_to_its_owner() -> anyhow::Result<()> {
    let ctx = &mut SpendContext::new();
    let alice = BlsPair::default();
    let owner_puzzle_hash = [0x01; 32];
    let funding = Coin::new([0x02; 32], owner_puzzle_hash, 2);
    let spec = MintSpec::new(metadata(ctx, "dig://store/plain")?, owner_puzzle_hash).with_royalty(337);
    let spend = ok(mint(ctx, &Owner::Standard(alice.pk), funding, &spec))?;
    let info = spend.child().info();
    assert_eq!(info.royalty_puzzle_hash, owner_puzzle_hash);
    assert_eq!(info.p2_puzzle_hash, owner_puzzle_hash);
    assert_eq!(info.royalty_basis_points, 337);
    assert_eq!(spend.children.len(), 1);
    // The driver's view of the minted NFT agrees with the plain one.
    let driver = spend.child().driver_nft();
    assert_eq!(<[u8; 32]>::from(driver.info.launcher_id), info.launcher_id);
    assert_eq!(driver.coin.amount, spend.child().coin().amount);
    Ok(())
}

#[test]
fn bulk_mint_did_conditions_follow_mint_order() -> anyhow::Result<()> {
    let ctx = &mut SpendContext::new();
    let alice = BlsPair::default();
    let owner_puzzle_hash = [0x01; 32];
    let funding = Coin::new([0x02; 32], owner_puzzle_hash, 2);
    let did = DidRef::new([0xAA; 32], [0xBB; 32]);
    let specs = vec![
        MintSpec::new(metadata(ctx, "dig://a")?, owner_puzzle_hash),
        MintSpec::new(metadata(ctx, "dig://b")?, owner_puzzle_hash).with_owner_did(did),
        MintSpec::new(metadata(ctx, "dig://c")?, owner_puzzle_hash).with_owner_did(did),
    ];
    let spend = ok(bulk_mint(ctx, &Owner::Standard(alice.pk), funding, &specs))?;
    assert_eq!(spend.children.len(), 3);
    // Two acknowledgements of two conditions each; the unattributed NFT adds none.
    assert_eq!(spend.did_conditions.len(), 4);
    assert!(spend.children[0].info().current_owner.is_none());
    assert_eq!(spend.children[1].info().current_owner, Some([0xAA; 32]));
    assert_eq!(spend.children[2].info().current_owner, Some([0xAA; 32]));
    Ok(())
}
