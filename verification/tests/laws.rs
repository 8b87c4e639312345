//! Concrete checks of the properties the builders' contracts state, on a deterministic
//! fixture built without a simulator.

use chia_protocol::{Bytes32, Coin as ChiaCoin, CoinSpend, Program};
use chia_puzzle_types::nft::NftMetadata;
use chia_puzzle_types::Memos;
use clvmr::NodePtr;
use chia_sdk_test::BlsPair;
use chia_wallet_sdk::puzzles::{NFT_METADATA_UPDATER_DEFAULT_HASH, SETTLEMENT_PAYMENT_HASH};
use chia_wallet_sdk::types::TESTNET11_CONSTANTS;
use dig_nft::{
    assign_owner, lock_settlement, mint, parse_child, required_signatures, transfer, transfer_with_metadata,
    unassign_owner, update_metadata, Coin, DidRef, Error, MetadataUpdate, MintSpec, Nft, Owner, SpendContext,
    TradePrice, UriKind,
};

const OWNER_PUZZLE_HASH: [u8; 32] = [0x01; 32];
const RECIPIENT_PUZZLE_HASH: [u8; 32] = [0xCC; 32];

fn metadata(ctx: &mut SpendContext, uri: &str) -> Program {
    ctx.serialize(&NftMetadata {
        data_uris: vec![uri.to_string()],
        data_hash: Some(Bytes32::from([0x11; 32])),
        ..Default::default()
    })
    .unwrap()
}

fn memo_node(memos: Memos<NodePtr>) -> Option<NodePtr> {
    match memos {
        Memos::Some(node) => Some(node),
        Memos::None => None,
    }
}

fn owner() -> Owner {
    Owner::Standard(BlsPair::default().pk)
}

fn minted(ctx: &mut SpendContext) -> Nft {
    let funding = Coin::new([0x02; 32], OWNER_PUZZLE_HASH, 2);
    let spec = MintSpec::new(metadata(ctx, "dig://store/plain"), OWNER_PUZZLE_HASH).with_royalty(337);
    *mint(ctx, &owner(), funding, &spec).unwrap().child()
}

fn coin_id(coin: Coin) -> [u8; 32] {
    ChiaCoin::new(coin.parent_coin_info.into(), coin.puzzle_hash.into(), coin.amount).coin_id().into()
}

#[test]
fn transfer_keeps_identity_royalty_and_owner_did() {
    let ctx = &mut SpendContext::new();
    let nft = minted(ctx);
    let spend = transfer(ctx, &owner(), nft, RECIPIENT_PUZZLE_HASH).unwrap();
    let (before, after) = (nft.info(), spend.child().info());
    assert_eq!(after.p2_puzzle_hash, RECIPIENT_PUZZLE_HASH);
    assert_eq!(after.launcher_id, before.launcher_id);
    assert_eq!(after.royalty_puzzle_hash, before.royalty_puzzle_hash);
    assert_eq!(after.royalty_basis_points, 337);
    assert_eq!(after.current_owner, before.current_owner);
    assert_eq!(spend.children.len(), 1);
    assert_eq!(spend.did_conditions.len(), 0);
    // The child is created by the NFT's coin, with its amount.
    assert_eq!(spend.child().coin().parent_coin_info, coin_id(nft.coin()));
    assert_eq!(spend.child().coin().amount, nft.coin().amount);
}

#[test]
fn update_metadata_changes_no_plain_field() {
    let ctx = &mut SpendContext::new();
    let nft = minted(ctx);
    let update = MetadataUpdate { kind: UriKind::Data, uri: "dig://store/mirror".to_string() };
    let spend = update_metadata(ctx, &owner(), nft, &update).unwrap();
    let (before, after) = (nft.info(), spend.child().info());
    assert_eq!(after.p2_puzzle_hash, before.p2_puzzle_hash);
    assert_eq!(after.launcher_id, before.launcher_id);
    assert_eq!(after.royalty_basis_points, before.royalty_basis_points);
    assert_eq!(after.current_owner, before.current_owner);
    // The metadata itself did change.
    assert_ne!(
        spend.child().driver_nft().info.metadata.tree_hash(),
        nft.driver_nft().info.metadata.tree_hash()
    );
}

#[test]
fn transfer_with_metadata_moves_the_owner() {
    let ctx = &mut SpendContext::new();
    let nft = minted(ctx);
    let update = MetadataUpdate { kind: UriKind::License, uri: "dig://store/license".to_string() };
    let spend = transfer_with_metadata(ctx, &owner(), nft, RECIPIENT_PUZZLE_HASH, &update).unwrap();
    assert_eq!(spend.child().info().p2_puzzle_hash, RECIPIENT_PUZZLE_HASH);
    assert_eq!(spend.child().info().launcher_id, nft.info().launcher_id);
    assert!(spend.did_conditions.is_empty());
}

#[test]
fn assign_reports_two_did_conditions_and_unassign_none() {
    let ctx = &mut SpendContext::new();
    let nft = minted(ctx);
    let did = DidRef::new([0xAA; 32], [0xBB; 32]);
    let assigned = assign_owner(ctx, &owner(), nft, did).unwrap();
    assert_eq!(assigned.did_conditions.len(), 2);
    assert_eq!(assigned.child().info().current_owner, Some([0xAA; 32]));
    assert_eq!(assigned.child().info().p2_puzzle_hash, OWNER_PUZZLE_HASH);
    let unassigned = unassign_owner(ctx, &owner(), *assigned.child()).unwrap();
    assert_eq!(unassigned.did_conditions.len(), 0);
    assert_eq!(unassigned.child().info().current_owner, None);
    // Assigning then unassigning leaves every other field as it was.
    let (before, after) = (nft.info(), unassigned.child().info());
    assert_eq!(after.p2_puzzle_hash, before.p2_puzzle_hash);
    assert_eq!(after.launcher_id, before.launcher_id);
    assert_eq!(after.royalty_puzzle_hash, before.royalty_puzzle_hash);
    assert_eq!(after.royalty_basis_points, before.royalty_basis_points);
}

#[test]
fn lock_settlement_moves_into_the_settlement_puzzle() {
    let ctx = &mut SpendContext::new();
    let nft = minted(ctx);
    let prices = vec![
        TradePrice { amount: 1_000_003, puzzle_hash: [0xD1; 32] },
        TradePrice { amount: 7, puzzle_hash: [0xD2; 32] },
    ];
    let spend = lock_settlement(ctx, &owner(), nft, prices).unwrap();
    assert_eq!(spend.child().info().p2_puzzle_hash, SETTLEMENT_PAYMENT_HASH);
    assert_eq!(spend.child().info().current_owner, None);
    assert_eq!(spend.child().info().royalty_basis_points, 337);
    assert!(spend.did_conditions.is_empty());
}

#[test]
fn a_mint_reports_its_spends_and_signatures() {
    let ctx = &mut SpendContext::new();
    let funding = Coin::new([0x02; 32], OWNER_PUZZLE_HASH, 2);
    let spec = MintSpec::new(metadata(ctx, "dig://store/plain"), OWNER_PUZZLE_HASH);
    let spend = mint(ctx, &owner(), funding, &spec).unwrap();
    // Funding coin, intermediate launcher, launcher, eve NFT.
    assert_eq!(spend.coin_spends.len(), 4);
    assert_eq!(spend.child().info().royalty_basis_points, 0);
    assert!(spend.did_conditions.is_empty());
}

#[test]
fn invalid_clvm_is_a_driver_error() {
    let ctx = &mut SpendContext::new();
    let garbage = Program::from(vec![0xff]);
    let parent = Coin::new([0; 32], [0; 32], 1);
    let result = parse_child(ctx, parent, &garbage, &garbage);
    assert!(matches!(result, Err(Error::Driver(_))));
}

#[test]
fn a_puzzle_hash_mismatch_is_a_signer_error() {
    let coin = ChiaCoin::new(Bytes32::from([0; 32]), Bytes32::from([9; 32]), 1);
    // The puzzle `1` (nil-terminated identity) does not hash to the coin's puzzle hash.
    let spend = CoinSpend::new(coin, Program::from(vec![0x01]), Program::from(vec![0x80]));
    let result = required_signatures(&[spend], TESTNET11_CONSTANTS.agg_sig_me_additional_data.into());
    assert!(matches!(result, Err(Error::Signer(_))));
}

#[test]
fn no_coin_spends_require_no_signatures() {
    let result = required_signatures(&[], TESTNET11_CONSTANTS.agg_sig_me_additional_data.into());
    assert!(matches!(result, Ok(ref signatures) if signatures.is_empty()));
}

#[test]
fn parsed_fields_agree_with_the_parsed_nft() {
    // Build a transfer, then parse the transferred NFT's child back from its own spend.
    let ctx = &mut SpendContext::new();
    let nft = minted(ctx);
    let spend = transfer(ctx, &owner(), nft, RECIPIENT_PUZZLE_HASH).unwrap();
    let nft_spend = spend
        .coin_spends
        .iter()
        .find(|cs| <[u8; 32]>::from(cs.coin.coin_id()) == coin_id(nft.coin()))
        .expect("the NFT coin is spent")
        .clone();
    let parse_ctx = &mut SpendContext::new();
    let parsed = parse_child(parse_ctx, nft.coin(), &nft_spend.puzzle_reveal, &nft_spend.solution)
        .unwrap()
        .expect("an NFT child");
    assert_eq!(parsed.launcher_id, parsed.nft.info().launcher_id);
    assert_eq!(parsed.coin_id, coin_id(parsed.nft.coin()));
    assert_eq!(parsed.p2_puzzle_hash, RECIPIENT_PUZZLE_HASH);
    assert_eq!(parsed.royalty_basis_points, 337);
    assert_eq!(parsed.nft.coin().parent_coin_info, coin_id(nft.coin()));
}

#[test]
fn unlock_follows_the_last_odd_payment() {
    let ctx = &mut SpendContext::new();
    let nft = minted(ctx);
    let locked = *lock_settlement(ctx, &owner(), nft, Vec::new()).unwrap().child();
    let memos = memo_node(ctx.hint(Bytes32::from(RECIPIENT_PUZZLE_HASH)).unwrap());
    let payments = vec![
        dig_nft::Payment { puzzle_hash: [0x31; 32], amount: 2, memos },
        dig_nft::Payment { puzzle_hash: RECIPIENT_PUZZLE_HASH, amount: 1, memos },
        dig_nft::Payment { puzzle_hash: [0x32; 32], amount: 4, memos },
    ];
    let notarized = dig_nft::NotarizedPayment { nonce: [0x55; 32], payments };
    let spend = dig_nft::unlock_settlement(ctx, locked, vec![notarized]).unwrap();
    assert_eq!(spend.child().info().p2_puzzle_hash, RECIPIENT_PUZZLE_HASH);
    assert_eq!(spend.child().coin().amount, 1);
    assert_eq!(spend.child().info().launcher_id, nft.info().launcher_id);
    assert!(spend.did_conditions.is_empty());
}

#[test]
fn unlock_without_an_odd_payment_fails() {
    let ctx = &mut SpendContext::new();
    let nft = minted(ctx);
    let locked = *lock_settlement(ctx, &owner(), nft, Vec::new()).unwrap().child();
    let memos = memo_node(ctx.hint(Bytes32::from(RECIPIENT_PUZZLE_HASH)).unwrap());
    let payments = vec![dig_nft::Payment { puzzle_hash: RECIPIENT_PUZZLE_HASH, amount: 2, memos }];
    let notarized = dig_nft::NotarizedPayment { nonce: [0x55; 32], payments };
    assert!(matches!(dig_nft::unlock_settlement(ctx, locked, vec![notarized]), Err(Error::Driver(_))));
}

#[test]
fn a_transfer_adds_exactly_the_spend_of_the_nft_coin() {
    let ctx = &mut SpendContext::new();
    let nft = minted(ctx);
    let spend = transfer(ctx, &owner(), nft, RECIPIENT_PUZZLE_HASH).unwrap();
    assert_eq!(spend.coin_spends.len(), 1);
    let spent = spend.coin_spends[0].coin;
    assert_eq!(coin_id(nft.coin()), <[u8; 32]>::from(spent.coin_id()));
    // The context is drained.
    assert_eq!(ctx.take().len(), 0);
}

#[test]
fn a_mint_spends_intermediate_launcher_eve_then_funding_coin() {
    let ctx = &mut SpendContext::new();
    let funding = Coin::new([0x02; 32], OWNER_PUZZLE_HASH, 2);
    let spec = MintSpec::new(metadata(ctx, "dig://store/order"), OWNER_PUZZLE_HASH);
    let spend = mint(ctx, &owner(), funding, &spec).unwrap();
    let coins: Vec<ChiaCoin> = spend.coin_spends.iter().map(|cs| cs.coin).collect();
    assert_eq!(coins.len(), 4);
    assert_eq!(<[u8; 32]>::from(coins[0].parent_coin_info), coin_id(funding));
    assert_eq!(coins[0].amount, 0);
    assert_eq!(coins[1].amount, 1);
    assert_eq!(<[u8; 32]>::from(coins[1].coin_id()), spend.child().info().launcher_id);
    assert_eq!(<[u8; 32]>::from(coins[2].parent_coin_info), spend.child().info().launcher_id);
    assert_eq!(<[u8; 32]>::from(coins[2].coin_id()), spend.child().coin().parent_coin_info);
    assert_eq!(<[u8; 32]>::from(coins[3].coin_id()), coin_id(funding));
    assert_eq!(spend.child().coin().amount, 1);
    assert_eq!(ctx.take().len(), 0);
}

#[test]
fn a_minted_nft_has_the_default_metadata_updater_and_its_metadata_hash() {
    let ctx = &mut SpendContext::new();
    let funding = Coin::new([0x02; 32], OWNER_PUZZLE_HASH, 2);
    let program = metadata(ctx, "dig://store/hash");
    let spec = MintSpec::new(program.clone(), OWNER_PUZZLE_HASH);
    let spend = mint(ctx, &owner(), funding, &spec).unwrap();
    let info = spend.child().info();
    assert_eq!(info.metadata_updater_puzzle_hash, NFT_METADATA_UPDATER_DEFAULT_HASH);
    let node = ctx.alloc(&program).unwrap();
    assert_eq!(info.metadata_hash, ctx.tree_hash(node).to_bytes());
    // A plain transfer keeps both.
    let moved = transfer(ctx, &owner(), *spend.child(), RECIPIENT_PUZZLE_HASH).unwrap();
    assert_eq!(moved.child().info().metadata_hash, info.metadata_hash);
    assert_eq!(moved.child().info().metadata_updater_puzzle_hash, info.metadata_updater_puzzle_hash);
}

#[test]
fn an_empty_bulk_mint_leaves_pending_spends_alone() {
    let ctx = &mut SpendContext::new();
    let nft = minted(ctx);
    let _ = lock_settlement(ctx, &owner(), nft, Vec::new()).unwrap();
    let pending = ChiaCoin::new(Bytes32::from([7; 32]), Bytes32::from([8; 32]), 1);
    ctx.insert(CoinSpend::new(pending, Program::from(vec![0x80]), Program::from(vec![0x80])));
    let funding = Coin::new([0x02; 32], OWNER_PUZZLE_HASH, 2);
    assert!(matches!(dig_nft::bulk_mint(ctx, &owner(), funding, &[]), Err(Error::InvalidInput(_))));
    let left = ctx.take();
    assert_eq!(left.len(), 1);
    assert_eq!(left[0].coin, pending);
}

#[test]
fn lock_reveals_the_trade_prices() {
    let ctx = &mut SpendContext::new();
    let nft = minted(ctx);
    let with_prices = lock_settlement(ctx, &owner(), nft, vec![TradePrice { amount: 9, puzzle_hash: [0xD3; 32] }]).unwrap();
    let ctx2 = &mut SpendContext::new();
    let nft2 = minted(ctx2);
    let without = lock_settlement(ctx2, &owner(), nft2, Vec::new()).unwrap();
    assert_ne!(with_prices.coin_spends[0].solution, without.coin_spends[0].solution);
}

#[test]
fn an_update_prepends_its_uri_to_the_named_list() {
    let ctx = &mut SpendContext::new();
    let nft = minted(ctx);
    let update = MetadataUpdate { kind: UriKind::Data, uri: "dig://store/mirror".to_string() };
    let spend = update_metadata(ctx, &owner(), nft, &update).unwrap();
    let expected = NftMetadata {
        data_uris: vec!["dig://store/mirror".to_string(), "dig://store/plain".to_string()],
        data_hash: Some(Bytes32::from([0x11; 32])),
        ..Default::default()
    };
    let node = ctx.alloc(&expected).unwrap();
    assert_eq!(spend.child().info().metadata_hash, ctx.tree_hash(node).to_bytes());
    assert_eq!(spend.child().info().metadata_updater_puzzle_hash, NFT_METADATA_UPDATER_DEFAULT_HASH);
}

#[test]
fn a_bulk_mint_gives_each_nft_its_own_launcher_and_metadata() {
    let ctx = &mut SpendContext::new();
    let funding = Coin::new([0x02; 32], OWNER_PUZZLE_HASH, 2);
    let specs = vec![
        MintSpec::new(metadata(ctx, "dig://store/a"), OWNER_PUZZLE_HASH),
        MintSpec::new(metadata(ctx, "dig://store/b"), OWNER_PUZZLE_HASH),
        MintSpec::new(metadata(ctx, "dig://store/c"), OWNER_PUZZLE_HASH),
    ];
    let spend = dig_nft::bulk_mint(ctx, &owner(), funding, &specs).unwrap();
    assert_eq!(spend.children.len(), 3);
    for i in 0..3 {
        let node = ctx.alloc(&specs[i].metadata).unwrap();
        assert_eq!(spend.children[i].info().metadata_hash, ctx.tree_hash(node).to_bytes());
        for j in 0..i {
            assert_ne!(spend.children[i].info().launcher_id, spend.children[j].info().launcher_id);
        }
    }
    // Three spends per NFT, then the funding coin once.
    assert_eq!(spend.coin_spends.len(), 10);
    assert_eq!(<[u8; 32]>::from(spend.coin_spends[9].coin.coin_id()), coin_id(funding));
}

#[test]
fn a_spend_parses_back_to_the_nft_it_spent() {
    let ctx = &mut SpendContext::new();
    let nft = minted(ctx);
    let spend = transfer(ctx, &owner(), nft, RECIPIENT_PUZZLE_HASH).unwrap();
    let cs = &spend.coin_spends[0];
    let fresh = &mut SpendContext::new();
    let parsed = dig_nft::parse(fresh, nft.coin(), &cs.puzzle_reveal, &cs.solution).unwrap().unwrap();
    assert_eq!(parsed.launcher_id, nft.info().launcher_id);
    assert_eq!(parsed.nft.coin().puzzle_hash, nft.coin().puzzle_hash);
    assert_eq!(parsed.nft.info().metadata_hash, nft.info().metadata_hash);
    let other = &mut SpendContext::new();
    let child = parse_child(other, nft.coin(), &cs.puzzle_reveal, &cs.solution).unwrap().unwrap();
    let (got, want) = (child.nft.info(), spend.child().info());
    assert_eq!(got.launcher_id, want.launcher_id);
    assert_eq!(got.p2_puzzle_hash, want.p2_puzzle_hash);
    assert_eq!(got.metadata_hash, want.metadata_hash);
    assert_eq!(got.current_owner, want.current_owner);
    assert_eq!(child.nft.coin().parent_coin_info, spend.child().coin().parent_coin_info);
    assert_eq!(fresh.take().len(), 0);
}
