//! Royalty and offer settlement.
//!
//! An NFT's royalty (basis points + payout puzzle hash) is fixed at mint (see
//! [`crate::mint::mint`] via [`crate::MintSpec::with_royalty`]); it is enforced only on offer
//! trades. Trading an NFT through an offer is a two-step settlement:
//!
//! * [`lock_settlement`] moves the NFT into the settlement puzzle, revealing the offer's trade
//!   prices and clearing the assigned owner: the maker's half of an offer;
//! * [`unlock_settlement`] spends a settlement-locked NFT with the taker's notarized payments,
//!   completing the trade.

use vstd::prelude::*;

use chia_wallet_sdk::driver::SpendContext;

use crate::error::{driver_result, Error};
use crate::sdk::{
    allocates, condition_items, conditions_new, hints_fit, last_odd_create_coin, last_odd_in, last_odd_payment,
    last_transfer, lemma_standard_child, limit_error, nft_lock_settlement, nft_spent, nft_unlock_settlement,
    payment_creates, pays_zero, payments_in, prices_view, recreated_from, settlement_announcements, settlement_output,
    settlement_payment_puzzle_hash, standard_output_with, take_coin_spends, ConditionModel,
};
use crate::transfer::spent_once;
use crate::types::{NotarizedPayment, Nft, NftInfo, NftSpend, Owner, Payment, TradePrice};

verus! {

broadcast use crate::sdk::lemma_allocates_transitive;

/// Lock `nft` into the offer settlement puzzle, revealing `trade_prices` and clearing its
/// assigned owner (the maker side of an offer). Launcher, metadata and royalty are unchanged.
/// It fails only on an even amount, an invalid owner key, or a limit reached.
pub fn lock_settlement(ctx: &mut SpendContext, owner: &Owner, nft: Nft, trade_prices: Vec<TradePrice>) -> (r: Result<NftSpend, Error>)
    requires
        nft.in_context(*old(ctx)),
    ensures
        allocates(*old(ctx), *final(ctx)),
        r matches Err(e) ==> e is Driver,
        nft@.coin.amount % 2 == 0 ==> r is Err,
        r matches Err(Error::Driver(e)) ==> nft@.coin.amount % 2 == 0 || !owner.has_valid_key() || limit_error(e),
        r matches Ok(s) ==> {
            &&& s.children@.len() == 1
            &&& s.children@[0]@.info == (NftInfo {
                p2_puzzle_hash: settlement_payment_puzzle_hash(),
                current_owner: None,
                ..nft@.info
            })
            &&& recreated_from(nft@, s.children@[0]@, nft@.coin.amount)
            &&& condition_items(s.did_conditions).len() == 0
            &&& spent_once(s, *old(ctx), *final(ctx), nft, standard_output_with(
                Seq::empty(),
                settlement_payment_puzzle_hash(),
                nft@.coin.amount,
                Some((None, prices_view(trade_prices@))),
            ))
        },
{
    let extra = conditions_new();
    proof {
        lemma_standard_child(nft@.info, condition_items(extra), settlement_payment_puzzle_hash(), nft@.coin.amount, Some((None, prices_view(trade_prices@))));
    }
    let layer = owner.layer();
    let child = driver_result(nft_lock_settlement(ctx, &layer, &nft, &trade_prices, extra))?;
    Ok(NftSpend { coin_spends: take_coin_spends(ctx), children: vec![child], did_conditions: conditions_new() })
}

/// The conditions the settlement puzzle outputs when a settlement spend in `ctx` pays
/// `notarized_payments`, whose memos give the hints `hints`.
pub open spec fn unlock_output(
    ctx: SpendContext,
    notarized_payments: Seq<NotarizedPayment>,
    hints: Seq<Seq<Option<[u8; 32]>>>,
) -> Seq<ConditionModel> {
    settlement_output(notarized_payments, settlement_announcements(ctx, notarized_payments), hints)
}

/// Unlock a settlement-locked `nft` with the taker's `notarized_payments`, completing an offer
/// trade. The child is recreated at the puzzle hash of the last odd-amount payment; every other
/// field is unchanged. Without an odd-amount payment there is no child and the spend fails; a
/// payment of 0 fails it too; otherwise it fails only when a limit is reached.
pub fn unlock_settlement(ctx: &mut SpendContext, nft: Nft, notarized_payments: Vec<NotarizedPayment>) -> (r: Result<NftSpend, Error>)
    requires
        nft.in_context(*old(ctx)),
        payments_in(notarized_payments@, *old(ctx)),
    ensures
        allocates(*old(ctx), *final(ctx)),
        r matches Err(e) ==> e is Driver,
        last_odd_payment(notarized_payments@) is None ==> r is Err,
        pays_zero(notarized_payments@) ==> r is Err,
        r matches Err(Error::Driver(e)) ==> last_odd_payment(notarized_payments@) is None
            || pays_zero(notarized_payments@) || limit_error(e),
        r matches Ok(s) ==> {
            &&& s.children@.len() == 1
            &&& last_odd_payment(notarized_payments@) matches Some((p2_puzzle_hash, amount))
                && s.children@[0]@.info == (NftInfo { p2_puzzle_hash, ..nft@.info })
                && recreated_from(nft@, s.children@[0]@, amount)
            &&& condition_items(s.did_conditions).len() == 0
            &&& exists|hints: Seq<Seq<Option<[u8; 32]>>>| hints_fit(notarized_payments@, hints)
                && spent_once(s, *old(ctx), *final(ctx), nft, #[trigger] unlock_output(*old(ctx), notarized_payments@, hints))
        },
{
    let ghost start = *ctx;
    let child = driver_result(nft_unlock_settlement(ctx, &nft, &notarized_payments))?;
    let ghost unlocked = *ctx;
    let s = NftSpend { coin_spends: take_coin_spends(ctx), children: vec![child], did_conditions: conditions_new() };
    proof {
        let announcements = settlement_announcements(start, notarized_payments@);
        let hints = choose|hints: Seq<Seq<Option<[u8; 32]>>>| hints_fit(notarized_payments@, hints) && nft_spent(start, unlocked, nft, child,
            #[trigger] settlement_output(notarized_payments@, announcements, hints));
        lemma_no_transfer_in_settlement(notarized_payments@, announcements, hints);
        lemma_settlement_last_odd(notarized_payments@, announcements, hints);
        assert(spent_once(s, start, *ctx, nft, unlock_output(start, notarized_payments@, hints)));
    }
    Ok(s)
}

/// The settlement puzzle's output holds no transfer condition, so a settlement spend keeps the
/// NFT's owner.
proof fn lemma_no_transfer_in_settlement(
    notarized_payments: Seq<NotarizedPayment>,
    announcements: Seq<[u8; 32]>,
    hints: Seq<Seq<Option<[u8; 32]>>>,
)
    ensures
        last_transfer(settlement_output(notarized_payments, announcements, hints)) is None,
    decreases notarized_payments.len(),
{
    if notarized_payments.len() > 0 {
        let rest = settlement_output(notarized_payments.drop_last(), announcements.drop_last(), hints.drop_last());
        let announced = rest + seq![ConditionModel::CreatePuzzleAnnouncement { message: announcements.last() }];
        let payments = payment_creates(notarized_payments.last().payments@, hints.last());
        lemma_no_transfer_in_settlement(notarized_payments.drop_last(), announcements.drop_last(), hints.drop_last());
        assert(announced.drop_last() =~= rest);
        lemma_no_transfer_in_creates(announced, payments);
    }
}

/// Appending `CREATE_COIN`s (and nothing else) to conditions without a transfer adds none.
proof fn lemma_no_transfer_in_creates(prefix: Seq<ConditionModel>, creates: Seq<ConditionModel>)
    requires
        last_transfer(prefix) is None,
        forall|i: int| 0 <= i < creates.len() ==> #[trigger] creates[i] is CreateCoin,
    ensures
        last_transfer(prefix + creates) is None,
    decreases creates.len(),
{
    if creates.len() > 0 {
        let shorter = creates.drop_last();
        lemma_no_transfer_in_creates(prefix, shorter);
        assert((prefix + creates).drop_last() =~= prefix + shorter);
    } else {
        assert(prefix + creates =~= prefix);
    }
}

/// The last odd-amount `CREATE_COIN` of two lists in a row is the second's, or else the first's.
proof fn lemma_last_odd_concat(first: Seq<ConditionModel>, second: Seq<ConditionModel>)
    ensures
        last_odd_create_coin(first + second) == match last_odd_create_coin(second) {
            Some(found) => Some(found),
            None => last_odd_create_coin(first),
        },
    decreases second.len(),
{
    if second.len() == 0 {
        assert(first + second =~= first);
    } else {
        assert((first + second).drop_last() =~= first + second.drop_last());
        lemma_last_odd_concat(first, second.drop_last());
    }
}

/// The last odd-amount `CREATE_COIN` of a payment list's coins is its last odd payment.
proof fn lemma_last_odd_payment_creates(payments: Seq<Payment>, hints: Seq<Option<[u8; 32]>>)
    ensures
        last_odd_create_coin(payment_creates(payments, hints)) == last_odd_in(payments),
    decreases payments.len(),
{
    if payments.len() > 0 {
        assert(payment_creates(payments, hints).drop_last() =~= payment_creates(payments.drop_last(), hints));
        lemma_last_odd_payment_creates(payments.drop_last(), hints);
    }
}

/// The settlement puzzle recreates the NFT at its last odd-amount payment, whatever the
/// announcements and hints.
proof fn lemma_settlement_last_odd(
    notarized_payments: Seq<NotarizedPayment>,
    announcements: Seq<[u8; 32]>,
    hints: Seq<Seq<Option<[u8; 32]>>>,
)
    ensures
        last_odd_create_coin(settlement_output(notarized_payments, announcements, hints)) == last_odd_payment(notarized_payments),
    decreases notarized_payments.len(),
{
    if notarized_payments.len() > 0 {
        let rest = settlement_output(notarized_payments.drop_last(), announcements.drop_last(), hints.drop_last());
        let announcement = seq![ConditionModel::CreatePuzzleAnnouncement { message: announcements.last() }];
        let creates = payment_creates(notarized_payments.last().payments@, hints.last());
        lemma_settlement_last_odd(notarized_payments.drop_last(), announcements.drop_last(), hints.drop_last());
        lemma_last_odd_payment_creates(notarized_payments.last().payments@, hints.last());
        lemma_last_odd_concat(rest + announcement, creates);
        lemma_last_odd_concat(rest, announcement);
        assert(announcement.drop_last() =~= Seq::<ConditionModel>::empty());
        reveal_with_fuel(last_odd_create_coin, 2);
    }
}

} // verus!
