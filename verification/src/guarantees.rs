//! What holds of the verifier across calls, proved over the mathematical
//! state that the contracts of [`Pallet`](crate::pallet::Pallet) speak of.

use vstd::prelude::*;
use crate::matching::{verdict, Error};
use crate::pallet::{bid_of_fields, offer_of_fields, Event, Ledger};
use crate::registry::flag_of;
use crate::trade::{BidView, OfferView};

verus! {

/// A pair that agrees on trade, market and asset is accepted; afterwards the
/// bid's identifier is valid, and the log has grown by exactly one
/// notification, `MatchVerified` with the two identifiers as submitted.
pub proof fn lemma_matching_pair_is_recorded(before: Ledger, bid: BidView, offer: OfferView)
    requires
        bid.id == offer.id,
        bid.market_id == Some(offer.market_id),
        bid.asset_id == Some(offer.asset_id),
    ensures
        verdict(bid, offer) == Ok::<(), Error>(()),
        before.verify_match(bid, offer).is_valid(bid.id),
        before.verify_match(bid, offer).events == before.events.push(
            Event::MatchVerified(bid.id, offer.id),
        ),
        before.verify_match(bid, offer).events.len() == before.events.len() + 1,
{
}

/// A pair with different trade identifiers is refused as `TradeIdMismatch`,
/// whatever its other fields hold; the registry answers as before for both
/// identifiers and nothing is logged.
pub proof fn lemma_different_ids_are_refused(before: Ledger, bid: BidView, offer: OfferView)
    requires
        bid.id != offer.id,
    ensures
        verdict(bid, offer) == Err::<(), Error>(Error::TradeIdMismatch),
        before.verify_match(bid, offer).valid_trades == before.valid_trades,
        before.verify_match(bid, offer).is_valid(bid.id) == before.is_valid(bid.id),
        before.verify_match(bid, offer).is_valid(offer.id) == before.is_valid(offer.id),
        before.verify_match(bid, offer).events == before.events,
{
}

/// A bid that names no market is refused as `MarketMismatch` when the trade
/// identifiers agree, whether or not the assets do.
pub proof fn lemma_open_market_is_refused(bid: BidView, offer: OfferView)
    requires
        bid.id == offer.id,
        bid.market_id is None,
    ensures
        verdict(bid, offer) == Err::<(), Error>(Error::MarketMismatch),
{
}

/// A bid that names no asset is refused as `AssetMismatch` when trade
/// identifier and market agree.
pub proof fn lemma_open_asset_is_refused(bid: BidView, offer: OfferView)
    requires
        bid.id == offer.id,
        bid.market_id == Some(offer.market_id),
        bid.asset_id is None,
    ensures
        verdict(bid, offer) == Err::<(), Error>(Error::AssetMismatch),
{
}

/// Each outcome comes on exactly the inputs that call for it: the first
/// field that differs, in the order trade, market, asset, names the error.
pub proof fn lemma_verdict_by_cases(bid: BidView, offer: OfferView)
    ensures
        verdict(bid, offer) == Err::<(), Error>(Error::TradeIdMismatch) <==> bid.id != offer.id,
        verdict(bid, offer) == Err::<(), Error>(Error::MarketMismatch) <==> bid.id == offer.id
            && bid.market_id != Some(offer.market_id),
        verdict(bid, offer) == Err::<(), Error>(Error::AssetMismatch) <==> bid.id == offer.id
            && bid.market_id == Some(offer.market_id) && bid.asset_id != Some(offer.asset_id),
        verdict(bid, offer) == Ok::<(), Error>(()) <==> bid.id == offer.id && bid.market_id
            == Some(offer.market_id) && bid.asset_id == Some(offer.asset_id),
{
}

/// A pair submitted as separate fields is accepted exactly when the trade
/// identifiers are equal and market and asset are the same bytes; the
/// quantities, the energy type and the time slots are not compared.
pub proof fn lemma_fields_match_when_equal(
    bid_id: u32,
    bid_market_id: Seq<u8>,
    bid_asset_id: Seq<u8>,
    bid_max_energy: u32,
    bid_time_slot: Seq<u8>,
    offer_id: u32,
    offer_market_id: Seq<u8>,
    offer_asset_id: Seq<u8>,
    offer_energy_type: Seq<u8>,
    offer_max_energy: u32,
    offer_time_slot: Seq<u8>,
)
    ensures
        verdict(
            bid_of_fields(bid_id, bid_market_id, bid_asset_id, bid_max_energy, bid_time_slot),
            offer_of_fields(
                offer_id,
                offer_market_id,
                offer_asset_id,
                offer_energy_type,
                offer_max_energy,
                offer_time_slot,
            ),
        ) is Ok <==> bid_id == offer_id && bid_market_id == offer_market_id && bid_asset_id
            == offer_asset_id,
{
}

/// Registry and log move together: a refused pair changes neither, an
/// accepted pair changes both.
pub proof fn lemma_all_or_nothing(before: Ledger, bid: BidView, offer: OfferView)
    ensures
        verdict(bid, offer) is Err ==> before.verify_match(bid, offer) == before,
        verdict(bid, offer) is Ok ==> before.verify_match(bid, offer) == before.commit(
            bid.id,
            offer.id,
        ),
        before.commit(bid.id, offer.id).is_valid(bid.id),
        before.commit(bid.id, offer.id).events.len() == before.events.len() + 1,
{
}

/// Verifying the same matching pair a second time leaves the registry as
/// the first call left it, and still appends a notification of its own.
pub proof fn lemma_second_verification_changes_no_flag(
    before: Ledger,
    bid: BidView,
    offer: OfferView,
)
    requires
        verdict(bid, offer) is Ok,
    ensures
        ({
            let once = before.verify_match(bid, offer);
            let twice = once.verify_match(bid, offer);
            &&& twice.valid_trades == once.valid_trades
            &&& twice.is_valid(bid.id)
            &&& twice.events == once.events.push(Event::MatchVerified(bid.id, offer.id))
            &&& twice.events.len() == before.events.len() + 2
        }),
{
    let once = before.verify_match(bid, offer);
    let twice = once.verify_match(bid, offer);
    assert(twice.valid_trades =~= once.valid_trades);
}

/// A verification call for one trade identifier leaves the entry of every
/// other identifier as it was: still absent, or present with the same flag.
pub proof fn lemma_other_trades_are_untouched(
    before: Ledger,
    bid: BidView,
    offer: OfferView,
    other: u32,
)
    requires
        other != bid.id,
    ensures
        before.verify_match(bid, offer).valid_trades.contains_key(other)
            == before.valid_trades.contains_key(other),
        before.verify_match(bid, offer).valid_trades[other] == before.valid_trades[other],
        before.verify_match(bid, offer).is_valid(other) == before.is_valid(other),
{
}

/// A trade that is valid stays valid, and a trade becomes valid only through
/// an accepted pair that carries its identifier.
pub proof fn lemma_validity_is_never_withdrawn(
    before: Ledger,
    bid: BidView,
    offer: OfferView,
    trade_id: u32,
)
    ensures
        before.is_valid(trade_id) ==> before.verify_match(bid, offer).is_valid(trade_id),
        !before.is_valid(trade_id) && before.verify_match(bid, offer).is_valid(trade_id) ==> trade_id
            == bid.id && verdict(bid, offer) is Ok,
{
}

/// The registry never holds a `false` flag: the empty state holds none, and
/// no verification call writes one.
pub proof fn lemma_only_valid_entries_are_recorded(before: Ledger, bid: BidView, offer: OfferView)
    ensures
        Ledger::empty().only_valid_entries(),
        before.only_valid_entries() ==> before.verify_match(bid, offer).only_valid_entries(),
{
}

/// What the registry answers after a write: the flag written for the key
/// written, the earlier answer for every other key; and `false` for every
/// key while nothing was written.
pub proof fn lemma_registry_answers(entries: Map<u32, bool>, key: u32, flag: bool, other: u32)
    ensures
        flag_of(entries.insert(key, flag), key) == flag,
        other != key ==> flag_of(entries.insert(key, flag), other) == flag_of(entries, other),
        !flag_of(Map::empty(), key),
{
}

} // verus!
