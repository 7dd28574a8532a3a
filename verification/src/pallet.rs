//! The match verifier: the registry of valid trades together with the log of
//! notifications, and the operation that moves both forward.

use vstd::prelude::*;
use core::marker::PhantomData;
use crate::matching::{check_match, verdict, Error};
use crate::registry::{flag_of, ValidTrades};
use crate::trade::{Bid, BidView, Offer, OfferView};

verus! {

/// What the host supplies to the verifier.
pub trait Config {
    /// An authenticated principal. The host has established who is calling
    /// before the verifier is reached; the verifier only carries the value.
    type AccountId;
}

/// A notification appended to the log.
#[derive(Debug, Clone, Copy, PartialEq, Eq, Structural)]
pub enum Event {
    /// A trade identifier was stored. Part of the vocabulary; verification
    /// never emits it.
    TradeIdStored(u32),
    /// A bid and an offer were accepted as one trade. Carries the bid's and
    /// the offer's identifier as submitted.
    MatchVerified(u32, u32),
}

/// Mathematical state of the verifier.
#[verifier::ext_equal]
pub struct Ledger {
    /// Validity flag recorded for each trade identifier.
    pub valid_trades: Map<u32, bool>,
    /// Notifications emitted so far, oldest first.
    pub events: Seq<Event>,
}

impl Ledger {
    /// The state before any trade was verified.
    pub open spec fn empty() -> Ledger {
        Ledger { valid_trades: Map::empty(), events: Seq::empty() }
    }

    /// Whether `trade_id` counts as verified in this state.
    pub open spec fn is_valid(self, trade_id: u32) -> bool {
        flag_of(self.valid_trades, trade_id)
    }

    /// The state after a matching pair was committed: the bid's identifier
    /// is flagged valid and one notification with both identifiers is
    /// appended.
    pub open spec fn commit(self, bid_id: u32, offer_id: u32) -> Ledger {
        Ledger {
            valid_trades: self.valid_trades.insert(bid_id, true),
            events: self.events.push(Event::MatchVerified(bid_id, offer_id)),
        }
    }

    /// The state after one verification call: committed where the pair
    /// matches, untouched where it does not.
    pub open spec fn verify_match(self, bid: BidView, offer: OfferView) -> Ledger {
        if verdict(bid, offer) is Ok {
            self.commit(bid.id, offer.id)
        } else {
            self
        }
    }

    /// No recorded flag is `false`: an identifier is either absent or valid.
    pub open spec fn only_valid_entries(self) -> bool {
        forall|trade_id: u32| #[trigger]
            self.valid_trades.contains_key(trade_id) ==> self.valid_trades[trade_id]
    }
}

/// The bid that separate fields describe: market and asset are present.
pub open spec fn bid_of_fields(
    id: u32,
    market_id: Seq<u8>,
    asset_id: Seq<u8>,
    max_energy: u32,
    time_slot: Seq<u8>,
) -> BidView {
    BidView { id, market_id: Some(market_id), asset_id: Some(asset_id), max_energy, time_slot }
}

/// The offer that separate fields describe.
pub open spec fn offer_of_fields(
    id: u32,
    market_id: Seq<u8>,
    asset_id: Seq<u8>,
    energy_type: Seq<u8>,
    max_energy: u32,
    time_slot: Seq<u8>,
) -> OfferView {
    OfferView { id, market_id, asset_id, energy_type, max_energy, time_slot }
}

/// The match verifier. It owns the registry of valid trades and the log of
/// notifications; nothing else writes either.
pub struct Pallet<T: Config> {
    valid_trades: ValidTrades,
    events: Vec<Event>,
    host: PhantomData<T>,
}

impl<T: Config> View for Pallet<T> {
    type V = Ledger;

    closed spec fn view(&self) -> Ledger {
        Ledger { valid_trades: self.valid_trades@, events: self.events@ }
    }
}

impl<T: Config> Pallet<T> {
    /// A verifier that has seen no trade and emitted nothing.
    pub fn new() -> (pallet: Self)
        ensures
            pallet@ == Ledger::empty(),
    {
        Pallet { valid_trades: ValidTrades::new(), events: Vec::new(), host: PhantomData }
    }

    /// Whether `trade_id` has been verified. An identifier that was never
    /// seen is reported as `false`.
    pub fn valid_trades(&self, trade_id: u32) -> (valid: bool)
        ensures
            valid == self@.is_valid(trade_id),
    {
        self.valid_trades.get(trade_id)
    }

    /// The notifications emitted so far, oldest first.
    pub fn events(&self) -> (log: &Vec<Event>)
        ensures
            log@ == self@.events,
    {
        &self.events
    }

    /// Verifies that `bid` and `offer` are the two halves of one trade and,
    /// if so, records the trade as valid and emits one notification.
    ///
    /// The outcome is that of [`verdict`]. On success the bid's identifier is
    /// flagged valid and `MatchVerified` with both identifiers is appended to
    /// the log. On failure neither the registry nor the log changes. `caller`
    /// is the principal the host authenticated; it takes no part in the
    /// decision.
    pub fn verify_match(&mut self, caller: &T::AccountId, bid: &Bid, offer: &Offer) -> (outcome:
        Result<(), Error>)
        ensures
            outcome == verdict(bid@, offer@),
            final(self)@ == old(self)@.verify_match(bid@, offer@),
    {
        match check_match(bid, offer) {
            Ok(()) => {
                self.valid_trades.insert(bid.id, true);
                self.events.push(Event::MatchVerified(bid.id, offer.id));
                Ok(())
            },
            Err(mismatch) => Err(mismatch),
        }
    }

    /// [`verify_match`](Self::verify_match) for a caller that holds the two
    /// records as separate fields.
    ///
    /// The bid is taken with the market and the asset it was given, so on
    /// this path neither is ever absent; an empty name is a name.
    pub fn verify_match_from_fields(
        &mut self,
        caller: &T::AccountId,
        bid_id: u32,
        bid_market_id: Vec<u8>,
        bid_asset_id: Vec<u8>,
        bid_max_energy: u32,
        bid_time_slot: Vec<u8>,
        offer_id: u32,
        offer_market_id: Vec<u8>,
        offer_asset_id: Vec<u8>,
        offer_energy_type: Vec<u8>,
        offer_max_energy: u32,
        offer_time_slot: Vec<u8>,
    ) -> (outcome: Result<(), Error>)
        ensures
            ({
                let bid = bid_of_fields(
                    bid_id,
                    bid_market_id@,
                    bid_asset_id@,
                    bid_max_energy,
                    bid_time_slot@,
                );
                let offer = offer_of_fields(
                    offer_id,
                    offer_market_id@,
                    offer_asset_id@,
                    offer_energy_type@,
                    offer_max_energy,
                    offer_time_slot@,
                );
                &&& outcome == verdict(bid, offer)
                &&& final(self)@ == old(self)@.verify_match(bid, offer)
            }),
    {
        let bid = Bid {
            id: bid_id,
            market_id: Some(bid_market_id),
            asset_id: Some(bid_asset_id),
            max_energy: bid_max_energy,
            time_slot: bid_time_slot,
        };
        let offer = Offer {
            id: offer_id,
            market_id: offer_market_id,
            asset_id: offer_asset_id,
            energy_type: offer_energy_type,
            max_energy: offer_max_energy,
            time_slot: offer_time_slot,
        };
        self.verify_match(caller, &bid, &offer)
    }
}

} // verus!
