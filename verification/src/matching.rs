//! The consistency check that decides whether a bid and an offer describe the
//! same trade.

use vstd::prelude::*;
use crate::trade::{optional_bytes, Bid, BidView, Offer, OfferView};

verus! {

/// Why a bid and an offer were not accepted as one trade.
#[derive(Debug, Clone, Copy, PartialEq, Eq, Structural)]
pub enum Error {
    /// The two halves carry different trade identifiers.
    TradeIdMismatch,
    /// The bid names no market, or a market other than the offer's.
    MarketMismatch,
    /// The bid names no asset, or an asset other than the offer's.
    AssetMismatch,
}

/// The outcome of comparing a bid with an offer.
///
/// The trade identifier is compared first, then the market, then the asset,
/// and the first difference found is the one reported. A field that the bid
/// leaves open never agrees with the offer, whose fields are always present.
pub open spec fn verdict(bid: BidView, offer: OfferView) -> Result<(), Error> {
    if bid.id != offer.id {
        Err(Error::TradeIdMismatch)
    } else if bid.market_id != Some(offer.market_id) {
        Err(Error::MarketMismatch)
    } else if bid.asset_id != Some(offer.asset_id) {
        Err(Error::AssetMismatch)
    } else {
        Ok(())
    }
}

/// Whether an optional field of a bid is present and holds exactly the bytes
/// of the offer's field.
fn names_same(field: &Option<Vec<u8>>, required: &Vec<u8>) -> (same: bool)
    ensures
        same == (optional_bytes(*field) == Some(required@)),
{
    match field {
        Some(bytes) => {
            let same = *bytes == *required;
            // Vectors compare by length and by element; sequences with the
            // same length and the same elements are one sequence.
            assert(same == (bytes@ =~= required@));
            same
        },
        None => false,
    }
}

/// Compares a bid with an offer and reports the first disagreement.
///
/// Reads nothing but the two records and changes nothing, so a host that
/// keeps its own registry can decide with it before committing.
pub fn check_match(bid: &Bid, offer: &Offer) -> (outcome: Result<(), Error>)
    ensures
        outcome == verdict(bid@, offer@),
{
    if bid.id != offer.id {
        Err(Error::TradeIdMismatch)
    } else if !names_same(&bid.market_id, &offer.market_id) {
        Err(Error::MarketMismatch)
    } else if !names_same(&bid.asset_id, &offer.asset_id) {
        Err(Error::AssetMismatch)
    } else {
        Ok(())
    }
}

} // verus!
