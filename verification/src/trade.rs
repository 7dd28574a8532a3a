//! The two halves of a proposed trade.

use vstd::prelude::*;

verus! {

/// A request to consume energy. The market and the asset may be left open.
#[derive(Debug, Clone, PartialEq, Eq, Default)]
pub struct Bid {
    /// Identifier of the trade this bid is one half of.
    pub id: u32,
    /// Market the bid is placed on; `None` is distinct from an empty name.
    pub market_id: Option<Vec<u8>>,
    /// Asset the energy is asked for.
    pub asset_id: Option<Vec<u8>>,
    /// Largest quantity of energy asked for.
    pub max_energy: u32,
    /// Encoded trading interval.
    pub time_slot: Vec<u8>,
}

/// A proposed supply of energy. Market and asset are always named.
#[derive(Debug, Clone, PartialEq, Eq, Default)]
pub struct Offer {
    /// Identifier of the trade this offer is one half of.
    pub id: u32,
    /// Market the offer is placed on.
    pub market_id: Vec<u8>,
    /// Asset that supplies the energy.
    pub asset_id: Vec<u8>,
    /// Category of the energy offered.
    pub energy_type: Vec<u8>,
    /// Largest quantity of energy offered.
    pub max_energy: u32,
    /// Encoded trading interval.
    pub time_slot: Vec<u8>,
}

/// Mathematical value of a [`Bid`]: byte vectors become sequences.
pub struct BidView {
    pub id: u32,
    pub market_id: Option<Seq<u8>>,
    pub asset_id: Option<Seq<u8>>,
    pub max_energy: u32,
    pub time_slot: Seq<u8>,
}

/// Mathematical value of an [`Offer`].
pub struct OfferView {
    pub id: u32,
    pub market_id: Seq<u8>,
    pub asset_id: Seq<u8>,
    pub energy_type: Seq<u8>,
    pub max_energy: u32,
    pub time_slot: Seq<u8>,
}

/// Sequence of bytes held by an optional byte vector.
pub open spec fn optional_bytes(field: Option<Vec<u8>>) -> Option<Seq<u8>> {
    match field {
        Some(bytes) => Some(bytes@),
        None => None,
    }
}

impl View for Bid {
    type V = BidView;

    open spec fn view(&self) -> BidView {
        BidView {
            id: self.id,
            market_id: optional_bytes(self.market_id),
            asset_id: optional_bytes(self.asset_id),
            max_energy: self.max_energy,
            time_slot: self.time_slot@,
        }
    }
}

impl View for Offer {
    type V = OfferView;

    open spec fn view(&self) -> OfferView {
        OfferView {
            id: self.id,
            market_id: self.market_id@,
            asset_id: self.asset_id@,
            energy_type: self.energy_type@,
            max_energy: self.max_energy,
            time_slot: self.time_slot@,
        }
    }
}

} // verus!
