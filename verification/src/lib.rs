//! Match verification for an energy-trading ledger.
//!
//! A trade is proposed as two halves, a [`Bid`] and an [`Offer`], that carry
//! the same trade identifier. [`Pallet::verify_match`] checks that the two
//! halves agree on trade, market and asset and, when they do, records the
//! trade as valid and logs a notification. Every function is verified against
//! a mathematical model of the records, the registry and the event log.

pub mod guarantees;
pub mod matching;
pub mod pallet;
pub mod registry;
pub mod trade;

pub use matching::{check_match, verdict, Error};
pub use pallet::{bid_of_fields, offer_of_fields, Config, Event, Ledger, Pallet};
pub use registry::{flag_of, ValidTrades};
pub use trade::{Bid, BidView, Offer, OfferView};
