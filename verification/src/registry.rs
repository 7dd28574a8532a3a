//! The registry of trades that have passed verification.

use vstd::prelude::*;
use std::collections::HashMap;

verus! {

/// The flag a registry reports for a trade identifier: the stored flag where
/// one is recorded, `false` (not yet verified) where none is.
pub open spec fn flag_of(entries: Map<u32, bool>, trade_id: u32) -> bool {
    entries.contains_key(trade_id) && entries[trade_id]
}

/// Validity flags keyed by trade identifier.
///
/// Each key is held once. Its mathematical value is the map of the flags
/// recorded so far.
pub struct ValidTrades {
    entries: HashMap<u32, bool>,
}

impl View for ValidTrades {
    type V = Map<u32, bool>;

    closed spec fn view(&self) -> Map<u32, bool> {
        self.entries@
    }
}

impl ValidTrades {
    /// A registry in which no trade is recorded.
    pub fn new() -> (registry: Self)
        ensures
            registry@ == Map::<u32, bool>::empty(),
    {
        ValidTrades { entries: HashMap::new() }
    }

    /// The flag recorded for `trade_id`, or `false` where none is.
    pub fn get(&self, trade_id: u32) -> (flag: bool)
        ensures
            flag == flag_of(self@, trade_id),
    {
        match self.entries.get(&trade_id) {
            Some(flag) => *flag,
            None => false,
        }
    }

    /// Records `flag` for `trade_id`, replacing what was recorded before and
    /// leaving every other entry as it was.
    pub fn insert(&mut self, trade_id: u32, flag: bool)
        ensures
            final(self)@ == old(self)@.insert(trade_id, flag),
    {
        self.entries.insert(trade_id, flag);
    }
}

} // verus!
