//! Events of market state changes.
use vstd::prelude::*;
use crate::pubkey::Pubkey;

verus! {

/// Emitted when a market is created, opened or finalized.
#[derive(Clone, Copy, Debug, PartialEq, Eq)]
pub struct EventMarketEvent {
    pub event_type: EventMarketEventType,
    pub market: Pubkey,
}

/// What happened to the market.
#[derive(Clone, Copy, Debug, PartialEq, Eq)]
pub enum EventMarketEventType {
    Create,
    Open,
    Finalize,
}

} // verus!
