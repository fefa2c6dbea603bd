//! Events of the life of event configurations and markets.
use vstd::prelude::*;
use crate::pubkey::Pubkey;

verus! {

/// Emitted when an event configuration is created, or one of its markets is
/// created, opened or finalized.
#[derive(Clone, Copy, Debug, PartialEq, Eq)]
pub struct EventEvent {
    pub event_type: EventEventType,
    pub event_config: Pubkey,
    pub event: Option<Pubkey>,
}

/// What happened.
#[derive(Clone, Copy, Debug, PartialEq, Eq)]
pub enum EventEventType {
    ConfigCreate,
    Create,
    Open,
    Finalize,
}

} // verus!
