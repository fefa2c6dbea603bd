//! The configuration of a prediction event.
use vstd::prelude::*;
use crate::factory::state::url::UriResource;
use crate::pubkey::{Pubkey, find_program_address, factory_id, factory_id_spec, program_address, found_view, seeds_view};
use crate::seeds::{event_seed, event_seed_bytes};

verus! {

/// The kinds of event.
#[derive(Clone, Copy, Debug, PartialEq, Eq)]
pub enum EventType {
    RawDataEventMarket,
    PhaseEventMarket,
    NonPredictEvent,
}

/// An event configuration: who created it and who resolves its markets,
/// the oracle it follows, how many options its markets offer, how many
/// markets it has created, and the metadata of its SBTs.
#[derive(Clone, Copy, Debug, PartialEq, Eq)]
pub struct EventConfig {
    pub creator: Pubkey,
    pub resolver: Pubkey,
    pub event_type: EventType,
    pub oracle_config: Pubkey,
    pub option: u8,
    pub index: u64,
    pub bump: u8,
    pub metadata_json_url: UriResource,
}

/// The address of the event configuration that follows `oracle_config`.
pub open spec fn event_config_address(oracle_config: Seq<u8>) -> Option<(Seq<u8>, u8)> {
    program_address(seq![event_seed(), oracle_config], factory_id_spec())
}

impl EventConfig {
    pub const LEN: usize = 32 + 32 + 1 + 32 + 1 + 8 + 1 + UriResource::LEN;

    /// The address of the event configuration that follows `oracle_config_pubkey`.
    pub fn find_event_config_account(oracle_config_pubkey: Pubkey) -> (r: Option<(Pubkey, u8)>)
        ensures
            found_view(r) == event_config_address(oracle_config_pubkey@),
    {
        let mut seeds: Vec<Vec<u8>> = Vec::new();
        seeds.push(event_seed_bytes());
        seeds.push(oracle_config_pubkey.to_vec());
        assert(seeds_view(seeds@) =~= seq![event_seed(), oracle_config_pubkey@]);
        find_program_address(&seeds, &factory_id())
    }
}

} // verus!
