//! A market of an event: one round of prediction.
use vstd::prelude::*;
use crate::pubkey::{Pubkey, find_program_address, factory_id, factory_id_spec, program_address, found_view, seeds_view};
use crate::seeds::{be_bytes, event_market_seed, event_market_seed_bytes, u64_to_be_bytes};

verus! {

/// A market: the oracle value and phase when it opened, the number of
/// options, the winning option (0 until resolved), the prize of a winner,
/// when it opened, closes and stops taking choices, and whether it takes
/// choices.
#[derive(Clone, Copy, Debug, PartialEq, Eq)]
pub struct EventMarket {
    pub event_config: Pubkey,
    pub open_raw_data: Option<u64>,
    pub open_phase: Option<u8>,
    pub option: u8,
    pub result: u8,
    pub prize: u64,
    pub open_slot: u64,
    pub open_ts: u64,
    pub close_ts: u64,
    pub expiry_ts: u64,
    pub is_opened: bool,
    pub bump: u8,
}

/// The address of the market of `oracle_config` that opens at `open_ts`.
pub open spec fn event_market_address(oracle_config: Seq<u8>, open_ts: u64) -> Option<(Seq<u8>, u8)> {
    program_address(seq![event_market_seed(), oracle_config, be_bytes(open_ts)], factory_id_spec())
}

impl EventMarket {
    pub const LEN: usize = 32 + 9 + 2 + 1 * 2 + 8 * 5 + 1 * 2;

    /// The address of the market of `oracle_config_pubkey` that opens at `open_ts`.
    pub fn find_event_market_account(oracle_config_pubkey: Pubkey, open_ts: u64) -> (r: Option<(Pubkey, u8)>)
        ensures
            found_view(r) == event_market_address(oracle_config_pubkey@, open_ts),
    {
        let mut seeds: Vec<Vec<u8>> = Vec::new();
        seeds.push(event_market_seed_bytes());
        seeds.push(oracle_config_pubkey.to_vec());
        seeds.push(u64_to_be_bytes(open_ts));
        assert(seeds_view(seeds@) =~= seq![event_market_seed(), oracle_config_pubkey@, be_bytes(open_ts)]);
        find_program_address(&seeds, &factory_id())
    }
}

} // verus!
