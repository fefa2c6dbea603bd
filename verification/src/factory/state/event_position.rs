//! The tally of an option in an event market.
use vstd::prelude::*;
use crate::factory::state::user_position::{PositionType, opt_key_view};
use crate::pubkey::{Pubkey, find_program_address, factory_id, factory_id_spec, program_address, found_view, seeds_view};
use crate::seeds::{byte_seed, event_position_seed, event_position_seed_bytes};

verus! {

/// How many SBTs are staked on one option of a market.
#[derive(Clone, Copy, Debug, PartialEq, Eq)]
pub struct EventPosition {
    pub position_type: PositionType,
    pub amount: u64,
}

/// The seeds of an option's tally: the market, the option, then the mint if
/// one is given.
pub open spec fn event_position_seeds(event_market: Seq<u8>, option_index: u8, mint: Option<Seq<u8>>) -> Seq<Seq<u8>> {
    match mint {
        Some(m) => seq![event_position_seed(), event_market, seq![option_index], m],
        None => seq![event_position_seed(), event_market, seq![option_index]],
    }
}

impl EventPosition {
    pub const LEN: usize = 1 + 8;

    /// The address of the tally of option `option_index` in `event_market_pubkey`.
    pub fn find_event_position_account(event_market_pubkey: Pubkey, option_index: u8, mint_pubkey: Option<Pubkey>) -> (r: Option<(Pubkey, u8)>)
        ensures
            found_view(r) == program_address(
                event_position_seeds(event_market_pubkey@, option_index, opt_key_view(mint_pubkey)), factory_id_spec()),
    {
        let mut seeds: Vec<Vec<u8>> = Vec::new();
        seeds.push(event_position_seed_bytes());
        seeds.push(event_market_pubkey.to_vec());
        seeds.push(byte_seed(option_index));
        match mint_pubkey {
            Some(m) => {
                seeds.push(m.to_vec());
            },
            None => {},
        }
        assert(seeds_view(seeds@) =~= event_position_seeds(event_market_pubkey@, option_index, opt_key_view(mint_pubkey)));
        find_program_address(&seeds, &factory_id())
    }
}

} // verus!
