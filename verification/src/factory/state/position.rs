//! A general position in an event market.
use vstd::prelude::*;
use crate::factory::state::user_position::opt_key_view;
use crate::pubkey::{Pubkey, find_program_address, factory_id, factory_id_spec, program_address, found_view, seeds_view};
use crate::seeds::{byte_seed, user_position_seed, user_position_seed_bytes};

verus! {

/// What a position is made of.
#[derive(Clone, Copy, Debug, PartialEq, Eq)]
pub enum PositionType {
    EventSBTPosition,
    UserSBTPosition,
    EventTokenPosition,
    UserTokenPosition,
}

/// A position in a market: held by SBT (through a marker) or by tokens.
#[derive(Clone, Copy, Debug, PartialEq, Eq)]
pub struct Position {
    pub event_market: Pubkey,
    pub existed: bool,
    pub position_type: PositionType,
    pub marker: Option<Pubkey>,
    pub amount: Option<u64>,
}

/// The seeds of a position: the market, the option, then the user and the
/// mint if given.
pub open spec fn position_seeds(event_market: Seq<u8>, option_index: u8, user: Option<Seq<u8>>, mint: Option<Seq<u8>>) -> Seq<Seq<u8>> {
    let base = seq![user_position_seed(), event_market, seq![option_index]];
    let with_user = match user {
        Some(u) => base.push(u),
        None => base,
    };
    match mint {
        Some(m) => with_user.push(m),
        None => with_user,
    }
}

impl Position {
    pub const LEN: usize = 32 + 1 + 1 + 33 + 9;

    /// The address of a position in `event_market_pubkey` on option `option_index`.
    pub fn find_user_position_account(
        event_market_pubkey: Pubkey,
        option_index: u8,
        user_pubkey: Option<Pubkey>,
        mint_pubkey: Option<Pubkey>,
    ) -> (r: Option<(Pubkey, u8)>)
        ensures
            found_view(r) == program_address(
                position_seeds(event_market_pubkey@, option_index, opt_key_view(user_pubkey), opt_key_view(mint_pubkey)),
                factory_id_spec()),
    {
        let mut seeds: Vec<Vec<u8>> = Vec::new();
        seeds.push(user_position_seed_bytes());
        seeds.push(event_market_pubkey.to_vec());
        seeds.push(byte_seed(option_index));
        match user_pubkey {
            Some(u) => {
                seeds.push(u.to_vec());
            },
            None => {},
        }
        match mint_pubkey {
            Some(m) => {
                seeds.push(m.to_vec());
            },
            None => {},
        }
        assert(seeds_view(seeds@) =~= position_seeds(event_market_pubkey@, option_index, opt_key_view(user_pubkey), opt_key_view(mint_pubkey)));
        find_program_address(&seeds, &factory_id())
    }
}

} // verus!
