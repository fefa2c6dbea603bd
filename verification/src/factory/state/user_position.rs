//! A user's position in an event market.
use vstd::prelude::*;
use crate::pubkey::{Pubkey, zero_key, new_zero_key, find_program_address, factory_id, factory_id_spec, program_address, found_view, seeds_view};
use crate::seeds::{user_position_seed, user_position_seed_bytes};

verus! {

/// What a position is made of.
#[derive(Clone, Copy, Debug, PartialEq, Eq)]
pub enum PositionType {
    UserSBTPosition,
    EventSBTPosition,
}

/// A user's position in a market: whether it exists, and the marker of the
/// SBT staked.
#[derive(Clone, Copy, Debug, PartialEq, Eq)]
pub struct UserPosition {
    pub position_type: PositionType,
    pub existed: bool,
    pub marker: Pubkey,
}

impl UserPosition {
    pub const LEN: usize = 1 + 1 + 32;

    /// The data of a position account that does not exist (yet, or any more).
    pub open spec fn vacant() -> UserPosition {
        UserPosition { position_type: PositionType::UserSBTPosition, existed: false, marker: zero_key() }
    }

    /// The data of a position account that does not exist.
    pub fn new_vacant() -> (p: UserPosition)
        ensures
            p == Self::vacant(),
    {
        UserPosition { position_type: PositionType::UserSBTPosition, existed: false, marker: new_zero_key() }
    }
}

/// The seeds of a user position: the market, the user, then the mint if one
/// is given.
pub open spec fn user_position_seeds(event_market: Seq<u8>, user: Seq<u8>, mint: Option<Seq<u8>>) -> Seq<Seq<u8>> {
    match mint {
        Some(m) => seq![user_position_seed(), event_market, user, m],
        None => seq![user_position_seed(), event_market, user],
    }
}

/// The view of an optional key.
pub open spec fn opt_key_view(k: Option<Pubkey>) -> Option<Seq<u8>> {
    match k {
        Some(p) => Some(p@),
        None => None,
    }
}

impl UserPosition {
    /// The address of the position of `user_pubkey` in `event_market_pubkey`.
    pub fn find_user_position_account(event_market_pubkey: Pubkey, user_pubkey: Pubkey, mint_pubkey: Option<Pubkey>) -> (r: Option<(Pubkey, u8)>)
        ensures
            found_view(r) == program_address(
                user_position_seeds(event_market_pubkey@, user_pubkey@, opt_key_view(mint_pubkey)), factory_id_spec()),
    {
        let mut seeds: Vec<Vec<u8>> = Vec::new();
        seeds.push(user_position_seed_bytes());
        seeds.push(event_market_pubkey.to_vec());
        seeds.push(user_pubkey.to_vec());
        match mint_pubkey {
            Some(m) => {
                seeds.push(m.to_vec());
            },
            None => {},
        }
        assert(seeds_view(seeds@) =~= user_position_seeds(event_market_pubkey@, user_pubkey@, opt_key_view(mint_pubkey)));
        find_program_address(&seeds, &factory_id())
    }
}

} // verus!
