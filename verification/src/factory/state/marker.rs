//! The marker that records what a user's main SBT is staked on.
use vstd::prelude::*;
use crate::pubkey::{Pubkey, find_program_address, factory_id, factory_id_spec, program_address, found_view, seeds_view};
use crate::seeds::{marker_seed, marker_seed_bytes};

verus! {

/// For each main SBT: the option it is staked on (0 when it is not staked)
/// and the market it was staked in.
#[derive(Clone, Copy, Debug, PartialEq, Eq, Default)]
pub struct Marker {
    pub indicate: u8,
    pub event_market: Option<Pubkey>,
    pub bump: u8,
}

/// The address of the marker of `sbt_mint` owned by `user`.
pub open spec fn marker_address(user: Seq<u8>, sbt_mint: Seq<u8>) -> Option<(Seq<u8>, u8)> {
    program_address(seq![marker_seed(), user, sbt_mint], factory_id_spec())
}

impl Marker {
    pub const LEN: usize = 1 + 33 + 1;

    /// The address of the marker of `sbt_mint_pubkey` owned by `user_pubkey`.
    pub fn find_marker_account(user_pubkey: Pubkey, sbt_mint_pubkey: Pubkey) -> (r: Option<(Pubkey, u8)>)
        ensures
            found_view(r) == marker_address(user_pubkey@, sbt_mint_pubkey@),
    {
        let mut seeds: Vec<Vec<u8>> = Vec::new();
        seeds.push(marker_seed_bytes());
        seeds.push(user_pubkey.to_vec());
        seeds.push(sbt_mint_pubkey.to_vec());
        assert(seeds_view(seeds@) =~= seq![marker_seed(), user_pubkey@, sbt_mint_pubkey@]);
        find_program_address(&seeds, &factory_id())
    }
}

} // verus!
