//! The factory's global configuration.
use vstd::prelude::*;
use crate::error::ErrorCode;
use crate::pubkey::{Pubkey, find_program_address, factory_id, factory_id_spec, program_address, found_view, seeds_view, address_of};
use crate::seeds::{ft_event_mining_pda_seed, ft_event_mining_pda_seed_bytes, ft_stake_mining_pda_seed, ft_stake_mining_pda_seed_bytes, ft_vision_mining_pda_seed, ft_vision_mining_pda_seed_bytes, global_config_seed, global_config_seed_bytes};

verus! {

/// The global configuration: the admins of the factory, and the
/// program-derived authorities that pay out vision mining, event mining and
/// stake mining, with their bumps.
#[derive(Clone, Copy, Debug, PartialEq, Eq, Default)]
pub struct GlobalConfig {
    /// The admin of the factory program.
    pub admin: Pubkey,
    /// The signer who creates event configurations, markets and event SBTs.
    pub governor: Pubkey,
    /// The off-chain supervisor for vision mining.
    pub vision_mining_admin: Pubkey,
    pub vision_mining_pda: Pubkey,
    pub event_mining_pda: Pubkey,
    pub stake_mining_pda: Pubkey,
    pub global_config_bump: u8,
    pub vision_mining_bump: u8,
    pub event_mining_bump: u8,
    pub stake_mining_bump: u8,
}

/// The address of an account derived from the single seed `seed` under the
/// factory program.
pub open spec fn factory_const_address(seed: Seq<u8>) -> Option<(Seq<u8>, u8)> {
    program_address(seq![seed], factory_id_spec())
}

fn find_const_address(seed: Vec<u8>) -> (r: Option<(Pubkey, u8)>)
    ensures
        found_view(r) == factory_const_address(seed@),
{
    let mut seeds: Vec<Vec<u8>> = Vec::new();
    let ghost s = seed@;
    seeds.push(seed);
    assert(seeds_view(seeds@) =~= seq![s]);
    find_program_address(&seeds, &factory_id())
}

impl GlobalConfig {
    pub const LEN: usize = 32 * 5 + 1 * 4;

    /// The address of the global configuration.
    pub fn find_global_config_account() -> (r: Option<(Pubkey, u8)>)
        ensures
            found_view(r) == factory_const_address(global_config_seed()),
    {
        find_const_address(global_config_seed_bytes())
    }

    /// The authority that pays out vision mining.
    pub fn find_vision_mining_authority() -> (r: Option<(Pubkey, u8)>)
        ensures
            found_view(r) == factory_const_address(ft_vision_mining_pda_seed()),
    {
        find_const_address(ft_vision_mining_pda_seed_bytes())
    }

    /// The authority that pays out event mining.
    pub fn find_event_mining_authority() -> (r: Option<(Pubkey, u8)>)
        ensures
            found_view(r) == factory_const_address(ft_event_mining_pda_seed()),
    {
        find_const_address(ft_event_mining_pda_seed_bytes())
    }

    /// The authority that pays out stake mining.
    pub fn find_stake_mining_authority() -> (r: Option<(Pubkey, u8)>)
        ensures
            found_view(r) == factory_const_address(ft_stake_mining_pda_seed()),
    {
        find_const_address(ft_stake_mining_pda_seed_bytes())
    }
}

/// Whether `key` is the address of the global configuration.
pub open spec fn is_global_config_key(key: Pubkey) -> bool {
    address_of(factory_const_address(global_config_seed())) == Some(key@)
}

/// Checks that `key` is the address of the global configuration; any other
/// account is unexpected.
pub fn expect_global_config(key: &Pubkey) -> (r: Result<(), ErrorCode>)
    ensures
        is_global_config_key(*key) ==> r is Ok,
        !is_global_config_key(*key) ==> r == Err::<(), ErrorCode>(ErrorCode::UnexpectedAccount),
{
    match GlobalConfig::find_global_config_account() {
        Some((k, _)) => {
            if k.key_eq(key) {
                Ok(())
            } else {
                Err(ErrorCode::UnexpectedAccount)
            }
        },
        None => Err(ErrorCode::UnexpectedAccount),
    }
}

} // verus!
