//! The configuration of the fungible token's mint, and the addresses of
//! mints, mint authorities and Metaplex accounts.
use vstd::prelude::*;
use crate::factory::state::user_position::opt_key_view;
use crate::pubkey::{Pubkey, find_program_address, factory_id, factory_id_spec, token_metadata_id,
    token_metadata_id_spec, program_address, found_view, seeds_view};
use crate::seeds::{authority_seed, authority_seed_bytes, edition_seed, edition_seed_bytes, metadata_seed, metadata_seed_bytes, mint_config_seed, mint_config_seed_bytes, mint_seed, mint_seed_bytes};

verus! {

/// The fungible token's mint, its metadata account, and their bumps.
#[derive(Clone, Copy, Debug, PartialEq, Eq, Default)]
pub struct MintConfig {
    pub mint: Pubkey,
    pub metadata: Pubkey,
    pub mint_bump: u8,
    pub config_bump: u8,
    pub metadata_bump: u8,
    pub authority_bump: u8,
}

/// The seeds of an account keyed by `seed` and, if given, an event
/// configuration.
pub open spec fn config_scoped_seeds(seed: Seq<u8>, event_config: Option<Seq<u8>>) -> Seq<Seq<u8>> {
    match event_config {
        Some(c) => seq![seed, c],
        None => seq![seed],
    }
}

/// The address of the authority of `mint`.
pub open spec fn mint_authority_address(mint: Seq<u8>) -> Option<(Seq<u8>, u8)> {
    program_address(seq![authority_seed(), mint], factory_id_spec())
}

/// The address of the Metaplex metadata account of `mint`.
pub open spec fn metadata_address(mint: Seq<u8>) -> Option<(Seq<u8>, u8)> {
    program_address(seq![metadata_seed(), token_metadata_id_spec(), mint], token_metadata_id_spec())
}

/// The address of the Metaplex master edition account of `mint`.
pub open spec fn master_edition_address(mint: Seq<u8>) -> Option<(Seq<u8>, u8)> {
    program_address(seq![metadata_seed(), token_metadata_id_spec(), mint, edition_seed()], token_metadata_id_spec())
}

fn find_config_scoped(seed: Vec<u8>, event_config: Option<Pubkey>) -> (r: Option<(Pubkey, u8)>)
    ensures
        found_view(r) == program_address(config_scoped_seeds(seed@, opt_key_view(event_config)), factory_id_spec()),
{
    let ghost s = seed@;
    let mut seeds: Vec<Vec<u8>> = Vec::new();
    seeds.push(seed);
    match event_config {
        Some(c) => {
            seeds.push(c.to_vec());
        },
        None => {},
    }
    assert(seeds_view(seeds@) =~= config_scoped_seeds(s, opt_key_view(event_config)));
    find_program_address(&seeds, &factory_id())
}

impl MintConfig {
    pub const LEN: usize = 32 * 2 + 1 * 4;

    /// The address of the fungible mint, or of the mint of an event
    /// configuration.
    pub fn find_mint(event_config: Option<Pubkey>) -> (r: Option<(Pubkey, u8)>)
        ensures
            found_view(r) == program_address(config_scoped_seeds(mint_seed(), opt_key_view(event_config)), factory_id_spec()),
    {
        find_config_scoped(mint_seed_bytes(), event_config)
    }

    /// The address of the mint configuration, or of that of an event
    /// configuration.
    pub fn find_mint_config(event_config: Option<Pubkey>) -> (r: Option<(Pubkey, u8)>)
        ensures
            found_view(r) == program_address(config_scoped_seeds(mint_config_seed(), opt_key_view(event_config)), factory_id_spec()),
    {
        find_config_scoped(mint_config_seed_bytes(), event_config)
    }

    /// The address of the authority of `mint`.
    pub fn find_authority(mint: Pubkey) -> (r: Option<(Pubkey, u8)>)
        ensures
            found_view(r) == mint_authority_address(mint@),
    {
        let mut seeds: Vec<Vec<u8>> = Vec::new();
        seeds.push(authority_seed_bytes());
        seeds.push(mint.to_vec());
        assert(seeds_view(seeds@) =~= seq![authority_seed(), mint@]);
        find_program_address(&seeds, &factory_id())
    }

    /// The address of the Metaplex metadata account of `mint`.
    pub fn find_metadata(mint: Pubkey) -> (r: Option<(Pubkey, u8)>)
        ensures
            found_view(r) == metadata_address(mint@),
    {
        let metadata_program_id = token_metadata_id();
        let mut seeds: Vec<Vec<u8>> = Vec::new();
        seeds.push(metadata_seed_bytes());
        seeds.push(metadata_program_id.to_vec());
        seeds.push(mint.to_vec());
        assert(seeds_view(seeds@) =~= seq![metadata_seed(), token_metadata_id_spec(), mint@]);
        find_program_address(&seeds, &metadata_program_id)
    }

    /// The address of the Metaplex master edition account of `mint`.
    pub fn find_master_edition(mint: Pubkey) -> (r: Option<(Pubkey, u8)>)
        ensures
            found_view(r) == master_edition_address(mint@),
    {
        let metadata_program_id = token_metadata_id();
        let mut seeds: Vec<Vec<u8>> = Vec::new();
        seeds.push(metadata_seed_bytes());
        seeds.push(metadata_program_id.to_vec());
        seeds.push(mint.to_vec());
        seeds.push(edition_seed_bytes());
        assert(seeds_view(seeds@) =~= seq![metadata_seed(), token_metadata_id_spec(), mint@, edition_seed()]);
        find_program_address(&seeds, &metadata_program_id)
    }
}

} // verus!
