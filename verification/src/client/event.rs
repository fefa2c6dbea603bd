//! The addresses the feeder derives before it calls the prediction-market
//! program: under the program ids of its configuration, the Metaplex
//! program and the associated token program.
use vstd::prelude::*;
use vstd::string::StrSliceExecFns;
use crate::client::conf::ClientConfig;
use crate::factory::state::mint_config::{MintConfig, metadata_address, master_edition_address};
use crate::factory::utils::{ata_address, get_ata};
use crate::pubkey::{Pubkey, decoded_pubkey, parse_pubkey, find_program_address, program_address,
    address_of, seeds_view, token_2022_id, token_2022_id_spec};
use crate::seeds::{authority_seed, authority_seed_bytes, be_bytes, byte_seed, event_market_seed,
    event_market_seed_bytes, event_seed, event_seed_bytes, oracle_config_seed, oracle_config_seed_bytes,
    oracle_data_seed, oracle_data_seed_bytes, sbt_mint_seed, sbt_mint_seed_bytes, u64_to_be_bytes};

verus! {

/// Why an address could not be derived.
#[derive(Clone, Copy, Debug, PartialEq, Eq)]
pub enum AddressError {
    /// A configured program id is not a base58 address.
    InvalidProgramId,
    /// The address search found no address.
    NotFound,
}

/// The address derived from `seeds` under the program whose id is the text
/// `program`.
pub open spec fn derived(program: Seq<char>, seeds: Seq<Seq<u8>>) -> Result<Seq<u8>, AddressError> {
    match decoded_pubkey(program) {
        None => Err(AddressError::InvalidProgramId),
        Some(p) => match address_of(program_address(seeds, p)) {
            None => Err(AddressError::NotFound),
            Some(a) => Ok(a),
        },
    }
}

/// The view of a derived address.
pub open spec fn key_result(r: Result<Pubkey, AddressError>) -> Result<Seq<u8>, AddressError> {
    match r {
        Ok(k) => Ok(k@),
        Err(e) => Err(e),
    }
}

/// The view of a found address.
pub open spec fn found_key(r: Option<Pubkey>) -> Option<Seq<u8>> {
    match r {
        Some(k) => Some(k@),
        None => None,
    }
}

/// Derives the address of `seeds` under the program whose id is the text
/// `program`.
fn derive(program: &str, seeds: &Vec<Vec<u8>>) -> (r: Result<Pubkey, AddressError>)
    ensures
        key_result(r) == derived(program@, seeds_view(seeds@)),
{
    let program_id = match parse_pubkey(program) {
        Some(p) => p,
        None => return Err(AddressError::InvalidProgramId),
    };
    match find_program_address(seeds, &program_id) {
        Some((k, _)) => Ok(k),
        None => Err(AddressError::NotFound),
    }
}

/// Chains a derivation on an earlier one.
pub open spec fn then_derived(
    first: Result<Seq<u8>, AddressError>,
    next: spec_fn(Seq<u8>) -> Result<Seq<u8>, AddressError>,
) -> Result<Seq<u8>, AddressError> {
    match first {
        Ok(a) => next(a),
        Err(e) => Err(e),
    }
}

/// The oracle configuration named `name`, under the configured oracle
/// program.
pub open spec fn oracle_config_key(cfg: ClientConfig, name: Seq<char>) -> Result<Seq<u8>, AddressError> {
    derived(cfg.oracle.program_id@, seq![oracle_config_seed(), vstd::utf8::encode_utf8(name)])
}

/// The oracle data account of the configuration named `name`.
pub open spec fn oracle_data_key(cfg: ClientConfig, name: Seq<char>) -> Result<Seq<u8>, AddressError> {
    then_derived(
        oracle_config_key(cfg, name),
        |c: Seq<u8>| derived(cfg.oracle.program_id@, seq![oracle_data_seed(), c]),
    )
}

/// The event configuration of the oracle configuration named `name`.
pub open spec fn event_config_key(cfg: ClientConfig, name: Seq<char>) -> Result<Seq<u8>, AddressError> {
    then_derived(
        oracle_config_key(cfg, name),
        |c: Seq<u8>| derived(cfg.event.program_id@, seq![event_seed(), c]),
    )
}

/// The market of the oracle configuration named `name` that opens at
/// `open_ts`.
pub open spec fn event_market_key(cfg: ClientConfig, name: Seq<char>, open_ts: u64) -> Result<
    Seq<u8>,
    AddressError,
> {
    then_derived(
        oracle_config_key(cfg, name),
        |c: Seq<u8>| derived(cfg.event.program_id@, seq![event_market_seed(), c, be_bytes(open_ts)]),
    )
}

/// The addresses of the prediction-market accounts, from the configured
/// program ids.
#[derive(Clone, Debug)]
pub struct EventCaller {
    pub config: ClientConfig,
}

impl EventCaller {
    /// A caller for the configuration.
    pub fn new(cfg: ClientConfig) -> (c: EventCaller)
        ensures
            c.config == cfg,
    {
        EventCaller { config: cfg }
    }

    /// The address derived from `seeds` under `program_pubkey`.
    pub fn get_pda(program_pubkey: &Pubkey, seeds: &Vec<Vec<u8>>) -> (r: Option<Pubkey>)
        ensures
            found_key(r) == address_of(program_address(seeds_view(seeds@), program_pubkey@)),
    {
        match find_program_address(seeds, program_pubkey) {
            Some((k, _)) => Some(k),
            None => None,
        }
    }

    /// The address derived from the single seed `name` under the
    /// prediction-market program.
    pub fn get_const_name_pda(&self, name: &[u8]) -> (r: Result<Pubkey, AddressError>)
        ensures
            key_result(r) == derived(self.config.event.program_id@, seq![name@]),
    {
        let mut seeds: Vec<Vec<u8>> = Vec::new();
        seeds.push(vstd::slice::slice_to_vec(name));
        assert(seeds_view(seeds@) =~= seq![name@]);
        derive(self.config.event.program_id.as_str(), &seeds)
    }

    /// The authority of `mint_pubkey` under the prediction-market program.
    pub fn get_authority(&self, mint_pubkey: &Pubkey) -> (r: Result<Pubkey, AddressError>)
        ensures
            key_result(r) == derived(self.config.event.program_id@, seq![authority_seed(), mint_pubkey@]),
    {
        let mut seeds: Vec<Vec<u8>> = Vec::new();
        seeds.push(authority_seed_bytes());
        seeds.push(mint_pubkey.to_vec());
        assert(seeds_view(seeds@) =~= seq![authority_seed(), mint_pubkey@]);
        derive(self.config.event.program_id.as_str(), &seeds)
    }

    /// The Metaplex metadata account of `mint_pubkey`.
    pub fn get_metadata(&self, mint_pubkey: &Pubkey) -> (r: Option<Pubkey>)
        ensures
            found_key(r) == address_of(metadata_address(mint_pubkey@)),
    {
        match MintConfig::find_metadata(*mint_pubkey) {
            Some((k, _)) => Some(k),
            None => None,
        }
    }

    /// The Metaplex master edition account of `mint_pubkey`.
    pub fn get_edition(&self, mint_pubkey: &Pubkey) -> (r: Option<Pubkey>)
        ensures
            found_key(r) == address_of(master_edition_address(mint_pubkey@)),
    {
        match MintConfig::find_master_edition(*mint_pubkey) {
            Some((k, _)) => Some(k),
            None => None,
        }
    }

    /// The Token-2022 associated token account of `user_pubkey` for
    /// `mint_pubkey`.
    pub fn get_token_account(&self, user_pubkey: &Pubkey, mint_pubkey: &Pubkey) -> (r: Option<Pubkey>)
        ensures
            found_key(r) == ata_address(user_pubkey@, mint_pubkey@, token_2022_id_spec()),
    {
        get_ata(user_pubkey, mint_pubkey, &token_2022_id())
    }

    /// The oracle configuration named `name`.
    pub fn get_oracle_config(&self, name: &str) -> (r: Result<Pubkey, AddressError>)
        ensures
            key_result(r) == oracle_config_key(self.config, name@),
    {
        let mut seeds: Vec<Vec<u8>> = Vec::new();
        seeds.push(oracle_config_seed_bytes());
        seeds.push(name.as_bytes_vec());
        assert(seeds_view(seeds@) =~= seq![oracle_config_seed(), vstd::utf8::encode_utf8(name@)]);
        derive(self.config.oracle.program_id.as_str(), &seeds)
    }

    /// The oracle data account of the configuration named `name`.
    pub fn get_oracle_data(&self, name: &str) -> (r: Result<Pubkey, AddressError>)
        ensures
            key_result(r) == oracle_data_key(self.config, name@),
    {
        let oracle_config = self.get_oracle_config(name)?;
        let mut seeds: Vec<Vec<u8>> = Vec::new();
        seeds.push(oracle_data_seed_bytes());
        seeds.push(oracle_config.to_vec());
        assert(seeds_view(seeds@) =~= seq![oracle_data_seed(), oracle_config@]);
        derive(self.config.oracle.program_id.as_str(), &seeds)
    }

    /// The event configuration of the oracle configuration named `name`.
    pub fn get_event_config(&self, name: &str) -> (r: Result<Pubkey, AddressError>)
        ensures
            key_result(r) == event_config_key(self.config, name@),
    {
        let oracle_config = self.get_oracle_config(name)?;
        let mut seeds: Vec<Vec<u8>> = Vec::new();
        seeds.push(event_seed_bytes());
        seeds.push(oracle_config.to_vec());
        assert(seeds_view(seeds@) =~= seq![event_seed(), oracle_config@]);
        derive(self.config.event.program_id.as_str(), &seeds)
    }

    /// The market of the oracle configuration named `name` that opens at
    /// `open_ts`.
    pub fn get_event_market(&self, name: &str, open_ts: u64) -> (r: Result<Pubkey, AddressError>)
        ensures
            key_result(r) == event_market_key(self.config, name@, open_ts),
    {
        let oracle_config = self.get_oracle_config(name)?;
        let mut seeds: Vec<Vec<u8>> = Vec::new();
        seeds.push(event_market_seed_bytes());
        seeds.push(oracle_config.to_vec());
        seeds.push(u64_to_be_bytes(open_ts));
        assert(seeds_view(seeds@) =~= seq![event_market_seed(), oracle_config@, be_bytes(open_ts)]);
        derive(self.config.event.program_id.as_str(), &seeds)
    }

    /// The mint of the master edition of the SBT of `option` in
    /// `event_config`.
    pub fn get_event_sbt_master_edition_mint(&self, event_config: &Pubkey, option: u8) -> (r: Result<
        Pubkey,
        AddressError,
    >)
        ensures
            key_result(r) == derived(
                self.config.event.program_id@,
                seq![sbt_mint_seed(), event_config@, seq![option]],
            ),
    {
        let mut seeds: Vec<Vec<u8>> = Vec::new();
        seeds.push(sbt_mint_seed_bytes());
        seeds.push(event_config.to_vec());
        seeds.push(byte_seed(option));
        assert(seeds_view(seeds@) =~= seq![sbt_mint_seed(), event_config@, seq![option]]);
        derive(self.config.event.program_id.as_str(), &seeds)
    }
}

} // verus!
