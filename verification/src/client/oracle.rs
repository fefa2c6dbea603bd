//! What the feeder computes before it calls the oracle program: the
//! addresses of its accounts, the checks on its configuration, and the data
//! it submits.
use vstd::prelude::*;
use vstd::string::StrSliceExecFns;
use crate::client::conf::{ClientConfig, OracleConfig};
use crate::client::error::ClientError;
use crate::pubkey::{Pubkey, find_program_address, monitor_id, monitor_id_spec, program_address,
    found_view, seeds_view};
use crate::seeds::{oracle_config_seed, oracle_config_seed_bytes, oracle_data_seed, oracle_data_seed_bytes};
use crate::strings::byte_len;

verus! {

/// The data the feeder submits to the oracle.
#[derive(Clone, Copy, Debug, PartialEq, Eq)]
pub struct OracleDataRequest {
    pub phase: u8,
    pub raw_data: u64,
    pub decimals: u8,
}

/// The longest configuration name the feeder sends, in bytes.
pub const MAX_CONFIG_NAME_LEN: usize = 31;

/// The longest configuration description the feeder sends, in bytes.
pub const MAX_CONFIG_DESCRIPTION_LEN: usize = 200;

/// The outcome of the checks made before an oracle configuration is
/// created: the name first, then the description.
pub open spec fn oracle_config_check(name: Seq<char>, description: Seq<char>) -> Result<(), Seq<char>> {
    if byte_len(name) > MAX_CONFIG_NAME_LEN {
        Err("name"@)
    } else if byte_len(description) > MAX_CONFIG_DESCRIPTION_LEN {
        Err("description"@)
    } else {
        Ok(())
    }
}

/// Checks the name and description of the oracle configuration to create;
/// a parameter that is too long is reported by its name.
pub fn check_oracle_config(oracle: &OracleConfig) -> (r: Result<(), ClientError>)
    ensures
        match oracle_config_check(oracle.config_name@, oracle.config_description@) {
            Ok(()) => r is Ok,
            Err(p) => r matches Err(ClientError::InvalidParam(q)) && q@ == p,
        },
{
    if oracle.config_name.as_str().len() > MAX_CONFIG_NAME_LEN {
        return Err(ClientError::InvalidParam("name".to_owned()));
    }
    if oracle.config_description.as_str().len() > MAX_CONFIG_DESCRIPTION_LEN {
        return Err(ClientError::InvalidParam("description".to_owned()));
    }
    Ok(())
}

/// The address and bump of the oracle configuration named `name`.
pub open spec fn oracle_config_pda(name: Seq<char>) -> Option<(Seq<u8>, u8)> {
    program_address(seq![oracle_config_seed(), vstd::utf8::encode_utf8(name)], monitor_id_spec())
}

/// The address and bump of the oracle data account of the configuration at
/// `config`.
pub open spec fn oracle_data_pda(config: Seq<u8>) -> Option<(Seq<u8>, u8)> {
    program_address(seq![oracle_data_seed(), config], monitor_id_spec())
}

/// The oracle accounts the feeder writes to, with their bumps.
#[derive(Clone, Copy, Debug)]
pub struct OraclePdas {
    pub config_pda: (Pubkey, u8),
    pub data_pda: (Pubkey, u8),
}

/// Finds the configuration and data accounts of the oracle named `name`;
/// `None` when either address search finds none.
pub fn oracle_pdas(name: &str) -> (r: Option<OraclePdas>)
    ensures
        match r {
            Some(p) => {
                &&& oracle_config_pda(name@) == found_view(Some(p.config_pda))
                &&& oracle_data_pda(p.config_pda.0@) == found_view(Some(p.data_pda))
            },
            None => oracle_config_pda(name@) is None || oracle_data_pda(
                oracle_config_pda(name@)->Some_0.0,
            ) is None,
        },
{
    let mut seeds: Vec<Vec<u8>> = Vec::new();
    seeds.push(oracle_config_seed_bytes());
    seeds.push(name.as_bytes_vec());
    assert(seeds_view(seeds@) =~= seq![oracle_config_seed(), vstd::utf8::encode_utf8(name@)]);
    let config_pda = match find_program_address(&seeds, &monitor_id()) {
        Some(found) => found,
        None => return None,
    };
    let mut data_seeds: Vec<Vec<u8>> = Vec::new();
    data_seeds.push(oracle_data_seed_bytes());
    data_seeds.push(config_pda.0.to_vec());
    assert(seeds_view(data_seeds@) =~= seq![oracle_data_seed(), config_pda.0@]);
    let data_pda = match find_program_address(&data_seeds, &monitor_id()) {
        Some(found) => found,
        None => return None,
    };
    Some(OraclePdas { config_pda, data_pda })
}

/// The oracle accounts of the configured oracle, and the configuration.
#[derive(Debug)]
pub struct ChainCaller {
    pub config: ClientConfig,
    pub config_pda: (Pubkey, u8),
    pub data_pda: (Pubkey, u8),
}

impl ChainCaller {
    /// A caller for the oracle named in `cfg`; `None` when its accounts have
    /// no address.
    pub fn new(cfg: ClientConfig) -> (r: Option<ChainCaller>)
        ensures
            match r {
                Some(c) => {
                    &&& c.config == cfg
                    &&& oracle_config_pda(cfg.oracle.config_name@) == found_view(Some(c.config_pda))
                    &&& oracle_data_pda(c.config_pda.0@) == found_view(Some(c.data_pda))
                },
                None => oracle_config_pda(cfg.oracle.config_name@) is None || oracle_data_pda(
                    oracle_config_pda(cfg.oracle.config_name@)->Some_0.0,
                ) is None,
            },
    {
        match oracle_pdas(cfg.oracle.config_name.as_str()) {
            Some(p) => Some(ChainCaller { config: cfg, config_pda: p.config_pda, data_pda: p.data_pda }),
            None => None,
        }
    }

    /// The checks made before the oracle configuration is created.
    pub fn check_initialize_oracle_config(&self) -> (r: Result<(), ClientError>)
        ensures
            match oracle_config_check(self.config.oracle.config_name@, self.config.oracle.config_description@) {
                Ok(()) => r is Ok,
                Err(p) => r matches Err(ClientError::InvalidParam(q)) && q@ == p,
            },
    {
        check_oracle_config(&self.config.oracle)
    }
}

} // verus!
