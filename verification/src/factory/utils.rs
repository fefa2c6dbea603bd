//! Addresses the factory derives under other programs.
use vstd::prelude::*;
use crate::pubkey::{Pubkey, find_program_address, monitor_id, monitor_id_spec, associated_token_id,
    associated_token_id_spec, program_address, found_view, address_of, seeds_view};
use crate::seeds::{oracle_data_seed, oracle_data_seed_bytes};
use crate::error::ErrorCode;

verus! {

/// The address of the oracle data account of `oracle_config` under the
/// oracle program.
pub open spec fn oracle_data_address(oracle_config: Seq<u8>) -> Option<Seq<u8>> {
    address_of(program_address(seq![oracle_data_seed(), oracle_config], monitor_id_spec()))
}

/// The address of the oracle data account of `oracle_config_pubkey`.
pub fn get_oracle_data_account_pubkey(oracle_config_pubkey: Pubkey) -> (r: Option<Pubkey>)
    ensures
        match r {
            Some(k) => oracle_data_address(oracle_config_pubkey@) == Some(k@),
            None => oracle_data_address(oracle_config_pubkey@) is None,
        },
{
    let mut seeds: Vec<Vec<u8>> = Vec::new();
    seeds.push(oracle_data_seed_bytes());
    seeds.push(oracle_config_pubkey.to_vec());
    assert(seeds_view(seeds@) =~= seq![oracle_data_seed(), oracle_config_pubkey@]);
    match find_program_address(&seeds, &monitor_id()) {
        Some((k, _)) => Some(k),
        None => None,
    }
}

/// The associated token account of `user` for `mint` under `token_program`:
/// the address derived from the user, the token program and the mint under
/// the associated token account program.
pub open spec fn ata_address(user: Seq<u8>, mint: Seq<u8>, token_program: Seq<u8>) -> Option<Seq<u8>> {
    address_of(program_address(seq![user, token_program, mint], associated_token_id_spec()))
}

/// The associated token account of `user_key` for `mint_key` under
/// `token_program_id`.
pub fn get_ata(user_key: &Pubkey, mint_key: &Pubkey, token_program_id: &Pubkey) -> (r: Option<Pubkey>)
    ensures
        match r {
            Some(k) => ata_address(user_key@, mint_key@, token_program_id@) == Some(k@),
            None => ata_address(user_key@, mint_key@, token_program_id@) is None,
        },
{
    let mut seeds: Vec<Vec<u8>> = Vec::new();
    seeds.push(user_key.to_vec());
    seeds.push(token_program_id.to_vec());
    seeds.push(mint_key.to_vec());
    assert(seeds_view(seeds@) =~= seq![user_key@, token_program_id@, mint_key@]);
    match find_program_address(&seeds, &associated_token_id()) {
        Some((k, _)) => Some(k),
        None => None,
    }
}

/// Whether a derived address was found and is `k`.
pub fn is_derived(r: Option<(Pubkey, u8)>, k: &Pubkey) -> (b: bool)
    ensures
        b == (address_of(found_view(r)) == Some(k@)),
{
    match r {
        Some((a, _)) => a.key_eq(k),
        None => false,
    }
}

/// The bump of a derived address, when the address is `key`; otherwise the
/// account is unexpected.
pub fn expect_derived(r: Option<(Pubkey, u8)>, key: &Pubkey) -> (b: Result<u8, ErrorCode>)
    ensures
        address_of(found_view(r)) == Some(key@) ==> b == Ok::<u8, ErrorCode>(found_view(r)->Some_0.1),
        address_of(found_view(r)) != Some(key@) ==> b == Err::<u8, ErrorCode>(ErrorCode::UnexpectedAccount),
{
    match r {
        Some((k, bump)) => {
            if k.key_eq(key) {
                Ok(bump)
            } else {
                Err(ErrorCode::UnexpectedAccount)
            }
        },
        None => Err(ErrorCode::UnexpectedAccount),
    }
}

/// The bump of a derived address that must exist.
pub fn expect_found(r: Option<(Pubkey, u8)>) -> (b: Result<u8, ErrorCode>)
    ensures
        r is Some ==> b == Ok::<u8, ErrorCode>(r->Some_0.1),
        r is None ==> b == Err::<u8, ErrorCode>(ErrorCode::UnexpectedAccount),
{
    match r {
        Some((_, bump)) => Ok(bump),
        None => Err(ErrorCode::UnexpectedAccount),
    }
}

} // verus!
