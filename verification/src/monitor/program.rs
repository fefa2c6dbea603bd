//! The oracle program's entry points.
use vstd::prelude::*;
use crate::context::{Account, Context};
use crate::error::ErrorCode;
use crate::monitor::state::{OracleConfig, OracleConfigView, OracleData, find_oracle_config_address, oracle_config_address};
use crate::pubkey::{Pubkey, keys_view};
use crate::strings::{byte_len, str_byte_len};

verus! {

/// The accounts of the entry point that creates a configuration with a
/// whole list of authorities.
pub struct InitializeOracleConfig {
    pub config: Account<OracleConfig>,
    pub user: Pubkey,
    pub authority_pubkeys: Vec<Pubkey>,
}

/// The bump seed of the configuration account.
#[derive(Clone, Copy, Debug)]
pub struct InitializeOracleConfigBumps {
    pub config: u8,
}

/// The accounts of the data-account entry point.
pub struct InitializeOracleData {
    pub config: Account<OracleConfig>,
    pub oracle: Account<OracleData>,
    pub user: Pubkey,
}

/// Creates a configuration: the name must be shorter than 50 bytes, the
/// description shorter than 200, the configuration must be at the address
/// derived from its name, and at most four authorities may be given.
/// The caller becomes the admin; the phase count is left as it was.
pub fn initialize_oracle_config(
    ctx: &mut Context<InitializeOracleConfig, InitializeOracleConfigBumps>,
    name: String,
    description: String,
    total_phase: u8,
) -> (r: Result<(), ErrorCode>)
    ensures
        byte_len(name@) >= 50 ==> r == Err::<(), ErrorCode>(ErrorCode::StringTooLong) && *final(ctx) == *old(ctx),
        byte_len(name@) < 50 && byte_len(description@) >= 200 ==>
            r == Err::<(), ErrorCode>(ErrorCode::StringTooLong) && *final(ctx) == *old(ctx),
        byte_len(name@) < 50 && byte_len(description@) < 200
            && oracle_config_address(name@) != Some(old(ctx).accounts.config.key@) ==>
            r == Err::<(), ErrorCode>(ErrorCode::UnexpectedAccount) && *final(ctx) == *old(ctx),
        byte_len(name@) < 50 && byte_len(description@) < 200 && oracle_config_address(name@) == Some(old(ctx).accounts.config.key@)
            && old(ctx).accounts.authority_pubkeys.len() > 4 ==>
            r == Err::<(), ErrorCode>(ErrorCode::InvalidArgument) && *final(ctx) == *old(ctx),
        byte_len(name@) < 50 && byte_len(description@) < 200 && oracle_config_address(name@) == Some(old(ctx).accounts.config.key@)
            && old(ctx).accounts.authority_pubkeys.len() <= 4 ==> {
            &&& r is Ok
            &&& final(ctx).accounts.config.data@ == (OracleConfigView {
                name: name@,
                description: description@,
                total_phases: old(ctx).accounts.config.data.total_phases,
                authorities: keys_view(old(ctx).accounts.authority_pubkeys@),
                admin: old(ctx).accounts.user@,
                bump: old(ctx).bumps.config,
            })
            &&& final(ctx).accounts.config.key == old(ctx).accounts.config.key
            &&& final(ctx).accounts.user == old(ctx).accounts.user
            &&& final(ctx).accounts.authority_pubkeys == old(ctx).accounts.authority_pubkeys
            &&& final(ctx).program_id == old(ctx).program_id
            &&& final(ctx).remaining_accounts == old(ctx).remaining_accounts
            &&& final(ctx).bumps == old(ctx).bumps
        },
{
    if str_byte_len(name.as_str()) >= 50 {
        return Err(ErrorCode::StringTooLong);
    }
    if str_byte_len(description.as_str()) >= 200 {
        return Err(ErrorCode::StringTooLong);
    }
    match find_oracle_config_address(name.as_str()) {
        Some(k) => {
            if !k.key_eq(&ctx.accounts.config.key) {
                return Err(ErrorCode::UnexpectedAccount);
            }
        },
        None => return Err(ErrorCode::UnexpectedAccount),
    }
    if ctx.accounts.authority_pubkeys.len() > 4 {
        return Err(ErrorCode::InvalidArgument);
    }
    let authorities = ctx.accounts.authority_pubkeys.clone();
    assert(authorities@ =~= ctx.accounts.authority_pubkeys@);
    let user = ctx.accounts.user;
    let bump = ctx.bumps.config;
    let config_account = &mut ctx.accounts.config.data;
    config_account.name = name;
    config_account.description = description;
    config_account.authority_pubkeys = authorities;
    config_account.admin = user;
    config_account.bump = bump;
    Ok(())
}

/// The data-account entry point of this interface does nothing.
pub fn initialize_oracle_data(ctx: &mut Context<InitializeOracleConfig, InitializeOracleConfigBumps>) -> (r: Result<(), ErrorCode>)
    ensures
        r is Ok,
        *final(ctx) == *old(ctx),
{
    Ok(())
}

} // verus!
