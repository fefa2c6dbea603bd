//! The oracle program's instructions: creating a configuration, managing
//! its authorities, creating the data account and setting the data.
use vstd::prelude::*;
use crate::context::Account;
use crate::error::{ErrorCode, InstructionError, refusal_of, lift_refusal};
use crate::monitor::event::{SetOracleDataEvent, U8ValueChange, U64ValueChange, u8_change, u64_change};
use crate::factory::utils::{get_oracle_data_account_pubkey, oracle_data_address};
use crate::monitor::state::{OracleConfig, OracleConfigView, OracleData, add_authority_spec, remove_authority_spec,
    find_oracle_config_address, oracle_config_address};
use crate::pubkey::Pubkey;
use crate::strings::{byte_len, str_byte_len};
use crate::sysvar::read_clock;

verus! {

// ---------------------------------------------------------------------
// Configuration
// ---------------------------------------------------------------------

/// Creates an oracle configuration with one authority.
pub struct InitializeOracleConfig {
    pub config: Account<OracleConfig>,
    pub user: Pubkey,
    pub authority_pubkey: Pubkey,
}

impl InitializeOracleConfig {
    /// Fills the configuration: the name must be shorter than 32 bytes and
    /// the description shorter than 200; the configuration must be at the
    /// address derived from its name; the caller becomes the admin and the
    /// given authority is appended to the authority list.
    pub fn process(&mut self, name: String, description: String, total_phase: u8, bump: u8) -> (r: Result<(), ErrorCode>)
        ensures
            byte_len(name@) >= 32 ==> r == Err::<(), ErrorCode>(ErrorCode::StringTooLong) && *final(self) == *old(self),
            byte_len(name@) < 32 && byte_len(description@) >= 200 ==> r == Err::<(), ErrorCode>(ErrorCode::StringTooLong) && *final(self) == *old(self),
            byte_len(name@) < 32 && byte_len(description@) < 200 && oracle_config_address(name@) != Some(old(self).config.key@)
                ==> r == Err::<(), ErrorCode>(ErrorCode::UnexpectedAccount) && *final(self) == *old(self),
            byte_len(name@) < 32 && byte_len(description@) < 200 && oracle_config_address(name@) == Some(old(self).config.key@) ==> {
                &&& r is Ok
                &&& final(self).config.data@ == (OracleConfigView {
                    name: name@,
                    description: description@,
                    total_phases: total_phase,
                    authorities: old(self).config.data@.authorities.push(old(self).authority_pubkey@),
                    admin: old(self).user@,
                    bump,
                })
                &&& final(self).config.key == old(self).config.key
                &&& final(self).user == old(self).user
                &&& final(self).authority_pubkey == old(self).authority_pubkey
            },
    {
        if str_byte_len(name.as_str()) >= 32 {
            return Err(ErrorCode::StringTooLong);
        }
        if str_byte_len(description.as_str()) >= 200 {
            return Err(ErrorCode::StringTooLong);
        }
        match find_oracle_config_address(name.as_str()) {
            Some(k) => {
                if !k.key_eq(&self.config.key) {
                    return Err(ErrorCode::UnexpectedAccount);
                }
            },
            None => return Err(ErrorCode::UnexpectedAccount),
        }
        let authority = self.authority_pubkey;
        let user = self.user;
        let config_account = &mut self.config.data;
        config_account.name = name;
        config_account.description = description;
        config_account.authority_pubkeys.push(authority);
        config_account.admin = user;
        config_account.total_phases = total_phase;
        config_account.bump = bump;
        assert(self.config.data@.authorities =~= old(self).config.data@.authorities.push(authority@));
        Ok(())
    }
}

/// Adds an authority to a configuration.
pub struct AddAuthorityToOracleConfig {
    pub config: Account<OracleConfig>,
    pub user: Pubkey,
    pub authority_pubkey: Pubkey,
}

impl AddAuthorityToOracleConfig {
    /// Adds the given authority at the request of the caller; the configuration must be at the address derived from
    /// its name.
    pub fn process(&mut self) -> (r: Result<(), ErrorCode>)
        ensures
            oracle_config_address(old(self).config.data@.name) != Some(old(self).config.key@) ==>
                r == Err::<(), ErrorCode>(ErrorCode::UnexpectedAccount) && *final(self) == *old(self),
            oracle_config_address(old(self).config.data@.name) == Some(old(self).config.key@) ==>
                (r, final(self).config.data@) == add_authority_spec(old(self).config.data@, old(self).user@, old(self).authority_pubkey@),
            final(self).config.key == old(self).config.key,
            final(self).user == old(self).user,
            final(self).authority_pubkey == old(self).authority_pubkey,
    {
        match find_oracle_config_address(self.config.data.name.as_str()) {
            Some(k) => {
                if !k.key_eq(&self.config.key) {
                    return Err(ErrorCode::UnexpectedAccount);
                }
            },
            None => return Err(ErrorCode::UnexpectedAccount),
        }
        let user = self.user;
        let authority = self.authority_pubkey;
        self.config.data.add_authority(user, authority)
    }
}

/// Removes an authority from a configuration.
pub struct RemoveAuthorityFromOracleConfig {
    pub config: Account<OracleConfig>,
    pub user: Pubkey,
    pub authority_pubkey: Pubkey,
}

impl RemoveAuthorityFromOracleConfig {
    /// Removes the given authority at the request of the caller; the configuration must be at the address derived from
    /// its name.
    pub fn process(&mut self) -> (r: Result<(), ErrorCode>)
        ensures
            oracle_config_address(old(self).config.data@.name) != Some(old(self).config.key@) ==>
                r == Err::<(), ErrorCode>(ErrorCode::UnexpectedAccount) && *final(self) == *old(self),
            oracle_config_address(old(self).config.data@.name) == Some(old(self).config.key@) ==>
                (r, final(self).config.data@) == remove_authority_spec(old(self).config.data@, old(self).user@, old(self).authority_pubkey@),
            final(self).config.key == old(self).config.key,
            final(self).user == old(self).user,
            final(self).authority_pubkey == old(self).authority_pubkey,
    {
        match find_oracle_config_address(self.config.data.name.as_str()) {
            Some(k) => {
                if !k.key_eq(&self.config.key) {
                    return Err(ErrorCode::UnexpectedAccount);
                }
            },
            None => return Err(ErrorCode::UnexpectedAccount),
        }
        let user = self.user;
        let authority = self.authority_pubkey;
        self.config.data.remove_authority(user, authority)
    }
}

// ---------------------------------------------------------------------
// Data
// ---------------------------------------------------------------------

/// Creates the data account of a configuration.
pub struct InitializeOracleData {
    pub config: Account<OracleConfig>,
    pub oracle: Account<OracleData>,
    pub user: Pubkey,
}

impl InitializeOracleData {
    /// Links the data account to its configuration: the data account must be
    /// at the address derived from the configuration, and only an authority
    /// of the configuration may.
    pub fn process(&mut self, bump: u8) -> (r: Result<(), ErrorCode>)
        ensures
            oracle_data_address(old(self).config.key@) != Some(old(self).oracle.key@) ==>
                r == Err::<(), ErrorCode>(ErrorCode::UnexpectedAccount) && *final(self) == *old(self),
            oracle_data_address(old(self).config.key@) == Some(old(self).oracle.key@)
                && !old(self).config.data@.holds_authority(old(self).user@) ==>
                r == Err::<(), ErrorCode>(ErrorCode::Unauthorized) && *final(self) == *old(self),
            oracle_data_address(old(self).config.key@) == Some(old(self).oracle.key@)
                && old(self).config.data@.holds_authority(old(self).user@) ==> {
                &&& r is Ok
                &&& final(self).oracle.data == (OracleData { config: old(self).config.key, bump, ..old(self).oracle.data })
                &&& final(self).oracle.key == old(self).oracle.key
                &&& final(self).config == old(self).config
                &&& final(self).user == old(self).user
            },
    {
        match get_oracle_data_account_pubkey(self.config.key) {
            Some(k) => {
                if !k.key_eq(&self.oracle.key) {
                    return Err(ErrorCode::UnexpectedAccount);
                }
            },
            None => return Err(ErrorCode::UnexpectedAccount),
        }
        if !self.config.data.has_authority(&self.user) {
            return Err(ErrorCode::Unauthorized);
        }
        let config_key = self.config.key;
        let oracle_data = &mut self.oracle.data;
        oracle_data.config = config_key;
        oracle_data.bump = bump;
        Ok(())
    }
}

/// Sets the data of an oracle.
pub struct SetOracleData {
    pub config: Account<OracleConfig>,
    pub oracle: Account<OracleData>,
    pub user: Pubkey,
}

/// What setting oracle data at the clock's `slot` and time `now` yields: the
/// new data and the event that reports each field's change, or the refusal.
/// After the checks of `set_oracle_data_precheck`, the time must be
/// positive.
/// The data records the time and slot; when the time is a new one, the time
/// it replaces becomes the previous round's time.
pub open spec fn set_oracle_data_spec(
    config: OracleConfigView,
    config_key: Pubkey,
    oracle: OracleData,
    oracle_key: Pubkey,
    user: Seq<u8>,
    phase: u8,
    raw_data: u64,
    decimals: u8,
    bump: u8,
    slot: u64,
    now: i64,
) -> Result<(OracleData, SetOracleDataEvent), ErrorCode> {
    if set_oracle_data_precheck(config, config_key, oracle, oracle_key, user, phase, bump) is Err {
        Err(set_oracle_data_precheck(config, config_key, oracle, oracle_key, user, phase, bump)->Err_0)
    } else if now <= 0 {
        Err(ErrorCode::Overflow)
    } else {
        let t = now as u64;
        let previous = if oracle.timestamp != t { oracle.timestamp } else { oracle.previous_timestamp };
        Ok((
            OracleData { phase, raw_data, decimals, previous_timestamp: previous, timestamp: t, slot, ..oracle },
            SetOracleDataEvent {
                state: oracle_key,
                phase_change: u8_change(oracle.phase, phase),
                raw_data_change: u64_change(oracle.raw_data, raw_data),
                decimals_change: u8_change(oracle.decimals, decimals),
                timestamp_change: u64_change(oracle.timestamp, t),
            },
        ))
    }
}

/// The checks made before the clock is read: the data account must be at
/// the address derived from the configuration, the bump must match the data
/// account's, the data account must belong to the configuration, the caller
/// must be an authority, and the phase must be below the configuration's
/// phase count.
pub open spec fn set_oracle_data_precheck(
    config: OracleConfigView,
    config_key: Pubkey,
    oracle: OracleData,
    oracle_key: Pubkey,
    user: Seq<u8>,
    phase: u8,
    bump: u8,
) -> Result<(), ErrorCode> {
    if oracle_data_address(config_key@) != Some(oracle_key@) {
        Err(ErrorCode::UnexpectedAccount)
    } else if oracle.bump != bump {
        Err(ErrorCode::InvalidArgument)
    } else if config_key != oracle.config {
        Err(ErrorCode::ConfigMismatched)
    } else if !config.holds_authority(user) {
        Err(ErrorCode::Unauthorized)
    } else if phase >= config.total_phases {
        Err(ErrorCode::InvalidArgument)
    } else {
        Ok(())
    }
}

impl SetOracleData {
    /// The checks made before the clock is read, on these accounts.
    pub open spec fn precheck_spec(self, phase: u8, bump: u8) -> Result<(), ErrorCode> {
        set_oracle_data_precheck(self.config.data@, self.config.key, self.oracle.data, self.oracle.key, self.user@, phase, bump)
    }

    /// Makes the checks that come before the clock is read.
    pub fn precheck(&self, phase: u8, bump: u8) -> (r: Result<(), ErrorCode>)
        ensures
            r == self.precheck_spec(phase, bump),
    {
        match get_oracle_data_account_pubkey(self.config.key) {
            Some(k) => {
                if !k.key_eq(&self.oracle.key) {
                    return Err(ErrorCode::UnexpectedAccount);
                }
            },
            None => return Err(ErrorCode::UnexpectedAccount),
        }
        if self.oracle.data.bump != bump {
            return Err(ErrorCode::InvalidArgument);
        }
        if !self.config.key.key_eq(&self.oracle.data.config) {
            return Err(ErrorCode::ConfigMismatched);
        }
        if !self.config.data.has_authority(&self.user) {
            return Err(ErrorCode::Unauthorized);
        }
        if phase >= self.config.data.total_phases {
            return Err(ErrorCode::InvalidArgument);
        }
        Ok(())
    }

    /// The relation between the accounts before and after setting the data
    /// at time `now`, and the result.
    pub open spec fn set_outcome(
        pre: SetOracleData,
        post: SetOracleData,
        r: Result<SetOracleDataEvent, ErrorCode>,
        phase: u8,
        raw_data: u64,
        decimals: u8,
        bump: u8,
        slot: u64,
        now: i64,
    ) -> bool {
        match set_oracle_data_spec(pre.config.data@, pre.config.key, pre.oracle.data, pre.oracle.key, pre.user@,
            phase, raw_data, decimals, bump, slot, now) {
            Ok((d, e)) => {
                &&& r == Ok::<SetOracleDataEvent, ErrorCode>(e)
                &&& post.oracle.data == d
                &&& post.oracle.key == pre.oracle.key
                &&& post.config == pre.config
                &&& post.user == pre.user
            },
            Err(c) => r == Err::<SetOracleDataEvent, ErrorCode>(c) && post == pre,
        }
    }

    /// Sets the data as of the clock's `slot` and time `now`.
    pub fn process_at(&mut self, phase: u8, raw_data: u64, decimals: u8, bump: u8, slot: u64, now: i64) -> (r: Result<SetOracleDataEvent, ErrorCode>)
        ensures
            Self::set_outcome(*old(self), *final(self), r, phase, raw_data, decimals, bump, slot, now),
    {
        match self.precheck(phase, bump) {
            Ok(()) => {},
            Err(e) => return Err(e),
        }
        if now <= 0 {
            return Err(ErrorCode::Overflow);
        }
        let current_time_u64 = now as u64;
        let data_account = &mut self.oracle.data;

        let phase_change = {
            let old = data_account.phase;
            if old == phase {
                None
            } else {
                data_account.phase = phase;
                Some(U8ValueChange { old, new: phase })
            }
        };
        let raw_data_change = {
            let old = data_account.raw_data;
            if old == raw_data {
                None
            } else {
                data_account.raw_data = raw_data;
                Some(U64ValueChange { old, new: raw_data })
            }
        };
        let decimals_change = {
            let old = data_account.decimals;
            if old == decimals {
                None
            } else {
                data_account.decimals = decimals;
                Some(U8ValueChange { old, new: decimals })
            }
        };
        let timestamp_change = {
            let old = data_account.timestamp;
            if old == current_time_u64 {
                None
            } else {
                data_account.previous_timestamp = old;
                data_account.timestamp = current_time_u64;
                Some(U64ValueChange { old, new: current_time_u64 })
            }
        };
        data_account.slot = slot;
        Ok(SetOracleDataEvent {
            state: self.oracle.key,
            phase_change,
            raw_data_change,
            decimals_change,
            timestamp_change,
        })
    }

    /// Sets the data as of the cluster clock's time. The checks that do not
    /// need the time come first, and a refusal by one of them changes
    /// nothing. Then the clock is read: when it cannot be read nothing
    /// changes; otherwise the outcome is that of `process_at` at the time
    /// read.
    pub fn process(&mut self, phase: u8, raw_data: u64, decimals: u8, bump: u8) -> (r: Result<SetOracleDataEvent, InstructionError>)
        ensures
            old(self).precheck_spec(phase, bump) matches Err(c) ==> r == Err::<SetOracleDataEvent, InstructionError>(
                InstructionError::Code(c)) && *final(self) == *old(self),
            r == Err::<SetOracleDataEvent, InstructionError>(InstructionError::ClockUnavailable) ==> *final(self) == *old(self),
            r != Err::<SetOracleDataEvent, InstructionError>(InstructionError::ClockUnavailable) ==>
                exists|slot: u64, now: i64| Self::set_outcome(*old(self), *final(self), refusal_of(r), phase, raw_data, decimals, bump, slot, now),
    {
        match self.precheck(phase, bump) {
            Ok(()) => {},
            Err(e) => {
                let r = Err(InstructionError::Code(e));
                assert(Self::set_outcome(*old(self), *self, refusal_of(r), phase, raw_data, decimals, bump, 0, 1));
                return r;
            },
        }
        let clock = match read_clock() {
            Ok(c) => c,
            Err(e) => return Err(e),
        };
        let r = self.process_at(phase, raw_data, decimals, bump, clock.slot, clock.unix_timestamp);
        lift_refusal(r)
    }
}

/// Setting the same values again at the same time and slot succeeds, leaves
/// the data as it was, and reports no change.
pub proof fn law_set_oracle_data_is_idempotent(
    config: OracleConfigView,
    config_key: Pubkey,
    oracle: OracleData,
    oracle_key: Pubkey,
    user: Seq<u8>,
    phase: u8,
    raw_data: u64,
    decimals: u8,
    bump: u8,
    slot: u64,
    now: i64,
)
    requires
        set_oracle_data_spec(config, config_key, oracle, oracle_key, user, phase, raw_data, decimals, bump, slot, now) is Ok,
    ensures
        ({
            let first = set_oracle_data_spec(config, config_key, oracle, oracle_key, user, phase, raw_data, decimals, bump, slot, now)->Ok_0.0;
            set_oracle_data_spec(config, config_key, first, oracle_key, user, phase, raw_data, decimals, bump, slot, now)
                == Ok::<(OracleData, SetOracleDataEvent), ErrorCode>((first, SetOracleDataEvent {
                    state: oracle_key,
                    phase_change: None,
                    raw_data_change: None,
                    decimals_change: None,
                    timestamp_change: None,
                }))
        }),
{
}

/// Setting data at a new time keeps the time it replaces as the previous
/// round's time, so the previous round can be looked up from the account.
pub proof fn law_previous_round_time_is_kept(
    config: OracleConfigView,
    config_key: Pubkey,
    oracle: OracleData,
    oracle_key: Pubkey,
    user: Seq<u8>,
    phase: u8,
    raw_data: u64,
    decimals: u8,
    bump: u8,
    slot: u64,
    now: i64,
)
    requires
        set_oracle_data_spec(config, config_key, oracle, oracle_key, user, phase, raw_data, decimals, bump, slot, now) is Ok,
        oracle.timestamp != now as u64,
    ensures
        ({
            let d = set_oracle_data_spec(config, config_key, oracle, oracle_key, user, phase, raw_data, decimals, bump, slot, now)->Ok_0.0;
            &&& d.previous_timestamp == oracle.timestamp
            &&& d.timestamp == now as u64
            &&& d.slot == slot
        }),
{
}

} // verus!
