//! Creating a market of an event, opening at a given time.
use vstd::prelude::*;
use crate::context::Account;
use crate::error::{ErrorCode, InstructionError, refusal_of, lift_refusal};
use crate::factory::chain_event::event::{EventEvent, EventEventType};
use crate::factory::state::event_config::EventConfig;
use crate::factory::state::event_market::{EventMarket, event_market_address};
use crate::factory::state::global_config::{GlobalConfig, expect_global_config, is_global_config_key};
use crate::factory::utils::{expect_derived, get_oracle_data_account_pubkey, oracle_data_address};
use crate::monitor::state::{OracleConfig, OracleData};
use crate::pubkey::{Pubkey, address_of};
use crate::sysvar::{ClockReading, read_clock};

verus! {

/// When the market opens, closes, and stops taking choices.
#[derive(Clone, Copy, Debug, PartialEq, Eq)]
pub struct CreateEventMarketParams {
    pub open_ts: u64,
    pub close_ts: u64,
    pub expiry_ts: u64,
}

/// The accounts of the creation.
pub struct CreateEventMarket {
    pub payer: Pubkey,
    pub governor: Pubkey,
    pub global_config: Account<GlobalConfig>,
    pub event_config: Account<EventConfig>,
    pub oracle_config: Account<OracleConfig>,
    pub oracle_data: Account<OracleData>,
    pub event_market_account: Account<EventMarket>,
}

/// The checks made before the clock is read. Only the governor may create;
/// the global configuration must be at its derived address; the oracle data must be the oracle configuration's; the market account
/// must be at the address derived from the oracle configuration and the
/// opening time, so that a day's market is found from its time; the oracle
/// data must be at its derived address.
pub open spec fn create_market_precheck(c: CreateEventMarket, params: CreateEventMarketParams) -> Result<(), ErrorCode> {
    if c.governor != c.global_config.data.governor {
        Err(ErrorCode::Unauthorized)
    } else if !is_global_config_key(c.global_config.key) {
        Err(ErrorCode::UnexpectedAccount)
    } else if c.oracle_config.key != c.oracle_data.data.config {
        Err(ErrorCode::ConfigMismatched)
    } else if address_of(event_market_address(c.oracle_config.key@, params.open_ts)) != Some(c.event_market_account.key@) {
        Err(ErrorCode::UnexpectedAccount)
    } else if oracle_data_address(c.oracle_config.key@) != Some(c.oracle_data.key@) {
        Err(ErrorCode::UnexpectedAccount)
    } else {
        Ok(())
    }
}

/// What creating the market at the clock's `slot` and time `now` yields: the
/// configuration with its market count advanced, the new market and the
/// event; or the refusal.
///
/// After the checks of `create_market_precheck`, the time must be positive
/// and before both the close and the expiry; the oracle must have been fed;
/// the market count must not overflow. The market starts closed and
/// unresolved, with the oracle's current value and phase as its opening
/// ones and the configuration's options.
pub open spec fn create_market_spec(c: CreateEventMarket, params: CreateEventMarketParams, bump: u8, slot: u64, now: i64)
    -> Result<(EventConfig, EventMarket, EventEvent), ErrorCode>
{
    if create_market_precheck(c, params) is Err {
        Err(create_market_precheck(c, params)->Err_0)
    } else if now <= 0 {
        Err(ErrorCode::Overflow)
    } else if params.close_ts <= now as u64 || params.expiry_ts <= now as u64 {
        Err(ErrorCode::InvalidArgument)
    } else if c.oracle_data.data.timestamp == 0 {
        Err(ErrorCode::OracleDataError)
    } else if c.event_config.data.index == u64::MAX {
        Err(ErrorCode::Overflow)
    } else {
        Ok((
            EventConfig { index: (c.event_config.data.index + 1) as u64, ..c.event_config.data },
            EventMarket {
                event_config: c.event_config.key,
                open_raw_data: Some(c.oracle_data.data.raw_data),
                open_phase: Some(c.oracle_data.data.phase),
                option: c.event_config.data.option,
                result: 0,
                prize: 0,
                open_slot: slot,
                open_ts: params.open_ts,
                close_ts: params.close_ts,
                expiry_ts: params.expiry_ts,
                is_opened: false,
                bump,
            },
            EventEvent {
                event_type: EventEventType::Create,
                event_config: c.event_config.key,
                event: Some(c.event_market_account.key),
            },
        ))
    }
}

impl CreateEventMarket {
    /// Makes the checks that come before the clock is read.
    pub fn precheck(&self, params: CreateEventMarketParams) -> (r: Result<(), ErrorCode>)
        ensures
            r == create_market_precheck(*self, params),
    {
        if !self.governor.key_eq(&self.global_config.data.governor) {
            return Err(ErrorCode::Unauthorized);
        }
        match expect_global_config(&self.global_config.key) {
            Ok(()) => {},
            Err(e) => return Err(e),
        }
        if !self.oracle_config.key.key_eq(&self.oracle_data.data.config) {
            return Err(ErrorCode::ConfigMismatched);
        }
        let found = EventMarket::find_event_market_account(self.oracle_config.key, params.open_ts);
        match expect_derived(found, &self.event_market_account.key) {
            Ok(_) => {},
            Err(e) => return Err(e),
        }
        match get_oracle_data_account_pubkey(self.oracle_config.key) {
            Some(k) => {
                if !k.key_eq(&self.oracle_data.key) {
                    return Err(ErrorCode::UnexpectedAccount);
                }
            },
            None => return Err(ErrorCode::UnexpectedAccount),
        }
        Ok(())
    }

    /// The accounts with a new configuration and market.
    pub open spec fn with_market(self, ec: EventConfig, m: EventMarket) -> CreateEventMarket {
        CreateEventMarket {
            event_config: Account { key: self.event_config.key, data: ec },
            event_market_account: Account { key: self.event_market_account.key, data: m },
            ..self
        }
    }

    /// The accounts and result after the creation at the given clock.
    pub open spec fn outcome(pre: Self, post: Self, params: CreateEventMarketParams, bump: u8, slot: u64, now: i64, r: Result<EventEvent, ErrorCode>) -> bool {
        match create_market_spec(pre, params, bump, slot, now) {
            Ok((ec, m, e)) => r == Ok::<EventEvent, ErrorCode>(e) && post == pre.with_market(ec, m),
            Err(c) => r == Err::<EventEvent, ErrorCode>(c) && post == pre,
        }
    }

    /// Creates the market as of the given clock reading.
    pub fn process_at(&mut self, params: CreateEventMarketParams, bump: u8, clock: ClockReading) -> (r: Result<EventEvent, ErrorCode>)
        ensures
            Self::outcome(*old(self), *final(self), params, bump, clock.slot, clock.unix_timestamp, r),
    {
        match self.precheck(params) {
            Ok(()) => {},
            Err(e) => return Err(e),
        }
        let open_slot = clock.slot;
        let now = clock.unix_timestamp;
        if now <= 0 {
            return Err(ErrorCode::Overflow);
        }
        let now_u64 = now as u64;
        if params.close_ts <= now_u64 {
            return Err(ErrorCode::InvalidArgument);
        }
        if params.expiry_ts <= now_u64 {
            return Err(ErrorCode::InvalidArgument);
        }
        if self.oracle_data.data.timestamp == 0 {
            return Err(ErrorCode::OracleDataError);
        }
        let index = match self.event_config.data.index.checked_add(1) {
            Some(i) => i,
            None => return Err(ErrorCode::Overflow),
        };
        let market = &mut self.event_market_account.data;
        market.event_config = self.event_config.key;
        market.open_raw_data = Some(self.oracle_data.data.raw_data);
        market.open_phase = Some(self.oracle_data.data.phase);
        market.option = self.event_config.data.option;
        market.result = 0;
        market.prize = 0;
        market.open_slot = open_slot;
        market.open_ts = params.open_ts;
        market.close_ts = params.close_ts;
        market.expiry_ts = params.expiry_ts;
        market.is_opened = false;
        market.bump = bump;
        self.event_config.data.index = index;
        Ok(EventEvent {
            event_type: EventEventType::Create,
            event_config: self.event_config.key,
            event: Some(self.event_market_account.key),
        })
    }

    /// Creates the market as of the cluster clock. The checks that do not need
    /// the clock come first, and a refusal by one of them changes nothing;
    /// then the clock is read.
    pub fn process(&mut self, params: CreateEventMarketParams, bump: u8) -> (r: Result<EventEvent, InstructionError>)
        ensures
            create_market_precheck(*old(self), params) matches Err(c) ==> r == Err::<EventEvent, InstructionError>(
                InstructionError::Code(c)) && *final(self) == *old(self),
            r == Err::<EventEvent, InstructionError>(InstructionError::ClockUnavailable) ==> *final(self) == *old(self),
            r != Err::<EventEvent, InstructionError>(InstructionError::ClockUnavailable) ==>
                exists|slot: u64, now: i64| Self::outcome(*old(self), *final(self), params, bump, slot, now, refusal_of(r)),
    {
        match self.precheck(params) {
            Ok(()) => {},
            Err(e) => {
                let r = Err(InstructionError::Code(e));
                assert(Self::outcome(*old(self), *self, params, bump, 0, 1, refusal_of(r)));
                return r;
            },
        }
        let clock = match read_clock() {
            Ok(c) => c,
            Err(e) => return Err(e),
        };
        let r = self.process_at(params, bump, clock);
        lift_refusal(r)
    }
}

} // verus!
