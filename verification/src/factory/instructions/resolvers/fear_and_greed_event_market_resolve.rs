//! Resolving a fear-and-greed market once it is over: option 1 wins when the
//! index fell since the market opened, option 2 otherwise.
use vstd::prelude::*;
use crate::context::Account;
use crate::error::{ErrorCode, InstructionError, refusal_of, lift_refusal};
use crate::factory::chain_event::event::{EventEvent, EventEventType};
use crate::factory::state::event_config::EventConfig;
use crate::factory::state::event_market::EventMarket;
use crate::factory::utils::{get_oracle_data_account_pubkey, oracle_data_address};
use crate::monitor::state::{OracleConfig, OracleData};
use crate::pubkey::Pubkey;
use crate::sysvar::read_clock;

verus! {

/// The prize each winner of the market will be paid.
#[derive(Clone, Copy, Debug, PartialEq, Eq)]
pub struct FearAndGreedEventMarketResolveParams {
    pub prize: u64,
}

/// The accounts of a resolution: the resolver, the oracle the market
/// follows, and the market with its configuration.
pub struct FearAndGreedEventMarketResolve {
    pub resolver: Pubkey,
    pub oracle_config: Account<OracleConfig>,
    pub oracle_data: Account<OracleData>,
    pub event_config: Account<EventConfig>,
    pub event_market: Account<EventMarket>,
}

/// The winning option: 1 when the value fell below the opening value, 2
/// when it did not.
pub open spec fn winning_option(open_raw_data: u64, raw_data: u64) -> u8 {
    if open_raw_data > raw_data { 1 } else { 2 }
}

/// What resolving at time `now` yields: the resolved market and the event;
/// or the refusal.
///
/// The resolver must be the configuration's; the oracle data must be that
/// of the oracle configuration, and at its derived address; the
/// configuration must be the market's. The time must be positive and past
/// both the market's close and its expiry; the market must not be resolved
/// yet, and must have recorded its opening value.
pub open spec fn resolve_spec(c: FearAndGreedEventMarketResolve, prize: u64, now: i64) -> Result<(EventMarket, EventEvent), ErrorCode> {
    let m = c.event_market.data;
    if c.resolver != c.event_config.data.resolver {
        Err(ErrorCode::Unauthorized)
    } else if c.oracle_config.key != c.oracle_data.data.config {
        Err(ErrorCode::UnexpectedAccount)
    } else if oracle_data_address(c.oracle_config.key@) != Some(c.oracle_data.key@) {
        Err(ErrorCode::UnexpectedAccount)
    } else if c.event_config.key != m.event_config {
        Err(ErrorCode::UnexpectedAccount)
    } else if now <= 0 {
        Err(ErrorCode::Overflow)
    } else if now as u64 <= m.close_ts || now as u64 <= m.expiry_ts {
        Err(ErrorCode::EventIsOngoing)
    } else if m.result != 0 {
        Err(ErrorCode::EventIsFinalized)
    } else if m.open_raw_data is None {
        Err(ErrorCode::EventMarketDataError)
    } else {
        Ok((
            EventMarket {
                result: winning_option(m.open_raw_data->Some_0, c.oracle_data.data.raw_data),
                prize,
                is_opened: false,
                ..m
            },
            EventEvent {
                event_type: EventEventType::Finalize,
                event_config: c.event_config.key,
                event: Some(c.event_market.key),
            },
        ))
    }
}

impl FearAndGreedEventMarketResolve {
    /// The checks made before the clock is read: the resolver must be the
    /// configuration's; the oracle data must be that of the oracle
    /// configuration, and at its derived address; the configuration must be
    /// the market's.
    pub open spec fn precheck_spec(self) -> Result<(), ErrorCode> {
        if self.resolver != self.event_config.data.resolver {
            Err(ErrorCode::Unauthorized)
        } else if self.oracle_config.key != self.oracle_data.data.config {
            Err(ErrorCode::UnexpectedAccount)
        } else if oracle_data_address(self.oracle_config.key@) != Some(self.oracle_data.key@) {
            Err(ErrorCode::UnexpectedAccount)
        } else if self.event_config.key != self.event_market.data.event_config {
            Err(ErrorCode::UnexpectedAccount)
        } else {
            Ok(())
        }
    }

    /// Makes the checks that come before the clock is read.
    pub fn precheck(&self) -> (r: Result<(), ErrorCode>)
        ensures
            r == self.precheck_spec(),
    {
        if !self.resolver.key_eq(&self.event_config.data.resolver) {
            return Err(ErrorCode::Unauthorized);
        }
        if !self.oracle_config.key.key_eq(&self.oracle_data.data.config) {
            return Err(ErrorCode::UnexpectedAccount);
        }
        match get_oracle_data_account_pubkey(self.oracle_config.key) {
            Some(k) => {
                if !k.key_eq(&self.oracle_data.key) {
                    return Err(ErrorCode::UnexpectedAccount);
                }
            },
            None => return Err(ErrorCode::UnexpectedAccount),
        }
        if !self.event_config.key.key_eq(&self.event_market.data.event_config) {
            return Err(ErrorCode::UnexpectedAccount);
        }
        Ok(())
    }

    /// The accounts with a new market.
    pub open spec fn with_market(self, m: EventMarket) -> FearAndGreedEventMarketResolve {
        FearAndGreedEventMarketResolve { event_market: Account { key: self.event_market.key, data: m }, ..self }
    }

    /// The accounts and result after resolving at time `now`.
    pub open spec fn outcome(pre: Self, post: Self, params: FearAndGreedEventMarketResolveParams, now: i64, r: Result<EventEvent, ErrorCode>) -> bool {
        match resolve_spec(pre, params.prize, now) {
            Ok((m, e)) => r == Ok::<EventEvent, ErrorCode>(e) && post == pre.with_market(m),
            Err(c) => r == Err::<EventEvent, ErrorCode>(c) && post == pre,
        }
    }

    /// Resolves the market as of time `now`.
    pub fn process_at(&mut self, params: FearAndGreedEventMarketResolveParams, now: i64) -> (r: Result<EventEvent, ErrorCode>)
        ensures
            Self::outcome(*old(self), *final(self), params, now, r),
    {
        match self.precheck() {
            Ok(()) => {},
            Err(e) => return Err(e),
        }
        if now <= 0 {
            return Err(ErrorCode::Overflow);
        }
        let now_u64 = now as u64;
        if now_u64 <= self.event_market.data.close_ts {
            return Err(ErrorCode::EventIsOngoing);
        }
        if now_u64 <= self.event_market.data.expiry_ts {
            return Err(ErrorCode::EventIsOngoing);
        }
        if self.event_market.data.result != 0 {
            return Err(ErrorCode::EventIsFinalized);
        }
        let raw_data = self.oracle_data.data.raw_data;
        let raw_data_old = match self.event_market.data.open_raw_data {
            Some(v) => v,
            None => return Err(ErrorCode::EventMarketDataError),
        };
        if raw_data_old > raw_data {
            self.event_market.data.result = 1;
        } else {
            self.event_market.data.result = 2;
        }
        self.event_market.data.prize = params.prize;
        self.event_market.data.is_opened = false;
        Ok(EventEvent {
            event_type: EventEventType::Finalize,
            event_config: self.event_config.key,
            event: Some(self.event_market.key),
        })
    }

    /// Resolves the market as of the cluster clock's time. The checks that
    /// do not need the time come first, and a refusal by one of them changes
    /// nothing; then the clock is read.
    pub fn process(&mut self, params: FearAndGreedEventMarketResolveParams) -> (r: Result<EventEvent, InstructionError>)
        ensures
            old(self).precheck_spec() matches Err(c) ==> r == Err::<EventEvent, InstructionError>(
                InstructionError::Code(c)) && *final(self) == *old(self),
            r == Err::<EventEvent, InstructionError>(InstructionError::ClockUnavailable) ==> *final(self) == *old(self),
            r != Err::<EventEvent, InstructionError>(InstructionError::ClockUnavailable) ==>
                exists|now: i64| Self::outcome(*old(self), *final(self), params, now, refusal_of(r)),
    {
        match self.precheck() {
            Ok(()) => {},
            Err(e) => {
                let r = Err(InstructionError::Code(e));
                assert(Self::outcome(*old(self), *self, params, 1, refusal_of(r)));
                return r;
            },
        }
        let clock = match read_clock() {
            Ok(c) => c,
            Err(e) => return Err(e),
        };
        let r = self.process_at(params, clock.unix_timestamp);
        lift_refusal(r)
    }
}

} // verus!
