//! Opening or closing a market for choices, and recording its opening
//! oracle value.
use vstd::prelude::*;
use crate::context::Account;
use crate::error::ErrorCode;
use crate::factory::chain_event::event::{EventEvent, EventEventType};
use crate::factory::state::event_config::EventConfig;
use crate::factory::state::event_market::EventMarket;
use crate::factory::state::global_config::{GlobalConfig, expect_global_config, is_global_config_key};
use crate::factory::utils::{get_oracle_data_account_pubkey, oracle_data_address};
use crate::monitor::state::OracleData;
use crate::pubkey::Pubkey;

verus! {

/// Whether to flip the market's openness, and whether to record the
/// oracle's current value as the opening value.
#[derive(Clone, Copy, Debug, PartialEq, Eq)]
pub struct ToggleEventMarketParams {
    pub toggle: bool,
    pub fetch_oracle_data: bool,
}

/// The accounts of a toggle.
pub struct ToggleEventMarket {
    pub payer: Pubkey,
    pub governor: Pubkey,
    pub global_config: Account<GlobalConfig>,
    pub oracle_data: Account<OracleData>,
    pub event_config: Account<EventConfig>,
    pub event_market_account: Account<EventMarket>,
}

/// What a toggle yields: the market, and the event when it was opened; or
/// the refusal. Only the governor may toggle; the global configuration must
/// be at its derived address; the configuration must be the market's; when
/// the market is to take the reading, the oracle data must be the one paired
/// with the configuration, at the address derived from its oracle
/// configuration; and a resolved market cannot be toggled.
pub open spec fn toggle_spec(c: ToggleEventMarket, params: ToggleEventMarketParams) -> Result<(EventMarket, Option<EventEvent>), ErrorCode> {
    let m = c.event_market_account.data;
    if c.governor != c.global_config.data.governor {
        Err(ErrorCode::Unauthorized)
    } else if !is_global_config_key(c.global_config.key) {
        Err(ErrorCode::UnexpectedAccount)
    } else if c.event_config.key != m.event_config {
        Err(ErrorCode::UnexpectedAccount)
    } else if params.fetch_oracle_data
        && oracle_data_address(c.event_config.data.oracle_config@) != Some(c.oracle_data.key@) {
        Err(ErrorCode::UnexpectedAccount)
    } else if m.result != 0 {
        Err(ErrorCode::EventIsFinalized)
    } else {
        let fetched = if params.fetch_oracle_data {
            EventMarket {
                open_raw_data: Some(c.oracle_data.data.raw_data),
                open_phase: Some(c.oracle_data.data.phase),
                ..m
            }
        } else {
            m
        };
        let toggled = if params.toggle { EventMarket { is_opened: !fetched.is_opened, ..fetched } } else { fetched };
        let event = if params.toggle && toggled.is_opened {
            Some(EventEvent {
                event_type: EventEventType::Open,
                event_config: c.event_config.key,
                event: Some(c.event_market_account.key),
            })
        } else {
            None
        };
        Ok((toggled, event))
    }
}

impl ToggleEventMarket {
    /// The accounts with a new market.
    pub open spec fn with_market(self, m: EventMarket) -> ToggleEventMarket {
        ToggleEventMarket { event_market_account: Account { key: self.event_market_account.key, data: m }, ..self }
    }

    /// The accounts and result after a toggle.
    pub open spec fn outcome(pre: Self, post: Self, params: ToggleEventMarketParams, r: Result<Option<EventEvent>, ErrorCode>) -> bool {
        match toggle_spec(pre, params) {
            Ok((m, e)) => r == Ok::<Option<EventEvent>, ErrorCode>(e) && post == pre.with_market(m),
            Err(c) => r == Err::<Option<EventEvent>, ErrorCode>(c) && post == pre,
        }
    }

    /// Records the opening value and flips the openness, as asked.
    pub fn process(&mut self, params: ToggleEventMarketParams) -> (r: Result<Option<EventEvent>, ErrorCode>)
        ensures
            Self::outcome(*old(self), *final(self), params, r),
    {
        if !self.governor.key_eq(&self.global_config.data.governor) {
            return Err(ErrorCode::Unauthorized);
        }
        match expect_global_config(&self.global_config.key) {
            Ok(()) => {},
            Err(e) => return Err(e),
        }
        if !self.event_config.key.key_eq(&self.event_market_account.data.event_config) {
            return Err(ErrorCode::UnexpectedAccount);
        }
        if params.fetch_oracle_data {
            match get_oracle_data_account_pubkey(self.event_config.data.oracle_config) {
                Some(k) => {
                    if !k.key_eq(&self.oracle_data.key) {
                        return Err(ErrorCode::UnexpectedAccount);
                    }
                },
                None => return Err(ErrorCode::UnexpectedAccount),
            }
        }
        if self.event_market_account.data.result != 0 {
            return Err(ErrorCode::EventIsFinalized);
        }
        if params.fetch_oracle_data {
            let raw_data = self.oracle_data.data.raw_data;
            let phase = self.oracle_data.data.phase;
            self.event_market_account.data.open_raw_data = Some(raw_data);
            self.event_market_account.data.open_phase = Some(phase);
        }
        let mut event: Option<EventEvent> = None;
        if params.toggle {
            self.event_market_account.data.is_opened = !self.event_market_account.data.is_opened;
            if self.event_market_account.data.is_opened {
                event = Some(EventEvent {
                    event_type: EventEventType::Open,
                    event_config: self.event_config.key,
                    event: Some(self.event_market_account.key),
                });
            }
        }
        Ok(event)
    }
}

} // verus!
