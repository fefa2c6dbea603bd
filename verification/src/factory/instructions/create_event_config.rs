//! Creating the event configuration that follows an oracle.
use vstd::prelude::*;
use crate::context::Account;
use crate::error::ErrorCode;
use crate::factory::chain_event::event::{EventEvent, EventEventType};
use crate::factory::state::event_config::{EventConfig, EventType, event_config_address};
use crate::factory::state::global_config::{GlobalConfig, expect_global_config, is_global_config_key};
use crate::factory::utils::expect_derived;
use crate::factory::state::url::{UriResource, padded};
use crate::monitor::state::OracleConfig;
use crate::pubkey::{Pubkey, address_of};
use vstd::string::StringSliceAdditionalSpecFns;

verus! {

/// The kind of event, the number of options of its markets, and the URL of
/// its metadata.
#[derive(Clone, Debug, PartialEq, Eq)]
pub struct CreateEventConfigParams {
    pub event_type: EventType,
    pub option: u8,
    pub metadata_json_url: String,
}

/// The accounts of the creation.
pub struct CreateEventConfig {
    pub payer: Pubkey,
    pub governor: Pubkey,
    pub resolver: Pubkey,
    pub global_config: Account<GlobalConfig>,
    pub oracle_config: Account<OracleConfig>,
    pub event_config: Account<EventConfig>,
}

impl CreateEventConfig {
    /// The accounts and result after the creation: only the governor may
    /// create; the global configuration must be at its derived address, and
    /// the new configuration at the address derived from its oracle
    /// configuration; only raw-data events are supported; the URL must be at most
    /// 150 bytes. The payer becomes the creator and the index starts at 0.
    pub open spec fn outcome(pre: Self, post: Self, params: CreateEventConfigParams, bump: u8, r: Result<EventEvent, ErrorCode>) -> bool {
        let url = vstd::utf8::encode_utf8(params.metadata_json_url@);
        if pre.governor != pre.global_config.data.governor {
            r == Err::<EventEvent, ErrorCode>(ErrorCode::Unauthorized) && post == pre
        } else if !is_global_config_key(pre.global_config.key)
            || address_of(event_config_address(pre.oracle_config.key@)) != Some(pre.event_config.key@) {
            r == Err::<EventEvent, ErrorCode>(ErrorCode::UnexpectedAccount) && post == pre
        } else if params.event_type != EventType::RawDataEventMarket {
            r == Err::<EventEvent, ErrorCode>(ErrorCode::UnsupportedNow) && post == pre
        } else if url.len() > 150 {
            r == Err::<EventEvent, ErrorCode>(ErrorCode::StringTooLong) && post == pre
        } else {
            &&& r == Ok::<EventEvent, ErrorCode>(EventEvent {
                event_type: EventEventType::ConfigCreate,
                event_config: pre.event_config.key,
                event: None,
            })
            &&& post.event_config.data.metadata_json_url.len == url.len()
            &&& post.event_config.data.metadata_json_url.uri@ == padded(url)
            &&& post == (CreateEventConfig {
                event_config: Account {
                    key: pre.event_config.key,
                    data: EventConfig {
                        creator: pre.payer,
                        resolver: pre.resolver,
                        event_type: pre.event_config.data.event_type,
                        oracle_config: pre.oracle_config.key,
                        option: params.option,
                        index: 0,
                        bump,
                        metadata_json_url: post.event_config.data.metadata_json_url,
                    },
                },
                ..pre
            })
        }
    }

    /// Fills the new configuration.
    pub fn process(&mut self, params: CreateEventConfigParams, bump: u8) -> (r: Result<EventEvent, ErrorCode>)
        ensures
            Self::outcome(*old(self), *final(self), params, bump, r),
    {
        if !self.governor.key_eq(&self.global_config.data.governor) {
            return Err(ErrorCode::Unauthorized);
        }
        match expect_global_config(&self.global_config.key) {
            Ok(()) => {},
            Err(e) => return Err(e),
        }
        match expect_derived(EventConfig::find_event_config_account(self.oracle_config.key), &self.event_config.key) {
            Ok(_) => {},
            Err(e) => return Err(e),
        }
        match params.event_type {
            EventType::RawDataEventMarket => {},
            _ => return Err(ErrorCode::UnsupportedNow),
        }
        let url = match UriResource::validate(params.metadata_json_url.as_str()) {
            Ok(u) => u,
            Err(e) => return Err(e),
        };
        let event_config = &mut self.event_config.data;
        event_config.metadata_json_url = url;
        event_config.creator = self.payer;
        event_config.resolver = self.resolver;
        event_config.oracle_config = self.oracle_config.key;
        event_config.option = params.option;
        event_config.index = 0;
        event_config.bump = bump;
        Ok(EventEvent {
            event_type: EventEventType::ConfigCreate,
            event_config: self.event_config.key,
            event: None,
        })
    }
}

} // verus!
