//! Staking one's main SBT on an option of a market.
use vstd::prelude::*;
use crate::context::Account;
use crate::error::{ErrorCode, InstructionError, refusal_of, lift_refusal};
use crate::factory::chain_event::choice::{ChooseEvent, ChooseEventType};
use crate::factory::state::event_config::EventConfig;
use crate::factory::state::event_market::EventMarket;
use crate::factory::instructions::claim::sbt_mint_address;
use crate::factory::state::event_position::{EventPosition, event_position_seeds};
use crate::factory::state::marker::{Marker, marker_address};
use crate::factory::state::user_position::{PositionType, UserPosition, user_position_seeds};
use crate::factory::token::TokenAccount;
use crate::factory::utils::{ata_address, get_ata, is_derived};
use crate::pubkey::{Pubkey, address_of, program_address, factory_id_spec, find_program_address, factory_id,
    token_2022_id, token_2022_id_spec, seeds_view};
use crate::seeds::{sbt_mint_seed, sbt_mint_seed_bytes};
use crate::sysvar::read_clock;

verus! {

/// The option to stake on.
#[derive(Clone, Copy, Debug, PartialEq, Eq)]
pub struct ChooseParams {
    pub indicate: u8,
}

/// The accounts of a choice: the user and their main SBT (its mint, their
/// token account of it and its marker), the user's position in the market,
/// the tally of the chosen option, and the market with its configuration.
pub struct Choose {
    pub payer: Pubkey,
    pub sbt_mint: Pubkey,
    pub token_account: Account<TokenAccount>,
    pub marker: Account<Marker>,
    pub user_position: Account<UserPosition>,
    pub event_position: Account<EventPosition>,
    pub event_config: Account<EventConfig>,
    pub event_market: Account<EventMarket>,
}

/// Whether the stake accounts are at their derived addresses: `sbt_mint` is
/// the user's main SBT mint, `marker` its marker, and `user_position` and
/// `event_position` the user's position in the market and the tally of
/// option `indicate` there.
pub open spec fn stake_accounts_hold(
    payer: Pubkey,
    sbt_mint: Pubkey,
    marker: Pubkey,
    user_position: Pubkey,
    event_position: Pubkey,
    event_market: Pubkey,
    indicate: u8,
) -> bool {
    &&& address_of(sbt_mint_address(payer@)) == Some(sbt_mint@)
    &&& address_of(marker_address(payer@, sbt_mint@)) == Some(marker@)
    &&& address_of(program_address(user_position_seeds(event_market@, payer@, None), factory_id_spec())) == Some(user_position@)
    &&& address_of(program_address(event_position_seeds(event_market@, indicate, None), factory_id_spec()))
        == Some(event_position@)
}

/// Checks that the stake accounts are at their derived addresses.
pub fn check_stake_accounts(
    payer: Pubkey,
    sbt_mint: Pubkey,
    marker: Pubkey,
    user_position: Pubkey,
    event_position: Pubkey,
    event_market: Pubkey,
    indicate: u8,
) -> (b: bool)
    ensures
        b == stake_accounts_hold(payer, sbt_mint, marker, user_position, event_position, event_market, indicate),
{
    let mut seeds: Vec<Vec<u8>> = Vec::new();
    seeds.push(sbt_mint_seed_bytes());
    seeds.push(payer.to_vec());
    assert(seeds_view(seeds@) =~= seq![sbt_mint_seed(), payer@]);
    if !is_derived(find_program_address(&seeds, &factory_id()), &sbt_mint) {
        return false;
    }
    if !is_derived(Marker::find_marker_account(payer, sbt_mint), &marker) {
        return false;
    }
    if !is_derived(UserPosition::find_user_position_account(event_market, payer, None), &user_position) {
        return false;
    }
    is_derived(EventPosition::find_event_position_account(event_market, indicate, None), &event_position)
}

/// What staking on option `indicate` at time `now` yields: the new marker,
/// user position and tally, and the event; or the refusal.
///
/// The configuration must be the market's; the market must be open, not
/// resolved, and before both its close and its expiry; the option must be one of the
/// market's options (1 up to its option count); the user must hold their
/// SBT, not have it staked already, and have no position in the market; the
/// tally must not overflow.
pub open spec fn choice_spec(
    event_config_key: Pubkey,
    event_market: Account<EventMarket>,
    token_amount: u64,
    marker: Account<Marker>,
    user_position: UserPosition,
    event_position: EventPosition,
    payer: Pubkey,
    indicate: u8,
    now: i64,
) -> Result<(Marker, UserPosition, EventPosition, ChooseEvent), ErrorCode> {
    let m = event_market.data;
    if event_config_key != m.event_config {
        Err(ErrorCode::UnexpectedAccount)
    } else if !m.is_opened {
        Err(ErrorCode::EventIsNotOpen)
    } else if m.result != 0 {
        Err(ErrorCode::EventIsFinalized)
    } else if now <= 0 {
        Err(ErrorCode::Overflow)
    } else if m.expiry_ts <= now as u64 || m.close_ts <= now as u64 {
        Err(ErrorCode::EventIsOutOfTime)
    } else if indicate == 0 || indicate > m.option {
        Err(ErrorCode::IndicateToNonExistedOption)
    } else if token_amount == 0 {
        Err(ErrorCode::SBTNotFound)
    } else if marker.data.indicate != 0 {
        Err(ErrorCode::SBTHasBeenInUse)
    } else if user_position.existed {
        Err(ErrorCode::AlreadyInEvent)
    } else if event_position.amount == u64::MAX {
        Err(ErrorCode::Overflow)
    } else {
        Ok((
            Marker { indicate, event_market: Some(event_market.key), bump: marker.data.bump },
            UserPosition { position_type: PositionType::UserSBTPosition, existed: true, marker: marker.key },
            EventPosition { position_type: PositionType::EventSBTPosition, amount: (event_position.amount + 1) as u64 },
            ChooseEvent { event_type: ChooseEventType::Choose, event_market: event_market.key, user_key: payer, indicate },
        ))
    }
}

impl Choose {
    /// Whether the accounts of a stake on option `indicate` are the derived
    /// ones: the stake accounts, and the user's token-2022 token account of
    /// their SBT.
    pub open spec fn addresses_hold(self, indicate: u8) -> bool {
        &&& stake_accounts_hold(self.payer, self.sbt_mint, self.marker.key, self.user_position.key,
            self.event_position.key, self.event_market.key, indicate)
        &&& ata_address(self.payer@, self.sbt_mint@, token_2022_id_spec()) == Some(self.token_account.key@)
    }

    /// The checks made before the clock is read: the accounts must be the
    /// derived ones, the configuration must be the market's, and the market
    /// must be open and not resolved.
    pub open spec fn precheck_spec(self, indicate: u8) -> Result<(), ErrorCode> {
        if !self.addresses_hold(indicate) {
            Err(ErrorCode::UnexpectedAccount)
        } else if self.event_config.key != self.event_market.data.event_config {
            Err(ErrorCode::UnexpectedAccount)
        } else if !self.event_market.data.is_opened {
            Err(ErrorCode::EventIsNotOpen)
        } else if self.event_market.data.result != 0 {
            Err(ErrorCode::EventIsFinalized)
        } else {
            Ok(())
        }
    }

    /// Makes the checks that come before the clock is read.
    pub fn precheck(&self, indicate: u8) -> (r: Result<(), ErrorCode>)
        ensures
            r == self.precheck_spec(indicate),
    {
        if !check_stake_accounts(self.payer, self.sbt_mint, self.marker.key, self.user_position.key,
            self.event_position.key, self.event_market.key, indicate) {
            return Err(ErrorCode::UnexpectedAccount);
        }
        match get_ata(&self.payer, &self.sbt_mint, &token_2022_id()) {
            Some(k) => {
                if !k.key_eq(&self.token_account.key) {
                    return Err(ErrorCode::UnexpectedAccount);
                }
            },
            None => return Err(ErrorCode::UnexpectedAccount),
        }
        if !self.event_config.key.key_eq(&self.event_market.data.event_config) {
            return Err(ErrorCode::UnexpectedAccount);
        }
        if !self.event_market.data.is_opened {
            return Err(ErrorCode::EventIsNotOpen);
        }
        if self.event_market.data.result != 0 {
            return Err(ErrorCode::EventIsFinalized);
        }
        Ok(())
    }

    /// The accounts with a new marker, user position and tally.
    pub open spec fn with_stake(self, m: Marker, u: UserPosition, e: EventPosition) -> Choose {
        Choose {
            marker: Account { key: self.marker.key, data: m },
            user_position: Account { key: self.user_position.key, data: u },
            event_position: Account { key: self.event_position.key, data: e },
            ..self
        }
    }

    /// The accounts and result after a choice at time `now`.
    pub open spec fn outcome(pre: Choose, post: Choose, params: ChooseParams, now: i64, r: Result<ChooseEvent, ErrorCode>) -> bool {
        if !pre.addresses_hold(params.indicate) {
            r == Err::<ChooseEvent, ErrorCode>(ErrorCode::UnexpectedAccount) && post == pre
        } else {
        match choice_spec(pre.event_config.key, pre.event_market, pre.token_account.data.amount, pre.marker,
            pre.user_position.data, pre.event_position.data, pre.payer, params.indicate, now) {
            Ok((m, u, e, ev)) => r == Ok::<ChooseEvent, ErrorCode>(ev) && post == pre.with_stake(m, u, e),
            Err(c) => r == Err::<ChooseEvent, ErrorCode>(c) && post == pre,
        }
        }
    }

    /// Stakes the user's SBT on `params.indicate` as of time `now`.
    pub fn process_at(&mut self, params: ChooseParams, now: i64) -> (r: Result<ChooseEvent, ErrorCode>)
        ensures
            Self::outcome(*old(self), *final(self), params, now, r),
    {
        match self.precheck(params.indicate) {
            Ok(()) => {},
            Err(e) => return Err(e),
        }
        if now <= 0 {
            return Err(ErrorCode::Overflow);
        }
        let now_u64 = now as u64;
        if self.event_market.data.expiry_ts <= now_u64 {
            return Err(ErrorCode::EventIsOutOfTime);
        }
        if self.event_market.data.close_ts <= now_u64 {
            return Err(ErrorCode::EventIsOutOfTime);
        }
        if params.indicate == 0 || params.indicate > self.event_market.data.option {
            return Err(ErrorCode::IndicateToNonExistedOption);
        }
        if self.token_account.data.amount == 0 {
            return Err(ErrorCode::SBTNotFound);
        }
        if self.marker.data.indicate != 0 {
            return Err(ErrorCode::SBTHasBeenInUse);
        }
        if self.user_position.data.existed {
            return Err(ErrorCode::AlreadyInEvent);
        }
        let amount = match self.event_position.data.amount.checked_add(1) {
            Some(a) => a,
            None => return Err(ErrorCode::Overflow),
        };
        self.marker.data.event_market = Some(self.event_market.key);
        self.marker.data.indicate = params.indicate;
        self.user_position.data.position_type = PositionType::UserSBTPosition;
        self.user_position.data.existed = true;
        self.user_position.data.marker = self.marker.key;
        self.event_position.data.position_type = PositionType::EventSBTPosition;
        self.event_position.data.amount = amount;
        Ok(ChooseEvent {
            event_type: ChooseEventType::Choose,
            event_market: self.event_market.key,
            user_key: self.payer,
            indicate: params.indicate,
        })
    }

    /// Stakes the user's SBT as of the cluster clock's time. The checks that
    /// do not need the time come first, and a refusal by one of them changes
    /// nothing; then the clock is read.
    pub fn process(&mut self, params: ChooseParams) -> (r: Result<ChooseEvent, InstructionError>)
        ensures
            old(self).precheck_spec(params.indicate) matches Err(c) ==> r == Err::<ChooseEvent, InstructionError>(
                InstructionError::Code(c)) && *final(self) == *old(self),
            r == Err::<ChooseEvent, InstructionError>(InstructionError::ClockUnavailable) ==> *final(self) == *old(self),
            r != Err::<ChooseEvent, InstructionError>(InstructionError::ClockUnavailable) ==>
                exists|now: i64| Self::outcome(*old(self), *final(self), params, now, refusal_of(r)),
    {
        match self.precheck(params.indicate) {
            Ok(()) => {},
            Err(e) => {
                let r = Err(InstructionError::Code(e));
                assert(Self::outcome(*old(self), *self, params, 1, refusal_of(r)));
                return r;
            },
        }
        let clock = match read_clock() {
            Ok(c) => c,
            Err(e) => return Err(e),
        };
        let r = self.process_at(params, clock.unix_timestamp);
        lift_refusal(r)
    }
}

} // verus!
