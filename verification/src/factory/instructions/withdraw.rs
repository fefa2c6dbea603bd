//! Taking one's SBT back from an option before the market is resolved.
use vstd::prelude::*;
use crate::context::Account;
use crate::error::ErrorCode;
use crate::factory::chain_event::choice::{ChooseEvent, ChooseEventType};
use crate::factory::instructions::choice::{check_stake_accounts, stake_accounts_hold};
use crate::factory::state::event_market::EventMarket;
use crate::factory::state::event_position::EventPosition;
use crate::factory::state::marker::Marker;
use crate::factory::state::user_position::UserPosition;
use crate::pubkey::Pubkey;

verus! {

/// The option the SBT is staked on.
#[derive(Clone, Copy, Debug, PartialEq, Eq)]
pub struct WithdrawParams {
    pub indicate: u8,
}

/// The accounts of a withdrawal: the user, their main SBT's mint and
/// marker, their position in the market (closed by the withdrawal), the
/// tally of the option, and the market.
pub struct Withdraw {
    pub payer: Pubkey,
    pub sbt_mint: Pubkey,
    pub marker: Account<Marker>,
    pub user_position: Account<UserPosition>,
    pub event_position: Account<EventPosition>,
    pub event_market: Account<EventMarket>,
}

/// What withdrawing from option `indicate` yields: the freed marker, the
/// closed position, the decreased tally and the event; or the refusal. The
/// marker must be staked on that option and the tally must be positive.
pub open spec fn withdraw_spec(
    marker: Marker,
    event_position: EventPosition,
    event_market_key: Pubkey,
    payer: Pubkey,
    indicate: u8,
) -> Result<(Marker, UserPosition, EventPosition, ChooseEvent), ErrorCode> {
    if marker.indicate != indicate {
        Err(ErrorCode::PositionNotFound)
    } else if event_position.amount == 0 {
        Err(ErrorCode::Overflow)
    } else {
        Ok((
            Marker { indicate: 0, ..marker },
            UserPosition::vacant(),
            EventPosition { amount: (event_position.amount - 1) as u64, ..event_position },
            ChooseEvent { event_type: ChooseEventType::Withdraw, event_market: event_market_key, user_key: payer, indicate: 0 },
        ))
    }
}

impl Withdraw {
    /// The accounts with a new marker, user position and tally.
    pub open spec fn with_stake(self, m: Marker, u: UserPosition, e: EventPosition) -> Withdraw {
        Withdraw {
            marker: Account { key: self.marker.key, data: m },
            user_position: Account { key: self.user_position.key, data: u },
            event_position: Account { key: self.event_position.key, data: e },
            ..self
        }
    }

    /// The accounts and result after a withdrawal: the stake accounts must
    /// be the derived ones for option `params.indicate`
    /// (`stake_accounts_hold`), then `withdraw_spec` decides.
    pub open spec fn outcome(pre: Self, post: Self, params: WithdrawParams, r: Result<ChooseEvent, ErrorCode>) -> bool {
        if !stake_accounts_hold(pre.payer, pre.sbt_mint, pre.marker.key, pre.user_position.key, pre.event_position.key,
            pre.event_market.key, params.indicate) {
            r == Err::<ChooseEvent, ErrorCode>(ErrorCode::UnexpectedAccount) && post == pre
        } else {
            match withdraw_spec(pre.marker.data, pre.event_position.data, pre.event_market.key, pre.payer, params.indicate) {
                Ok((m, u, e, ev)) => r == Ok::<ChooseEvent, ErrorCode>(ev) && post == pre.with_stake(m, u, e),
                Err(c) => r == Err::<ChooseEvent, ErrorCode>(c) && post == pre,
            }
        }
    }

    /// Withdraws the user's SBT from `params.indicate`.
    pub fn process(&mut self, params: WithdrawParams) -> (r: Result<ChooseEvent, ErrorCode>)
        ensures
            Self::outcome(*old(self), *final(self), params, r),
    {
        if !check_stake_accounts(self.payer, self.sbt_mint, self.marker.key, self.user_position.key,
            self.event_position.key, self.event_market.key, params.indicate) {
            return Err(ErrorCode::UnexpectedAccount);
        }
        if self.marker.data.indicate != params.indicate {
            return Err(ErrorCode::PositionNotFound);
        }
        let amount = match self.event_position.data.amount.checked_sub(1) {
            Some(a) => a,
            None => return Err(ErrorCode::Overflow),
        };
        self.marker.data.indicate = 0;
        self.event_position.data.amount = amount;
        self.user_position.data = UserPosition::new_vacant();
        Ok(ChooseEvent {
            event_type: ChooseEventType::Withdraw,
            event_market: self.event_market.key,
            user_key: self.payer,
            indicate: 0,
        })
    }
}

} // verus!
