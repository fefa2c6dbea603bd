//! Events of staking on a market.
use vstd::prelude::*;
use crate::pubkey::Pubkey;

verus! {

/// Emitted when a user chooses, withdraws or claims.
#[derive(Clone, Copy, Debug, PartialEq, Eq)]
pub struct ChooseEvent {
    pub event_type: ChooseEventType,
    pub event_market: Pubkey,
    pub user_key: Pubkey,
    pub indicate: u8,
}

/// What a user did.
#[derive(Clone, Copy, Debug, PartialEq, Eq)]
pub enum ChooseEventType {
    Choose,
    Withdraw,
    ClaimWithNonPrize,
    ClaimWithPrize,
    ClaimWithPrizeAndSBT,
}

} // verus!
