//! Events of token balance changes.
use vstd::prelude::*;
use crate::pubkey::Pubkey;

verus! {

/// Emitted when tokens are minted, transferred or burnt: the balances of the
/// accounts involved before and after.
#[derive(Clone, Copy, Debug, PartialEq, Eq)]
pub struct BalanceChangeEvent {
    pub event_type: BalanceChangeEventType,
    pub mint: Pubkey,
    pub from_token_account: Option<Pubkey>,
    pub from_change: Option<U64ValueChange>,
    pub to_token_account: Option<Pubkey>,
    pub to_change: Option<U64ValueChange>,
}

/// How the balances changed.
#[derive(Clone, Copy, Debug, PartialEq, Eq)]
pub enum BalanceChangeEventType {
    Mint,
    Transfer,
    Burn,
}

/// A balance before and after.
#[derive(Clone, Copy, Debug, PartialEq, Eq)]
pub struct U64ValueChange {
    pub old: u64,
    pub new: u64,
}

} // verus!
