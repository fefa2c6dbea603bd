//! The event the oracle program emits when oracle data is set.
use vstd::prelude::*;
use crate::pubkey::Pubkey;

verus! {

/// A change of a `u64` field.
#[derive(Clone, Copy, Debug, PartialEq, Eq)]
pub struct U64ValueChange {
    pub old: u64,
    pub new: u64,
}

/// A change of a `u8` field.
#[derive(Clone, Copy, Debug, PartialEq, Eq)]
pub struct U8ValueChange {
    pub old: u8,
    pub new: u8,
}

/// Emitted when oracle data is set: the data account, and for each field
/// the change it underwent, if it changed.
#[derive(Clone, Copy, Debug, PartialEq, Eq)]
pub struct SetOracleDataEvent {
    pub state: Pubkey,
    pub phase_change: Option<U8ValueChange>,
    pub raw_data_change: Option<U64ValueChange>,
    pub decimals_change: Option<U8ValueChange>,
    pub timestamp_change: Option<U64ValueChange>,
}

/// The change from `old` to `new`, if they differ.
pub open spec fn u8_change(old: u8, new: u8) -> Option<U8ValueChange> {
    if old == new { None } else { Some(U8ValueChange { old, new }) }
}

/// The change from `old` to `new`, if they differ.
pub open spec fn u64_change(old: u64, new: u64) -> Option<U64ValueChange> {
    if old == new { None } else { Some(U64ValueChange { old, new }) }
}

} // verus!
