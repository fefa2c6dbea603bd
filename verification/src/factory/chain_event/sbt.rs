//! Events of SBT minting.
use vstd::prelude::*;
use crate::pubkey::Pubkey;

verus! {

/// Emitted when an SBT mint is created, its token minted, or an edition
/// printed to a user.
#[derive(Clone, Copy, Debug, PartialEq, Eq)]
pub struct SBTMintEvent {
    pub event_type: SBTMintEventType,
    pub mint_key: Pubkey,
    pub user_key: Pubkey,
}

/// What was minted.
#[derive(Clone, Copy, Debug, PartialEq, Eq)]
pub enum SBTMintEventType {
    CreateSBT,
    MintSBT,
    PrintSBT,
}

} // verus!
