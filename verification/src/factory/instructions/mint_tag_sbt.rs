//! The parameters and accounts of minting a tag SBT, which the program
//! declares but does not implement.
use vstd::prelude::*;
use crate::pubkey::Pubkey;

verus! {

/// The name, symbol, URI and decimals of a tag SBT.
#[derive(Clone, Debug, PartialEq, Eq)]
pub struct MintTagSBTParams {
    pub name: String,
    pub symbol: String,
    pub uri: String,
    pub decimals: u8,
}

/// The accounts of a tag SBT mint: only the payer.
#[derive(Clone, Copy, Debug, PartialEq, Eq)]
pub struct MintTagSBT {
    pub payer: Pubkey,
}

} // verus!
