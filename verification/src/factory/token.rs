//! The token accounts the factory reads, and the token program calls it
//! asks for.
use vstd::prelude::*;
use crate::pubkey::{Pubkey, seeds_view};

verus! {

/// A token mint as the factory reads it.
#[derive(Clone, Copy, Debug, PartialEq, Eq)]
pub struct Mint {
    pub supply: u64,
    pub decimals: u8,
}

/// A token account as the factory reads it.
#[derive(Clone, Copy, Debug, PartialEq, Eq)]
pub struct TokenAccount {
    pub mint: Pubkey,
    pub owner: Pubkey,
    pub amount: u64,
}

/// A checked transfer of `amount` tokens of `mint` from `from` to `to`,
/// signed by the program-derived `authority` with `signer_seeds`.
#[derive(Clone, Debug, PartialEq, Eq)]
pub struct TransferChecked {
    pub from: Pubkey,
    pub mint: Pubkey,
    pub to: Pubkey,
    pub authority: Pubkey,
    pub amount: u64,
    pub decimals: u8,
    pub signer_seeds: Vec<Vec<u8>>,
}

/// The content of a transfer, its signer seeds as byte sequences.
pub struct TransferCheckedView {
    pub from: Pubkey,
    pub mint: Pubkey,
    pub to: Pubkey,
    pub authority: Pubkey,
    pub amount: u64,
    pub decimals: u8,
    pub signer_seeds: Seq<Seq<u8>>,
}

impl View for TransferChecked {
    type V = TransferCheckedView;

    open spec fn view(&self) -> TransferCheckedView {
        TransferCheckedView {
            from: self.from,
            mint: self.mint,
            to: self.to,
            authority: self.authority,
            amount: self.amount,
            decimals: self.decimals,
            signer_seeds: seeds_view(self.signer_seeds@),
        }
    }
}

/// Minting `amount` tokens of `mint` to `to`, signed by the program-derived
/// `authority` with `signer_seeds`.
#[derive(Clone, Debug, PartialEq, Eq)]
pub struct MintTo {
    pub mint: Pubkey,
    pub to: Pubkey,
    pub authority: Pubkey,
    pub amount: u64,
    pub signer_seeds: Vec<Vec<u8>>,
}

/// The content of a mint, its signer seeds as byte sequences.
pub struct MintToView {
    pub mint: Pubkey,
    pub to: Pubkey,
    pub authority: Pubkey,
    pub amount: u64,
    pub signer_seeds: Seq<Seq<u8>>,
}

impl View for MintTo {
    type V = MintToView;

    open spec fn view(&self) -> MintToView {
        MintToView {
            mint: self.mint,
            to: self.to,
            authority: self.authority,
            amount: self.amount,
            signer_seeds: seeds_view(self.signer_seeds@),
        }
    }
}

} // verus!
