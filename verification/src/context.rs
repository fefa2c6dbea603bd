//! The shape in which instructions receive their accounts.
use vstd::prelude::*;
use crate::pubkey::Pubkey;

verus! {

/// An account as an instruction sees it: its address and its decoded data.
#[derive(Clone, Debug)]
pub struct Account<T> {
    pub key: Pubkey,
    pub data: T,
}

/// What an instruction is invoked with: the id of the program it was sent
/// to, its named accounts, any accounts passed beyond those, and the bump
/// seeds of the accounts derived for it.
#[derive(Clone, Debug)]
pub struct Context<T, B> {
    pub program_id: Pubkey,
    pub accounts: T,
    pub remaining_accounts: Vec<Pubkey>,
    pub bumps: B,
}

} // verus!
