//! Minting the fungible token, up to its maximum supply.
use vstd::prelude::*;
use crate::context::Account;
use crate::error::ErrorCode;
use crate::factory::event::balance::{BalanceChangeEvent, BalanceChangeEventType, U64ValueChange};
use crate::factory::program::FT_MAX_SUPPLY;
use crate::factory::state::global_config::{GlobalConfig, expect_global_config, is_global_config_key};
use crate::factory::state::mint_config::{MintConfig, mint_authority_address};
use crate::factory::token::{Mint, MintTo, MintToView, TokenAccount};
use crate::factory::utils::{get_ata, ata_address, expect_derived};
use crate::pubkey::{Pubkey, address_of, seeds_view};
use crate::seeds::{authority_seed, authority_seed_bytes, byte_seed};

verus! {

/// The amount to mint.
#[derive(Clone, Copy, Debug, PartialEq, Eq)]
pub struct MintTokensParams {
    pub amount: u64,
}

/// The accounts of a mint: the admin, the mint, the receiving user and
/// their token account, and the mint's authority.
pub struct MintTokens {
    pub payer: Pubkey,
    pub global_config: Account<GlobalConfig>,
    pub mint: Account<Mint>,
    pub user: Pubkey,
    pub token_account: Account<TokenAccount>,
    pub authority: Pubkey,
    pub token_program: Pubkey,
}

/// What minting `amount` asks for: the mint and the event; or the refusal.
/// Only the admin may mint; the global configuration must be at its derived
/// address; the destination must be the user's token
/// account and the authority the mint's derived authority; the supply after
/// minting must not exceed the maximum supply; the destination balance must
/// not overflow.
pub open spec fn mint_tokens_spec(c: MintTokens, amount: u64) -> Result<(MintToView, BalanceChangeEvent), ErrorCode> {
    if c.payer != c.global_config.data.admin {
        Err(ErrorCode::Unauthorized)
    } else if !is_global_config_key(c.global_config.key) {
        Err(ErrorCode::UnexpectedAccount)
    } else if ata_address(c.user@, c.mint.key@, c.token_program@) != Some(c.token_account.key@) {
        Err(ErrorCode::UnexpectedAccount)
    } else if address_of(mint_authority_address(c.mint.key@)) != Some(c.authority@) {
        Err(ErrorCode::UnexpectedAccount)
    } else if c.mint.data.supply + amount > u64::MAX {
        Err(ErrorCode::Overflow)
    } else if c.mint.data.supply + amount > FT_MAX_SUPPLY {
        Err(ErrorCode::MintExceedMaxSupply)
    } else if c.token_account.data.amount + amount > u64::MAX {
        Err(ErrorCode::Overflow)
    } else {
        let authority_bump = mint_authority_address(c.mint.key@)->Some_0.1;
        Ok((
            MintToView {
                mint: c.mint.key,
                to: c.token_account.key,
                authority: c.authority,
                amount,
                signer_seeds: seq![authority_seed(), c.mint.key@, seq![authority_bump]],
            },
            BalanceChangeEvent {
                event_type: BalanceChangeEventType::Mint,
                mint: c.mint.key,
                from_token_account: None,
                from_change: None,
                to_token_account: Some(c.token_account.key),
                to_change: Some(U64ValueChange {
                    old: c.token_account.data.amount,
                    new: (c.token_account.data.amount + amount) as u64,
                }),
            },
        ))
    }
}

impl MintTokens {
    /// The user's token account of the mint.
    pub fn get_ata(&self) -> (r: Option<Pubkey>)
        ensures
            match r {
                Some(k) => ata_address(self.user@, self.mint.key@, self.token_program@) == Some(k@),
                None => ata_address(self.user@, self.mint.key@, self.token_program@) is None,
            },
    {
        get_ata(&self.user, &self.mint.key, &self.token_program)
    }

    /// The mint of `amount` to the user's token account, signed by the
    /// mint's authority with bump `authority_bump`.
    pub fn mint_ctx(&self, amount: u64, authority_bump: u8) -> (m: MintTo)
        ensures
            m@ == (MintToView {
                mint: self.mint.key,
                to: self.token_account.key,
                authority: self.authority,
                amount,
                signer_seeds: seq![authority_seed(), self.mint.key@, seq![authority_bump]],
            }),
    {
        let mut signer_seeds: Vec<Vec<u8>> = Vec::new();
        signer_seeds.push(authority_seed_bytes());
        signer_seeds.push(self.mint.key.to_vec());
        signer_seeds.push(byte_seed(authority_bump));
        assert(seeds_view(signer_seeds@) =~= seq![authority_seed(), self.mint.key@, seq![authority_bump]]);
        MintTo { mint: self.mint.key, to: self.token_account.key, authority: self.authority, amount, signer_seeds }
    }

    /// The result of a mint.
    pub open spec fn outcome(pre: Self, params: MintTokensParams, r: Result<(MintTo, BalanceChangeEvent), ErrorCode>) -> bool {
        match mint_tokens_spec(pre, params.amount) {
            Ok((m, e)) => r is Ok && r->Ok_0.0@ == m && r->Ok_0.1 == e,
            Err(c) => r == Err::<(MintTo, BalanceChangeEvent), ErrorCode>(c),
        }
    }

    /// Mints `params.amount` tokens to the user; the accounts are only read.
    pub fn process(&self, params: MintTokensParams) -> (r: Result<(MintTo, BalanceChangeEvent), ErrorCode>)
        ensures
            Self::outcome(*self, params, r),
    {
        if !self.payer.key_eq(&self.global_config.data.admin) {
            return Err(ErrorCode::Unauthorized);
        }
        match expect_global_config(&self.global_config.key) {
            Ok(()) => {},
            Err(e) => return Err(e),
        }
        match self.get_ata() {
            Some(k) => {
                if !k.key_eq(&self.token_account.key) {
                    return Err(ErrorCode::UnexpectedAccount);
                }
            },
            None => return Err(ErrorCode::UnexpectedAccount),
        }
        let authority_bump = match expect_derived(MintConfig::find_authority(self.mint.key), &self.authority) {
            Ok(b) => b,
            Err(e) => return Err(e),
        };
        let supply_after_mint = match self.mint.data.supply.checked_add(params.amount) {
            Some(s) => s,
            None => return Err(ErrorCode::Overflow),
        };
        if supply_after_mint > FT_MAX_SUPPLY {
            return Err(ErrorCode::MintExceedMaxSupply);
        }
        let old_to_balance = self.token_account.data.amount;
        let new_to_balance = match old_to_balance.checked_add(params.amount) {
            Some(b) => b,
            None => return Err(ErrorCode::Overflow),
        };
        let mint_to = self.mint_ctx(params.amount, authority_bump);
        let event = BalanceChangeEvent {
            event_type: BalanceChangeEventType::Mint,
            mint: self.mint.key,
            from_token_account: None,
            from_change: None,
            to_token_account: Some(self.token_account.key),
            to_change: Some(U64ValueChange { old: old_to_balance, new: new_to_balance }),
        };
        Ok((mint_to, event))
    }
}

/// Minting never takes the supply past the maximum supply: the supply plus
/// the minted amount stays within it.
pub proof fn law_mint_respects_max_supply(c: MintTokens, amount: u64)
    requires
        mint_tokens_spec(c, amount) is Ok,
    ensures
        c.mint.data.supply + mint_tokens_spec(c, amount)->Ok_0.0.amount <= FT_MAX_SUPPLY,
        mint_tokens_spec(c, amount)->Ok_0.0.amount == amount,
{
}

} // verus!
