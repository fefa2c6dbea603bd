//! Paying out vision mining rewards, authorized by the vision mining admin.
use vstd::prelude::*;
use crate::context::Account;
use crate::error::{ErrorCode, InstructionError, refusal_of, lift_refusal};
use crate::factory::event::balance::{BalanceChangeEvent, BalanceChangeEventType, U64ValueChange};
use crate::factory::state::global_config::{GlobalConfig, expect_global_config, is_global_config_key, factory_const_address};
use crate::factory::state::mint_config::{MintConfig, config_scoped_seeds};
use crate::factory::token::{Mint, TokenAccount, TransferChecked, TransferCheckedView};
use crate::factory::utils::{get_ata, ata_address, expect_derived};
use crate::pubkey::{Pubkey, seeds_view, address_of, program_address, factory_id_spec};
use crate::seeds::{ft_vision_mining_pda_seed, ft_vision_mining_pda_seed_bytes, byte_seed, mint_seed};
use crate::sysvar::read_clock;

verus! {

/// The reward, and the time until which the admin's authorization holds.
#[derive(Clone, Copy, Debug, PartialEq, Eq)]
pub struct VisionMiningClaimParams {
    pub amount: u64,
    pub valid_until_time: u64,
}

/// The accounts of a payout.
pub struct VisionMiningClaim {
    pub payer: Pubkey,
    pub vision_mining_admin: Pubkey,
    pub global_config: Account<GlobalConfig>,
    pub mint: Account<Mint>,
    pub vision_mining_pda: Pubkey,
    pub vision_mining_token_account: Account<TokenAccount>,
    pub token_account: Account<TokenAccount>,
    pub token_program: Pubkey,
}

/// The checks made before the clock is read: the admin must be the
/// configured vision mining admin; the global configuration, the fungible
/// mint and the vision mining authority must be at their derived addresses;
/// and the source must be the vision mining authority's token account.
pub open spec fn vision_claim_precheck(c: VisionMiningClaim) -> Result<(), ErrorCode> {
    if c.vision_mining_admin != c.global_config.data.vision_mining_admin {
        Err(ErrorCode::Unauthorized)
    } else if !is_global_config_key(c.global_config.key)
        || address_of(program_address(config_scoped_seeds(mint_seed(), None), factory_id_spec())) != Some(c.mint.key@)
        || address_of(factory_const_address(ft_vision_mining_pda_seed())) != Some(c.vision_mining_pda@) {
        Err(ErrorCode::UnexpectedAccount)
    } else if ata_address(c.vision_mining_pda@, c.mint.key@, c.token_program@) != Some(c.vision_mining_token_account.key@) {
        Err(ErrorCode::UnexpectedAccount)
    } else {
        Ok(())
    }
}

/// What a payout at time `now` asks for: the transfer and the event; or the
/// refusal. After the checks of `vision_claim_precheck`, the time must be
/// positive and before the authorization's end; the source must hold the
/// amount and the destination balance must not overflow.
pub open spec fn vision_claim_spec(c: VisionMiningClaim, params: VisionMiningClaimParams, now: i64)
    -> Result<(TransferCheckedView, BalanceChangeEvent), ErrorCode>
{
    let from = c.vision_mining_token_account;
    let to = c.token_account;
    if vision_claim_precheck(c) is Err {
        Err(vision_claim_precheck(c)->Err_0)
    } else if now <= 0 {
        Err(ErrorCode::Overflow)
    } else if params.valid_until_time <= now as u64 {
        Err(ErrorCode::TransactionTimeout)
    } else if from.data.amount < params.amount {
        Err(ErrorCode::NotSufficientBalance)
    } else if to.data.amount + params.amount > u64::MAX {
        Err(ErrorCode::Overflow)
    } else {
        Ok((
            TransferCheckedView {
                from: from.key,
                mint: c.mint.key,
                to: to.key,
                authority: c.vision_mining_pda,
                amount: params.amount,
                decimals: c.mint.data.decimals,
                signer_seeds: seq![ft_vision_mining_pda_seed(), seq![c.global_config.data.vision_mining_bump]],
            },
            BalanceChangeEvent {
                event_type: BalanceChangeEventType::Transfer,
                mint: c.mint.key,
                from_token_account: Some(from.key),
                from_change: Some(U64ValueChange { old: from.data.amount, new: (from.data.amount - params.amount) as u64 }),
                to_token_account: Some(to.key),
                to_change: Some(U64ValueChange { old: to.data.amount, new: (to.data.amount + params.amount) as u64 }),
            },
        ))
    }
}

impl VisionMiningClaim {
    /// The vision mining authority's token account of the mint.
    pub fn get_ata(&self) -> (r: Option<Pubkey>)
        ensures
            match r {
                Some(k) => ata_address(self.vision_mining_pda@, self.mint.key@, self.token_program@) == Some(k@),
                None => ata_address(self.vision_mining_pda@, self.mint.key@, self.token_program@) is None,
            },
    {
        get_ata(&self.vision_mining_pda, &self.mint.key, &self.token_program)
    }

    /// The transfer of `amount` from the vision mining account to the user.
    pub fn transfer_ctx(&self, amount: u64) -> (t: TransferChecked)
        ensures
            t@ == (TransferCheckedView {
                from: self.vision_mining_token_account.key,
                mint: self.mint.key,
                to: self.token_account.key,
                authority: self.vision_mining_pda,
                amount,
                decimals: self.mint.data.decimals,
                signer_seeds: seq![ft_vision_mining_pda_seed(), seq![self.global_config.data.vision_mining_bump]],
            }),
    {
        let mut signer_seeds: Vec<Vec<u8>> = Vec::new();
        signer_seeds.push(ft_vision_mining_pda_seed_bytes());
        signer_seeds.push(byte_seed(self.global_config.data.vision_mining_bump));
        assert(seeds_view(signer_seeds@) =~= seq![ft_vision_mining_pda_seed(), seq![self.global_config.data.vision_mining_bump]]);
        TransferChecked {
            from: self.vision_mining_token_account.key,
            mint: self.mint.key,
            to: self.token_account.key,
            authority: self.vision_mining_pda,
            amount,
            decimals: self.mint.data.decimals,
            signer_seeds,
        }
    }

    /// The result of a payout at time `now`; the accounts are only read.
    pub open spec fn outcome(pre: Self, params: VisionMiningClaimParams, now: i64, r: Result<(TransferChecked, BalanceChangeEvent), ErrorCode>) -> bool {
        match vision_claim_spec(pre, params, now) {
            Ok((t, e)) => r is Ok && r->Ok_0.0@ == t && r->Ok_0.1 == e,
            Err(c) => r == Err::<(TransferChecked, BalanceChangeEvent), ErrorCode>(c),
        }
    }

    /// Makes the checks that come before the clock is read.
    pub fn precheck(&self) -> (r: Result<(), ErrorCode>)
        ensures
            r == vision_claim_precheck(*self),
    {
        if !self.vision_mining_admin.key_eq(&self.global_config.data.vision_mining_admin) {
            return Err(ErrorCode::Unauthorized);
        }
        match expect_global_config(&self.global_config.key) {
            Ok(()) => {},
            Err(e) => return Err(e),
        }
        match expect_derived(MintConfig::find_mint(None), &self.mint.key) {
            Ok(_) => {},
            Err(e) => return Err(e),
        }
        match expect_derived(GlobalConfig::find_vision_mining_authority(), &self.vision_mining_pda) {
            Ok(_) => {},
            Err(e) => return Err(e),
        }
        match self.get_ata() {
            Some(k) => {
                if !k.key_eq(&self.vision_mining_token_account.key) {
                    return Err(ErrorCode::UnexpectedAccount);
                }
            },
            None => return Err(ErrorCode::UnexpectedAccount),
        }
        Ok(())
    }

    /// Pays out as of time `now`.
    pub fn process_at(&self, params: VisionMiningClaimParams, now: i64) -> (r: Result<(TransferChecked, BalanceChangeEvent), ErrorCode>)
        ensures
            Self::outcome(*self, params, now, r),
    {
        match self.precheck() {
            Ok(()) => {},
            Err(e) => return Err(e),
        }
        if now <= 0 {
            return Err(ErrorCode::Overflow);
        }
        if params.valid_until_time <= now as u64 {
            return Err(ErrorCode::TransactionTimeout);
        }
        let old_from_balance = self.vision_mining_token_account.data.amount;
        let old_to_balance = self.token_account.data.amount;
        let new_from_balance = match old_from_balance.checked_sub(params.amount) {
            Some(b) => b,
            None => return Err(ErrorCode::NotSufficientBalance),
        };
        let new_to_balance = match old_to_balance.checked_add(params.amount) {
            Some(b) => b,
            None => return Err(ErrorCode::Overflow),
        };
        let transfer = self.transfer_ctx(params.amount);
        let event = BalanceChangeEvent {
            event_type: BalanceChangeEventType::Transfer,
            mint: self.mint.key,
            from_token_account: Some(self.vision_mining_token_account.key),
            from_change: Some(U64ValueChange { old: old_from_balance, new: new_from_balance }),
            to_token_account: Some(self.token_account.key),
            to_change: Some(U64ValueChange { old: old_to_balance, new: new_to_balance }),
        };
        Ok((transfer, event))
    }

    /// Pays out as of the cluster clock's time. The checks that do not need
    /// the clock come first; then the clock is read.
    pub fn process(&self, params: VisionMiningClaimParams) -> (r: Result<(TransferChecked, BalanceChangeEvent), InstructionError>)
        ensures
            vision_claim_precheck(*self) matches Err(c) ==> r == Err::<(TransferChecked, BalanceChangeEvent), InstructionError>(
                InstructionError::Code(c)),
            r != Err::<(TransferChecked, BalanceChangeEvent), InstructionError>(InstructionError::ClockUnavailable) ==>
                exists|now: i64| Self::outcome(*self, params, now, refusal_of(r)),
    {
        match self.precheck() {
            Ok(()) => {},
            Err(e) => {
                let r = Err(InstructionError::Code(e));
                assert(Self::outcome(*self, params, 1, refusal_of(r)));
                return r;
            },
        }
        let clock = match read_clock() {
            Ok(c) => c,
            Err(e) => return Err(e),
        };
        let r = self.process_at(params, clock.unix_timestamp);
        lift_refusal(r)
    }
}

/// A payout moves exactly the claimed amount: the source loses it, the
/// destination gains it, and the two balances sum as before.
pub proof fn law_vision_claim_conserves_balances(c: VisionMiningClaim, params: VisionMiningClaimParams, now: i64)
    requires
        vision_claim_spec(c, params, now) is Ok,
    ensures
        ({
            let (t, e) = vision_claim_spec(c, params, now)->Ok_0;
            let f = e.from_change->Some_0;
            let g = e.to_change->Some_0;
            &&& t.amount == params.amount
            &&& f.old == f.new + params.amount
            &&& g.new == g.old + params.amount
            &&& f.new + g.new == f.old + g.old
        }),
{
}

} // verus!
