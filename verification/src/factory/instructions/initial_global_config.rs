//! Creating the global configuration.
use vstd::prelude::*;
use crate::context::Account;
use crate::error::ErrorCode;
use crate::factory::state::global_config::{GlobalConfig, factory_const_address};
use crate::factory::utils::expect_derived;
use crate::pubkey::{Pubkey, address_of};
use crate::seeds::{global_config_seed, ft_vision_mining_pda_seed, ft_event_mining_pda_seed, ft_stake_mining_pda_seed};

verus! {

/// The accounts of the creation: the configuration, its admin, the three
/// mining authorities and the vision mining admin.
pub struct InitializeGlobalConfig {
    pub global_config: Account<GlobalConfig>,
    pub user: Pubkey,
    pub vision_mining_pda: Pubkey,
    pub event_mining_pda: Pubkey,
    pub stake_mining_pda: Pubkey,
    pub vision_mining_admin_pubkey: Pubkey,
}

/// `key` is the address derived from `seed`.
pub open spec fn is_const_address(seed: Seq<u8>, key: Pubkey) -> bool {
    address_of(factory_const_address(seed)) == Some(key@)
}

/// The bump of the address derived from `seed`.
pub open spec fn const_bump(seed: Seq<u8>) -> u8 {
    factory_const_address(seed)->Some_0.1
}

impl InitializeGlobalConfig {
    /// Every account is at its derived address.
    pub open spec fn accounts_derived(self) -> bool {
        &&& is_const_address(global_config_seed(), self.global_config.key)
        &&& is_const_address(ft_vision_mining_pda_seed(), self.vision_mining_pda)
        &&& is_const_address(ft_event_mining_pda_seed(), self.event_mining_pda)
        &&& is_const_address(ft_stake_mining_pda_seed(), self.stake_mining_pda)
    }

    /// The accounts and result after the creation: every account must be at
    /// its derived address. The caller becomes the admin; the stake mining
    /// authority recorded is the event mining one, as the program has always
    /// recorded it.
    pub open spec fn outcome(pre: Self, post: Self, r: Result<(), ErrorCode>) -> bool {
        if !pre.accounts_derived() {
            r == Err::<(), ErrorCode>(ErrorCode::UnexpectedAccount) && post == pre
        } else {
            r is Ok && post == (InitializeGlobalConfig {
                global_config: Account {
                    key: pre.global_config.key,
                    data: GlobalConfig {
                        admin: pre.user,
                        vision_mining_pda: pre.vision_mining_pda,
                        event_mining_pda: pre.event_mining_pda,
                        stake_mining_pda: pre.event_mining_pda,
                        vision_mining_admin: pre.vision_mining_admin_pubkey,
                        global_config_bump: const_bump(global_config_seed()),
                        vision_mining_bump: const_bump(ft_vision_mining_pda_seed()),
                        event_mining_bump: const_bump(ft_event_mining_pda_seed()),
                        stake_mining_bump: const_bump(ft_stake_mining_pda_seed()),
                        ..pre.global_config.data
                    },
                },
                ..pre
            })
        }
    }

    /// Fills the configuration.
    pub fn process(&mut self) -> (r: Result<(), ErrorCode>)
        ensures
            Self::outcome(*old(self), *final(self), r),
    {
        let global = GlobalConfig::find_global_config_account();
        let vision = GlobalConfig::find_vision_mining_authority();
        let event = GlobalConfig::find_event_mining_authority();
        let stake = GlobalConfig::find_stake_mining_authority();
        let global_bump = match expect_derived(global, &self.global_config.key) {
            Ok(b) => b,
            Err(e) => return Err(e),
        };
        let vision_bump = match expect_derived(vision, &self.vision_mining_pda) {
            Ok(b) => b,
            Err(e) => return Err(e),
        };
        let event_bump = match expect_derived(event, &self.event_mining_pda) {
            Ok(b) => b,
            Err(e) => return Err(e),
        };
        let stake_bump = match expect_derived(stake, &self.stake_mining_pda) {
            Ok(b) => b,
            Err(e) => return Err(e),
        };
        let global_config_account = &mut self.global_config.data;
        global_config_account.admin = self.user;
        global_config_account.vision_mining_pda = self.vision_mining_pda;
        global_config_account.event_mining_pda = self.event_mining_pda;
        global_config_account.stake_mining_pda = self.event_mining_pda;
        global_config_account.vision_mining_admin = self.vision_mining_admin_pubkey;
        global_config_account.global_config_bump = global_bump;
        global_config_account.vision_mining_bump = vision_bump;
        global_config_account.event_mining_bump = event_bump;
        global_config_account.stake_mining_bump = stake_bump;
        Ok(())
    }
}

} // verus!
