//! Replacing the vision mining admin.
use vstd::prelude::*;
use crate::context::Account;
use crate::error::ErrorCode;
use crate::factory::state::global_config::{GlobalConfig, expect_global_config, is_global_config_key};
use crate::pubkey::Pubkey;

verus! {

/// The accounts of the change: the configuration, the caller, and the new
/// vision mining admin.
pub struct ChangeVisionMiningAdmin {
    pub global_config: Account<GlobalConfig>,
    pub user: Pubkey,
    pub vision_mining_admin_pubkey: Pubkey,
}

impl ChangeVisionMiningAdmin {
    /// The accounts and result after the change: the configuration must be
    /// at its derived address, and only the admin may change the vision
    /// mining admin.
    pub open spec fn outcome(pre: Self, post: Self, r: Result<(), ErrorCode>) -> bool {
        if !is_global_config_key(pre.global_config.key) {
            r == Err::<(), ErrorCode>(ErrorCode::UnexpectedAccount) && post == pre
        } else if pre.user != pre.global_config.data.admin {
            r == Err::<(), ErrorCode>(ErrorCode::Unauthorized) && post == pre
        } else {
            r is Ok && post == (ChangeVisionMiningAdmin {
                global_config: Account {
                    key: pre.global_config.key,
                    data: GlobalConfig { vision_mining_admin: pre.vision_mining_admin_pubkey, ..pre.global_config.data },
                },
                ..pre
            })
        }
    }

    /// Makes the given key the vision mining admin.
    pub fn process(&mut self) -> (r: Result<(), ErrorCode>)
        ensures
            Self::outcome(*old(self), *final(self), r),
    {
        match expect_global_config(&self.global_config.key) {
            Ok(()) => {},
            Err(e) => return Err(e),
        }
        if !self.user.key_eq(&self.global_config.data.admin) {
            return Err(ErrorCode::Unauthorized);
        }
        self.global_config.data.vision_mining_admin = self.vision_mining_admin_pubkey;
        Ok(())
    }
}

} // verus!
