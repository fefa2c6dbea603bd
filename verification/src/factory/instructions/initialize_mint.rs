//! Creating the fungible token's mint configuration and metadata.
use vstd::prelude::*;
use crate::context::Account;
use crate::error::ErrorCode;
use crate::factory::instructions::initial_global_config::{is_const_address, const_bump};
use crate::factory::metaplex::CreateMetadata;
use crate::factory::state::global_config::GlobalConfig;
use crate::factory::state::mint_config::{MintConfig, metadata_address, mint_authority_address};
use crate::factory::token::Mint;
use crate::factory::utils::expect_derived;
use crate::pubkey::{Pubkey, address_of, seeds_view};
use crate::seeds::{global_config_seed, mint_seed, mint_config_seed, authority_seed, authority_seed_bytes, byte_seed};

verus! {

/// Parameters for initializing the governance token mint account.
#[derive(Clone, Debug, PartialEq, Eq)]
pub struct InitializeMintParams {
    pub name: String,
    pub symbol: String,
    pub uri: String,
    pub decimals: u8,
}

/// The accounts of the initialization: the admin, the mint and its
/// authority, the mint configuration, the global configuration and the
/// metadata account.
pub struct InitializeMint {
    pub payer: Pubkey,
    pub authority: Pubkey,
    pub mint: Account<Mint>,
    pub mint_config: Account<MintConfig>,
    pub global_config: Account<GlobalConfig>,
    pub metadata_account: Pubkey,
}

impl InitializeMint {
    /// The global configuration, the mint, the mint configuration and the
    /// mint's authority are all at their derived addresses.
    pub open spec fn accounts_derived(self) -> bool {
        &&& is_const_address(global_config_seed(), self.global_config.key)
        &&& is_const_address(mint_seed(), self.mint.key)
        &&& is_const_address(mint_config_seed(), self.mint_config.key)
        &&& address_of(mint_authority_address(self.mint.key@)) == Some(self.authority@)
    }

    /// The metadata call of the initialization: a mutable fungible metadata
    /// account whose update authority is the mint's authority.
    pub open spec fn metadata_call(self, p: CreateMetadata, params: InitializeMintParams) -> bool {
        &&& p.metadata == self.metadata_account
        &&& p.master_edition is None
        &&& p.mint == self.mint.key
        &&& p.authority == self.authority
        &&& p.payer == self.payer
        &&& p.update_authority == self.authority
        &&& p.name@ == params.name@
        &&& p.symbol@ == params.symbol@
        &&& p.uri@ == params.uri@
        &&& p.seller_fee_basis_points == 0
        &&& p.is_mutable
        &&& p.collection is None
        &&& p.creator is None
        &&& p.collection_size is None
        &&& p.print_supply is None
        &&& p.decimals is None
        &&& seeds_view(p.signer_seeds@) == seq![authority_seed(), self.mint.key@,
            seq![mint_authority_address(self.mint.key@)->Some_0.1]]
    }

    /// The accounts and result after the initialization. Only the admin may
    /// initialize; the metadata account and every other account must be at
    /// its derived address. The mint configuration records the mint, its
    /// metadata account and the bumps.
    pub open spec fn outcome(pre: Self, post: Self, params: InitializeMintParams, r: Result<CreateMetadata, ErrorCode>) -> bool {
        if pre.payer != pre.global_config.data.admin {
            r == Err::<CreateMetadata, ErrorCode>(ErrorCode::Unauthorized) && post == pre
        } else if address_of(metadata_address(pre.mint.key@)) != Some(pre.metadata_account@) || !pre.accounts_derived() {
            r == Err::<CreateMetadata, ErrorCode>(ErrorCode::UnexpectedAccount) && post == pre
        } else {
            &&& r is Ok
            &&& pre.metadata_call(r->Ok_0, params)
            &&& post == (InitializeMint {
                mint_config: Account {
                    key: pre.mint_config.key,
                    data: MintConfig {
                        mint: pre.mint.key,
                        metadata: pre.metadata_account,
                        mint_bump: const_bump(mint_seed()),
                        config_bump: const_bump(mint_config_seed()),
                        metadata_bump: metadata_address(pre.mint.key@)->Some_0.1,
                        authority_bump: mint_authority_address(pre.mint.key@)->Some_0.1,
                    },
                },
                ..pre
            })
        }
    }

    /// The metadata call for `params`, signed by the mint's authority with
    /// bump `authority_bump`.
    pub fn create_metadata_accounts_ctx(&self, params: InitializeMintParams, authority_bump: u8) -> (p: CreateMetadata)
        ensures
            authority_bump == mint_authority_address(self.mint.key@)->Some_0.1 ==> self.metadata_call(p, params),
    {
        let mut signer_seeds: Vec<Vec<u8>> = Vec::new();
        signer_seeds.push(authority_seed_bytes());
        signer_seeds.push(self.mint.key.to_vec());
        signer_seeds.push(byte_seed(authority_bump));
        assert(seeds_view(signer_seeds@) =~= seq![authority_seed(), self.mint.key@, seq![authority_bump]]);
        CreateMetadata {
            metadata: self.metadata_account,
            master_edition: None,
            mint: self.mint.key,
            authority: self.authority,
            payer: self.payer,
            update_authority: self.authority,
            name: params.name,
            symbol: params.symbol,
            uri: params.uri,
            seller_fee_basis_points: 0,
            is_mutable: true,
            collection: None,
            creator: None,
            collection_size: None,
            print_supply: None,
            decimals: None,
            signer_seeds,
        }
    }

    /// Initializes the mint configuration and asks for the mint's metadata.
    pub fn process(&mut self, params: InitializeMintParams) -> (r: Result<CreateMetadata, ErrorCode>)
        ensures
            Self::outcome(*old(self), *final(self), params, r),
    {
        if !self.payer.key_eq(&self.global_config.data.admin) {
            return Err(ErrorCode::Unauthorized);
        }
        let metadata_bump = match expect_derived(MintConfig::find_metadata(self.mint.key), &self.metadata_account) {
            Ok(b) => b,
            Err(e) => return Err(e),
        };
        match expect_derived(GlobalConfig::find_global_config_account(), &self.global_config.key) {
            Ok(_) => {},
            Err(e) => return Err(e),
        }
        let mint_bump = match expect_derived(MintConfig::find_mint(None), &self.mint.key) {
            Ok(b) => b,
            Err(e) => return Err(e),
        };
        let config_bump = match expect_derived(MintConfig::find_mint_config(None), &self.mint_config.key) {
            Ok(b) => b,
            Err(e) => return Err(e),
        };
        let authority_bump = match expect_derived(MintConfig::find_authority(self.mint.key), &self.authority) {
            Ok(b) => b,
            Err(e) => return Err(e),
        };
        let call = self.create_metadata_accounts_ctx(params, authority_bump);
        let mint_config = &mut self.mint_config.data;
        mint_config.mint = self.mint.key;
        mint_config.metadata = self.metadata_account;
        mint_config.mint_bump = mint_bump;
        mint_config.config_bump = config_bump;
        mint_config.metadata_bump = metadata_bump;
        mint_config.authority_bump = authority_bump;
        Ok(call)
    }
}

} // verus!
