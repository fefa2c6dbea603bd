//! Creating the master edition SBT of an event option, from which winners'
//! editions are printed.
use vstd::prelude::*;
use crate::context::Account;
use crate::error::ErrorCode;
use crate::factory::chain_event::sbt::{SBTMintEvent, SBTMintEventType};
use crate::factory::instructions::create_sbt::{SbtCreation, sbt_new_mint};
use crate::factory::metaplex::{CreateMetadata, NewMint, PrintSupply};
use crate::factory::state::event_config::EventConfig;
use crate::factory::state::global_config::{GlobalConfig, expect_global_config, is_global_config_key};
use crate::factory::instructions::claim::master_mint_address;
use crate::factory::instructions::initialize_collection::{collection_mint_address, find_collection_mint};
use crate::factory::state::mint_config::{MintConfig, metadata_address, master_edition_address, mint_authority_address};
use crate::factory::token::Mint;
use crate::factory::utils::expect_derived;
use crate::pubkey::{Pubkey, address_of, seeds_view, find_program_address, factory_id};
use crate::seeds::{authority_seed, authority_seed_bytes, sbt_mint_seed, sbt_mint_seed_bytes, byte_seed};

verus! {

/// The name, symbol and URI of the option's SBT, and the option.
#[derive(Clone, Debug, PartialEq, Eq)]
pub struct CreateEventSBTParams {
    pub name: String,
    pub symbol: String,
    pub uri: String,
    pub option: u8,
}

/// The accounts of the creation.
pub struct CreateEventSBT {
    pub payer: Pubkey,
    pub governor: Pubkey,
    pub global_config: Account<GlobalConfig>,
    pub event_config: Account<EventConfig>,
    pub authority: Pubkey,
    pub collection_mint: Account<Mint>,
    pub mint: Pubkey,
    pub metadata: Pubkey,
    pub master_edition: Pubkey,
}

impl CreateEventSBT {
    /// The creation for `params`: the option's mint (bump `bump`), and a
    /// mutable NFT with unlimited prints (signed with `authority_bump`).
    pub open spec fn creation(self, s: SbtCreation, params: CreateEventSBTParams, bump: u8, authority_bump: u8) -> bool {
        let p = s.metadata;
        &&& sbt_new_mint(s.new_mint, self.mint, self.payer, self.authority,
            seq![sbt_mint_seed(), self.event_config.key@, seq![params.option], seq![bump]])
        &&& p.metadata == self.metadata
        &&& p.master_edition == Some(self.master_edition)
        &&& p.mint == self.mint
        &&& p.authority == self.authority
        &&& p.payer == self.payer
        &&& p.update_authority == self.authority
        &&& p.name@ == params.name@
        &&& p.symbol@ == params.symbol@
        &&& p.uri@ == params.uri@
        &&& p.seller_fee_basis_points == 0
        &&& p.is_mutable
        &&& p.collection is None
        &&& p.creator is None
        &&& p.collection_size is None
        &&& p.print_supply == Some(PrintSupply::Unlimited)
        &&& p.decimals == Some(0u8)
        &&& seeds_view(p.signer_seeds@) == seq![authority_seed(), self.collection_mint.key@, seq![authority_bump]]
        &&& s.event == (SBTMintEvent { event_type: SBTMintEventType::CreateSBT, mint_key: self.mint, user_key: self.payer })
    }

    /// Whether the accounts are at their derived addresses: the collection
    /// authority, the collection mint, the option's mint, and its metadata
    /// and master edition.
    pub open spec fn addresses_hold(self, option: u8) -> bool {
        &&& address_of(mint_authority_address(self.collection_mint.key@)) == Some(self.authority@)
        &&& address_of(collection_mint_address()) == Some(self.collection_mint.key@)
        &&& address_of(master_mint_address(self.event_config.key@, option)) == Some(self.mint@)
        &&& address_of(metadata_address(self.mint@)) == Some(self.metadata@)
        &&& address_of(master_edition_address(self.mint@)) == Some(self.master_edition@)
    }

    /// The result of the creation; the accounts are only read. Only the
    /// governor may create; the global configuration and the accounts must be
    /// at their derived addresses;
    /// the option must be one of the event's (1 up to its option count).
    pub open spec fn outcome(pre: Self, params: CreateEventSBTParams, bump: u8, authority_bump: u8, r: Result<SbtCreation, ErrorCode>) -> bool {
        if pre.governor != pre.global_config.data.governor {
            r == Err::<SbtCreation, ErrorCode>(ErrorCode::Unauthorized)
        } else if !is_global_config_key(pre.global_config.key) || !pre.addresses_hold(params.option) {
            r == Err::<SbtCreation, ErrorCode>(ErrorCode::UnexpectedAccount)
        } else if params.option == 0 || params.option > pre.event_config.data.option {
            r == Err::<SbtCreation, ErrorCode>(ErrorCode::InvalidArgument)
        } else {
            r is Ok && pre.creation(r->Ok_0, params, bump, authority_bump)
        }
    }

    /// Asks for the option's master edition SBT.
    pub fn process(&self, params: CreateEventSBTParams, bump: u8, authority_bump: u8) -> (r: Result<SbtCreation, ErrorCode>)
        ensures
            Self::outcome(*self, params, bump, authority_bump, r),
    {
        if !self.governor.key_eq(&self.global_config.data.governor) {
            return Err(ErrorCode::Unauthorized);
        }
        match expect_global_config(&self.global_config.key) {
            Ok(()) => {},
            Err(e) => return Err(e),
        }
        match expect_derived(MintConfig::find_authority(self.collection_mint.key), &self.authority) {
            Ok(_) => {},
            Err(e) => return Err(e),
        }
        match expect_derived(find_collection_mint(), &self.collection_mint.key) {
            Ok(_) => {},
            Err(e) => return Err(e),
        }
        let mut option_seeds: Vec<Vec<u8>> = Vec::new();
        option_seeds.push(sbt_mint_seed_bytes());
        option_seeds.push(self.event_config.key.to_vec());
        option_seeds.push(byte_seed(params.option));
        assert(seeds_view(option_seeds@) =~= seq![sbt_mint_seed(), self.event_config.key@, seq![params.option]]);
        match expect_derived(find_program_address(&option_seeds, &factory_id()), &self.mint) {
            Ok(_) => {},
            Err(e) => return Err(e),
        }
        match expect_derived(MintConfig::find_metadata(self.mint), &self.metadata) {
            Ok(_) => {},
            Err(e) => return Err(e),
        }
        match expect_derived(MintConfig::find_master_edition(self.mint), &self.master_edition) {
            Ok(_) => {},
            Err(e) => return Err(e),
        }
        if params.option == 0 {
            return Err(ErrorCode::InvalidArgument);
        }
        if params.option > self.event_config.data.option {
            return Err(ErrorCode::InvalidArgument);
        }
        let mut mint_seeds: Vec<Vec<u8>> = Vec::new();
        mint_seeds.push(sbt_mint_seed_bytes());
        mint_seeds.push(self.event_config.key.to_vec());
        mint_seeds.push(byte_seed(params.option));
        mint_seeds.push(byte_seed(bump));
        assert(seeds_view(mint_seeds@) =~= seq![sbt_mint_seed(), self.event_config.key@, seq![params.option], seq![bump]]);
        let new_mint = NewMint {
            mint: self.mint,
            payer: self.payer,
            space: 170,
            mint_authority: self.authority,
            freeze_authority: Some(self.authority),
            decimals: 0,
            non_transferable: true,
            signer_seeds: mint_seeds,
        };
        let mut signer_seeds: Vec<Vec<u8>> = Vec::new();
        signer_seeds.push(authority_seed_bytes());
        signer_seeds.push(self.collection_mint.key.to_vec());
        signer_seeds.push(byte_seed(authority_bump));
        assert(seeds_view(signer_seeds@) =~= seq![authority_seed(), self.collection_mint.key@, seq![authority_bump]]);
        let metadata = CreateMetadata {
            metadata: self.metadata,
            master_edition: Some(self.master_edition),
            mint: self.mint,
            authority: self.authority,
            payer: self.payer,
            update_authority: self.authority,
            name: params.name,
            symbol: params.symbol,
            uri: params.uri,
            seller_fee_basis_points: 0,
            is_mutable: true,
            collection: None,
            creator: None,
            collection_size: None,
            print_supply: Some(PrintSupply::Unlimited),
            decimals: Some(0),
            signer_seeds,
        };
        Ok(SbtCreation {
            new_mint,
            metadata,
            event: SBTMintEvent { event_type: SBTMintEventType::CreateSBT, mint_key: self.mint, user_key: self.payer },
        })
    }
}

} // verus!
