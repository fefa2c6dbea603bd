//! Creating the collection NFT that every SBT belongs to.
use vstd::prelude::*;
use crate::context::Account;
use crate::error::ErrorCode;
use crate::factory::metaplex::{CreateMetadata, NewMint, PrintSupply};
use crate::factory::state::global_config::{GlobalConfig, expect_global_config, is_global_config_key};
use crate::factory::state::mint_config::{MintConfig, metadata_address, master_edition_address, mint_authority_address};
use crate::factory::token::Mint;
use crate::factory::utils::expect_derived;
use crate::pubkey::{Pubkey, address_of, seeds_view, find_program_address, factory_id, factory_id_spec, program_address, found_view};
use crate::seeds::{authority_seed, authority_seed_bytes, byte_seed, collection_seed, collection_seed_bytes};

verus! {

/// The name, symbol and URI of the collection.
#[derive(Clone, Debug, PartialEq, Eq)]
pub struct InitializeCollectionParams {
    pub name: String,
    pub symbol: String,
    pub uri: String,
}

/// The size of a mint account without extensions.
pub open spec fn plain_mint_space() -> u64 {
    82
}

/// The address of the collection mint.
pub open spec fn collection_mint_address() -> Option<(Seq<u8>, u8)> {
    program_address(seq![collection_seed()], factory_id_spec())
}

/// Finds the address of the collection mint.
pub fn find_collection_mint() -> (r: Option<(Pubkey, u8)>)
    ensures
        found_view(r) == collection_mint_address(),
{
    let mut seeds: Vec<Vec<u8>> = Vec::new();
    seeds.push(collection_seed_bytes());
    assert(seeds_view(seeds@) =~= seq![collection_seed()]);
    find_program_address(&seeds, &factory_id())
}

/// What creating the collection asks for: the collection mint account, and
/// its metadata and master edition.
#[derive(Clone, Debug, PartialEq, Eq)]
pub struct CollectionCreation {
    pub new_mint: NewMint,
    pub metadata: CreateMetadata,
}

/// The accounts of the creation: the admin, the collection mint and its
/// authority, and its metadata and master edition accounts.
pub struct InitializeCollection {
    pub payer: Pubkey,
    pub global_config: Account<GlobalConfig>,
    pub authority: Pubkey,
    pub mint: Account<Mint>,
    pub metadata: Pubkey,
    pub master_edition: Pubkey,
}

impl InitializeCollection {
    /// The metadata call: a mutable, unprintable collection NFT whose
    /// verified creator, with the whole share, and update authority are the
    /// mint's authority.
    pub open spec fn metadata_call(self, p: CreateMetadata, params: InitializeCollectionParams) -> bool {
        &&& p.metadata == self.metadata
        &&& p.master_edition == Some(self.master_edition)
        &&& p.mint == self.mint.key
        &&& p.authority == self.authority
        &&& p.payer == self.payer
        &&& p.update_authority == self.authority
        &&& p.name@ == params.name@
        &&& p.symbol@ == params.symbol@
        &&& p.uri@ == params.uri@
        &&& p.seller_fee_basis_points == 0
        &&& p.is_mutable
        &&& p.collection is None
        &&& p.creator == Some(self.authority)
        &&& p.collection_size == Some(0u64)
        &&& p.print_supply == Some(PrintSupply::Zero)
        &&& p.decimals == Some(0u8)
        &&& seeds_view(p.signer_seeds@) == seq![authority_seed(), self.mint.key@,
            seq![mint_authority_address(self.mint.key@)->Some_0.1]]
    }

    /// The new collection mint: a mint of 82 bytes with no decimals and no
    /// extension, at the collection address, whose mint and freeze
    /// authority is its derived authority.
    pub open spec fn mint_call(self, n: NewMint) -> bool {
        &&& n.mint == self.mint.key
        &&& n.payer == self.payer
        &&& n.space == plain_mint_space()
        &&& n.mint_authority == self.authority
        &&& n.freeze_authority == Some(self.authority)
        &&& n.decimals == 0
        &&& !n.non_transferable
        &&& seeds_view(n.signer_seeds@) == seq![collection_seed(), seq![collection_mint_address()->Some_0.1]]
    }

    /// The result of the creation; the accounts are only read. Only the
    /// admin may create; the global configuration must be at its derived
    /// address; the authority must be the mint's derived
    /// authority, the mint must be at the collection address, and the
    /// metadata and master edition accounts must be the mint's.
    pub open spec fn outcome(pre: Self, params: InitializeCollectionParams, r: Result<CollectionCreation, ErrorCode>) -> bool {
        if pre.payer != pre.global_config.data.admin {
            r == Err::<CollectionCreation, ErrorCode>(ErrorCode::Unauthorized)
        } else if !is_global_config_key(pre.global_config.key)
            || address_of(mint_authority_address(pre.mint.key@)) != Some(pre.authority@)
            || address_of(collection_mint_address()) != Some(pre.mint.key@)
            || address_of(metadata_address(pre.mint.key@)) != Some(pre.metadata@)
            || address_of(master_edition_address(pre.mint.key@)) != Some(pre.master_edition@) {
            r == Err::<CollectionCreation, ErrorCode>(ErrorCode::UnexpectedAccount)
        } else {
            r is Ok && pre.mint_call(r->Ok_0.new_mint) && pre.metadata_call(r->Ok_0.metadata, params)
        }
    }

    /// Asks for the collection mint, and its metadata and master edition.
    pub fn process(&self, params: InitializeCollectionParams) -> (r: Result<CollectionCreation, ErrorCode>)
        ensures
            Self::outcome(*self, params, r),
    {
        if !self.payer.key_eq(&self.global_config.data.admin) {
            return Err(ErrorCode::Unauthorized);
        }
        match expect_global_config(&self.global_config.key) {
            Ok(()) => {},
            Err(e) => return Err(e),
        }
        let authority_bump = match expect_derived(MintConfig::find_authority(self.mint.key), &self.authority) {
            Ok(b) => b,
            Err(e) => return Err(e),
        };
        let mint_bump = match expect_derived(find_collection_mint(), &self.mint.key) {
            Ok(b) => b,
            Err(e) => return Err(e),
        };
        match expect_derived(MintConfig::find_metadata(self.mint.key), &self.metadata) {
            Ok(_) => {},
            Err(e) => return Err(e),
        }
        match expect_derived(MintConfig::find_master_edition(self.mint.key), &self.master_edition) {
            Ok(_) => {},
            Err(e) => return Err(e),
        }
        let mut mint_seeds: Vec<Vec<u8>> = Vec::new();
        mint_seeds.push(collection_seed_bytes());
        mint_seeds.push(byte_seed(mint_bump));
        assert(seeds_view(mint_seeds@) =~= seq![collection_seed(), seq![mint_bump]]);
        let new_mint = NewMint {
            mint: self.mint.key,
            payer: self.payer,
            space: 82,
            mint_authority: self.authority,
            freeze_authority: Some(self.authority),
            decimals: 0,
            non_transferable: false,
            signer_seeds: mint_seeds,
        };
        let mut signer_seeds: Vec<Vec<u8>> = Vec::new();
        signer_seeds.push(authority_seed_bytes());
        signer_seeds.push(self.mint.key.to_vec());
        signer_seeds.push(byte_seed(authority_bump));
        assert(seeds_view(signer_seeds@) =~= seq![authority_seed(), self.mint.key@, seq![authority_bump]]);
        let metadata = CreateMetadata {
            metadata: self.metadata,
            master_edition: Some(self.master_edition),
            mint: self.mint.key,
            authority: self.authority,
            payer: self.payer,
            update_authority: self.authority,
            name: params.name,
            symbol: params.symbol,
            uri: params.uri,
            seller_fee_basis_points: 0,
            is_mutable: true,
            collection: None,
            creator: Some(self.authority),
            collection_size: Some(0),
            print_supply: Some(PrintSupply::Zero),
            decimals: Some(0),
            signer_seeds,
        };
        Ok(CollectionCreation { new_mint, metadata })
    }
}

} // verus!
