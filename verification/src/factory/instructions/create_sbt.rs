//! Creating a user's main SBT: a non-transferable NFT of the collection.
use vstd::prelude::*;
use crate::context::Account;
use crate::error::ErrorCode;
use crate::factory::chain_event::sbt::{SBTMintEvent, SBTMintEventType};
use crate::factory::metaplex::{CreateMetadata, NewMint, PrintSupply};
use crate::factory::state::mint_config::{MintConfig, metadata_address, master_edition_address, mint_authority_address};
use crate::factory::token::Mint;
use crate::factory::instructions::claim::sbt_mint_address;
use crate::factory::instructions::initialize_collection::{collection_mint_address, find_collection_mint};
use crate::factory::utils::expect_derived;
use crate::pubkey::{Pubkey, address_of, seeds_view, find_program_address, factory_id};
use crate::seeds::{authority_seed, authority_seed_bytes, sbt_mint_seed, sbt_mint_seed_bytes, byte_seed};

verus! {

/// The name, symbol and URI of the SBT.
#[derive(Clone, Debug, PartialEq, Eq)]
pub struct CreateSBTParams {
    pub name: String,
    pub symbol: String,
    pub uri: String,
}

/// The size of a mint account with the non-transferable extension.
pub open spec fn sbt_mint_space() -> u64 {
    170
}

/// What creating an SBT asks for: the mint account, the metadata, and the
/// event to emit.
#[derive(Clone, Debug, PartialEq, Eq)]
pub struct SbtCreation {
    pub new_mint: NewMint,
    pub metadata: CreateMetadata,
    pub event: SBTMintEvent,
}

/// The accounts of the creation: the user, the collection mint and its
/// authority, and the new SBT's mint, metadata and master edition.
pub struct CreateSBT {
    pub payer: Pubkey,
    pub authority: Pubkey,
    pub collection_mint: Account<Mint>,
    pub mint: Pubkey,
    pub metadata: Pubkey,
    pub master_edition: Pubkey,
}

/// The new mint of an SBT: a non-transferable mint of 170 bytes with no
/// decimals, whose mint and freeze authority is the collection authority.
pub open spec fn sbt_new_mint(n: NewMint, mint: Pubkey, payer: Pubkey, authority: Pubkey, seeds: Seq<Seq<u8>>) -> bool {
    &&& n.mint == mint
    &&& n.payer == payer
    &&& n.space == sbt_mint_space()
    &&& n.mint_authority == authority
    &&& n.freeze_authority == Some(authority)
    &&& n.decimals == 0
    &&& n.non_transferable
    &&& seeds_view(n.signer_seeds@) == seeds
}

impl CreateSBT {
    /// The creation for `params` with mint bump `bump`: the user's mint, and
    /// an immutable, unprintable NFT of the collection.
    pub open spec fn creation(self, s: SbtCreation, params: CreateSBTParams, bump: u8) -> bool {
        let p = s.metadata;
        &&& sbt_new_mint(s.new_mint, self.mint, self.payer, self.authority,
            seq![sbt_mint_seed(), self.payer@, seq![bump]])
        &&& p.metadata == self.metadata
        &&& p.master_edition == Some(self.master_edition)
        &&& p.mint == self.mint
        &&& p.authority == self.authority
        &&& p.payer == self.payer
        &&& p.update_authority == self.authority
        &&& p.name@ == params.name@
        &&& p.symbol@ == params.symbol@
        &&& p.uri@ == params.uri@
        &&& p.seller_fee_basis_points == 0
        &&& !p.is_mutable
        &&& p.collection == Some(self.collection_mint.key)
        &&& p.creator is None
        &&& p.collection_size is None
        &&& p.print_supply == Some(PrintSupply::Zero)
        &&& p.decimals == Some(0u8)
        &&& seeds_view(p.signer_seeds@) == seq![authority_seed(), self.collection_mint.key@,
            seq![mint_authority_address(self.collection_mint.key@)->Some_0.1]]
        &&& s.event == (SBTMintEvent { event_type: SBTMintEventType::CreateSBT, mint_key: self.mint, user_key: self.payer })
    }

    /// Whether the accounts are at their derived addresses: the collection
    /// authority, the collection mint, the user's SBT mint, and its metadata
    /// and master edition.
    pub open spec fn addresses_hold(self) -> bool {
        &&& address_of(mint_authority_address(self.collection_mint.key@)) == Some(self.authority@)
        &&& address_of(collection_mint_address()) == Some(self.collection_mint.key@)
        &&& address_of(sbt_mint_address(self.payer@)) == Some(self.mint@)
        &&& address_of(metadata_address(self.mint@)) == Some(self.metadata@)
        &&& address_of(master_edition_address(self.mint@)) == Some(self.master_edition@)
    }

    /// The result of the creation; the accounts are only read. The accounts
    /// must be at their derived addresses.
    pub open spec fn outcome(pre: Self, params: CreateSBTParams, bump: u8, r: Result<SbtCreation, ErrorCode>) -> bool {
        if !pre.addresses_hold() {
            r == Err::<SbtCreation, ErrorCode>(ErrorCode::UnexpectedAccount)
        } else {
            r is Ok && pre.creation(r->Ok_0, params, bump)
        }
    }

    /// Asks for the user's SBT.
    pub fn process(&self, params: CreateSBTParams, bump: u8) -> (r: Result<SbtCreation, ErrorCode>)
        ensures
            Self::outcome(*self, params, bump, r),
    {
        let authority_bump = match expect_derived(MintConfig::find_authority(self.collection_mint.key), &self.authority) {
            Ok(b) => b,
            Err(e) => return Err(e),
        };
        match expect_derived(find_collection_mint(), &self.collection_mint.key) {
            Ok(_) => {},
            Err(e) => return Err(e),
        }
        let mut sbt_seeds: Vec<Vec<u8>> = Vec::new();
        sbt_seeds.push(sbt_mint_seed_bytes());
        sbt_seeds.push(self.payer.to_vec());
        assert(seeds_view(sbt_seeds@) =~= seq![sbt_mint_seed(), self.payer@]);
        match expect_derived(find_program_address(&sbt_seeds, &factory_id()), &self.mint) {
            Ok(_) => {},
            Err(e) => return Err(e),
        }
        match expect_derived(MintConfig::find_metadata(self.mint), &self.metadata) {
            Ok(_) => {},
            Err(e) => return Err(e),
        }
        match expect_derived(MintConfig::find_master_edition(self.mint), &self.master_edition) {
            Ok(_) => {},
            Err(e) => return Err(e),
        }
        let mut mint_seeds: Vec<Vec<u8>> = Vec::new();
        mint_seeds.push(sbt_mint_seed_bytes());
        mint_seeds.push(self.payer.to_vec());
        mint_seeds.push(byte_seed(bump));
        assert(seeds_view(mint_seeds@) =~= seq![sbt_mint_seed(), self.payer@, seq![bump]]);
        let new_mint = NewMint {
            mint: self.mint,
            payer: self.payer,
            space: 170,
            mint_authority: self.authority,
            freeze_authority: Some(self.authority),
            decimals: 0,
            non_transferable: true,
            signer_seeds: mint_seeds,
        };
        let mut signer_seeds: Vec<Vec<u8>> = Vec::new();
        signer_seeds.push(authority_seed_bytes());
        signer_seeds.push(self.collection_mint.key.to_vec());
        signer_seeds.push(byte_seed(authority_bump));
        assert(seeds_view(signer_seeds@) =~= seq![authority_seed(), self.collection_mint.key@, seq![authority_bump]]);
        let metadata = CreateMetadata {
            metadata: self.metadata,
            master_edition: Some(self.master_edition),
            mint: self.mint,
            authority: self.authority,
            payer: self.payer,
            update_authority: self.authority,
            name: params.name,
            symbol: params.symbol,
            uri: params.uri,
            seller_fee_basis_points: 0,
            is_mutable: false,
            collection: Some(self.collection_mint.key),
            creator: None,
            collection_size: None,
            print_supply: Some(PrintSupply::Zero),
            decimals: Some(0),
            signer_seeds,
        };
        Ok(SbtCreation {
            new_mint,
            metadata,
            event: SBTMintEvent { event_type: SBTMintEventType::CreateSBT, mint_key: self.mint, user_key: self.payer },
        })
    }
}

} // verus!
