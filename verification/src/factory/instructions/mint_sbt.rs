//! Minting a user's main SBT and verifying it in the collection.
use vstd::prelude::*;
use crate::context::Account;
use crate::error::ErrorCode;
use crate::factory::chain_event::sbt::{SBTMintEvent, SBTMintEventType};
use crate::factory::metaplex::{MintNft, VerifyCollection};
use crate::factory::instructions::claim::sbt_mint_address;
use crate::factory::instructions::initialize_collection::{collection_mint_address, find_collection_mint};
use crate::factory::state::marker::{Marker, marker_address};
use crate::factory::state::mint_config::{MintConfig, metadata_address, master_edition_address, mint_authority_address};
use crate::factory::token::{Mint, TokenAccount};
use crate::factory::utils::expect_derived;
use crate::pubkey::{Pubkey, address_of, seeds_view, find_program_address, factory_id};
use crate::seeds::{authority_seed, authority_seed_bytes, byte_seed, sbt_mint_seed, sbt_mint_seed_bytes};

verus! {

/// What minting an SBT asks for: the mint of the one token, the collection
/// verification, and the event to emit.
#[derive(Clone, Debug, PartialEq, Eq)]
pub struct SbtMinting {
    pub mint: MintNft,
    pub verify: VerifyCollection,
    pub event: SBTMintEvent,
}

/// The accounts of the mint: the user, the collection with its authority,
/// metadata and master edition, the user's SBT mint, token account, marker,
/// metadata and master edition.
pub struct MintSBT {
    pub payer: Pubkey,
    pub authority: Pubkey,
    pub collection_mint: Account<Mint>,
    pub collection_metadata: Pubkey,
    pub collection_master_edition: Pubkey,
    pub mint: Account<Mint>,
    pub token_account: Account<TokenAccount>,
    pub marker: Account<Marker>,
    pub metadata: Pubkey,
    pub master_edition: Pubkey,
}

impl MintSBT {
    /// The accounts are the derived ones: the collection authority and mint
    /// with its metadata and master edition, the user's SBT mint with its
    /// marker, metadata and master edition.
    pub open spec fn accounts_derived(self) -> bool {
        &&& address_of(mint_authority_address(self.collection_mint.key@)) == Some(self.authority@)
        &&& address_of(collection_mint_address()) == Some(self.collection_mint.key@)
        &&& address_of(sbt_mint_address(self.payer@)) == Some(self.mint.key@)
        &&& address_of(marker_address(self.payer@, self.mint.key@)) == Some(self.marker.key@)
        &&& address_of(metadata_address(self.collection_mint.key@)) == Some(self.collection_metadata@)
        &&& address_of(master_edition_address(self.collection_mint.key@)) == Some(self.collection_master_edition@)
        &&& address_of(metadata_address(self.mint.key@)) == Some(self.metadata@)
        &&& address_of(master_edition_address(self.mint.key@)) == Some(self.master_edition@)
    }

    /// The minting: one token to the user's token account, and the
    /// verification in the collection, both signed by the collection
    /// authority.
    pub open spec fn minting(self, s: SbtMinting) -> bool {
        let seeds = seq![authority_seed(), self.collection_mint.key@,
            seq![mint_authority_address(self.collection_mint.key@)->Some_0.1]];
        &&& s.mint.token == self.token_account.key
        &&& s.mint.metadata == self.metadata
        &&& s.mint.master_edition == self.master_edition
        &&& s.mint.mint == self.mint.key
        &&& s.mint.authority == self.authority
        &&& s.mint.payer == self.payer
        &&& s.mint.amount == 1
        &&& seeds_view(s.mint.signer_seeds@) == seeds
        &&& s.verify.authority == self.authority
        &&& s.verify.metadata == self.metadata
        &&& s.verify.collection_mint == self.collection_mint.key
        &&& s.verify.collection_metadata == self.collection_metadata
        &&& s.verify.collection_master_edition == self.collection_master_edition
        &&& seeds_view(s.verify.signer_seeds@) == seeds
        &&& s.event == (SBTMintEvent { event_type: SBTMintEventType::MintSBT, mint_key: self.mint.key, user_key: self.payer })
    }

    /// The accounts with the marker as the mint creates it: zeroed, staked on
    /// nothing.
    pub open spec fn with_new_marker(self) -> MintSBT {
        MintSBT {
            marker: Account { key: self.marker.key, data: Marker { indicate: 0, event_market: None, bump: 0 } },
            ..self
        }
    }

    /// The accounts and result after the mint. The accounts must be the
    /// derived ones, and the SBT must not have been minted yet. The marker
    /// account is created zeroed; the bump computed for it is set on a copy
    /// only, so it is not stored.
    pub open spec fn outcome(pre: Self, post: Self, r: Result<SbtMinting, ErrorCode>) -> bool {
        if !pre.accounts_derived() {
            r == Err::<SbtMinting, ErrorCode>(ErrorCode::UnexpectedAccount) && post == pre
        } else if pre.mint.data.supply != 0 {
            r == Err::<SbtMinting, ErrorCode>(ErrorCode::MintExceedMaxSupply) && post == pre
        } else {
            r is Ok && pre.minting(r->Ok_0) && post == pre.with_new_marker()
        }
    }

    fn authority_seeds(&self, authority_bump: u8) -> (s: Vec<Vec<u8>>)
        ensures
            seeds_view(s@) == seq![authority_seed(), self.collection_mint.key@, seq![authority_bump]],
    {
        let mut signer_seeds: Vec<Vec<u8>> = Vec::new();
        signer_seeds.push(authority_seed_bytes());
        signer_seeds.push(self.collection_mint.key.to_vec());
        signer_seeds.push(byte_seed(authority_bump));
        assert(seeds_view(signer_seeds@) =~= seq![authority_seed(), self.collection_mint.key@, seq![authority_bump]]);
        signer_seeds
    }

    /// Asks for the SBT's token and its verification in the collection, and
    /// creates the marker.
    pub fn process(&mut self) -> (r: Result<SbtMinting, ErrorCode>)
        ensures
            Self::outcome(*old(self), *final(self), r),
    {
        let authority_bump = match expect_derived(MintConfig::find_authority(self.collection_mint.key), &self.authority) {
            Ok(b) => b,
            Err(e) => return Err(e),
        };
        match expect_derived(find_collection_mint(), &self.collection_mint.key) {
            Ok(_) => {},
            Err(e) => return Err(e),
        }
        let mut sbt_seeds: Vec<Vec<u8>> = Vec::new();
        sbt_seeds.push(sbt_mint_seed_bytes());
        sbt_seeds.push(self.payer.to_vec());
        assert(seeds_view(sbt_seeds@) =~= seq![sbt_mint_seed(), self.payer@]);
        match expect_derived(find_program_address(&sbt_seeds, &factory_id()), &self.mint.key) {
            Ok(_) => {},
            Err(e) => return Err(e),
        }
        match expect_derived(Marker::find_marker_account(self.payer, self.mint.key), &self.marker.key) {
            Ok(_) => {},
            Err(e) => return Err(e),
        }
        match expect_derived(MintConfig::find_metadata(self.collection_mint.key), &self.collection_metadata) {
            Ok(_) => {},
            Err(e) => return Err(e),
        }
        match expect_derived(MintConfig::find_master_edition(self.collection_mint.key), &self.collection_master_edition) {
            Ok(_) => {},
            Err(e) => return Err(e),
        }
        match expect_derived(MintConfig::find_metadata(self.mint.key), &self.metadata) {
            Ok(_) => {},
            Err(e) => return Err(e),
        }
        match expect_derived(MintConfig::find_master_edition(self.mint.key), &self.master_edition) {
            Ok(_) => {},
            Err(e) => return Err(e),
        }
        if self.mint.data.supply != 0 {
            return Err(ErrorCode::MintExceedMaxSupply);
        }
        let mint = MintNft {
            token: self.token_account.key,
            metadata: self.metadata,
            master_edition: self.master_edition,
            mint: self.mint.key,
            authority: self.authority,
            payer: self.payer,
            amount: 1,
            signer_seeds: self.authority_seeds(authority_bump),
        };
        let verify = VerifyCollection {
            authority: self.authority,
            metadata: self.metadata,
            collection_mint: self.collection_mint.key,
            collection_metadata: self.collection_metadata,
            collection_master_edition: self.collection_master_edition,
            signer_seeds: self.authority_seeds(authority_bump),
        };
        let event = SBTMintEvent { event_type: SBTMintEventType::MintSBT, mint_key: self.mint.key, user_key: self.payer };
        self.marker.data = Marker { indicate: 0, event_market: None, bump: 0 };
        Ok(SbtMinting { mint, verify, event })
    }
}

} // verus!
