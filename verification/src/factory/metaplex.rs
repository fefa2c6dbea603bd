//! The calls to the token and Metaplex programs that create and mint NFTs,
//! as the factory asks for them.
use vstd::prelude::*;
use crate::pubkey::Pubkey;

verus! {

/// How many prints a master edition allows.
#[derive(Clone, Copy, Debug, PartialEq, Eq)]
pub enum PrintSupply {
    Zero,
    Unlimited,
}

/// Creating a mint account of `space` bytes at a program-derived address
/// (signed for with `signer_seeds`), with the non-transferable extension
/// when `non_transferable` is set, and initializing it.
#[derive(Clone, Debug, PartialEq, Eq)]
pub struct NewMint {
    pub mint: Pubkey,
    pub payer: Pubkey,
    pub space: u64,
    pub mint_authority: Pubkey,
    pub freeze_authority: Option<Pubkey>,
    pub decimals: u8,
    pub non_transferable: bool,
    pub signer_seeds: Vec<Vec<u8>>,
}

/// The content of a new mint, its signer seeds as byte sequences.
pub struct NewMintView {
    pub mint: Pubkey,
    pub payer: Pubkey,
    pub space: u64,
    pub mint_authority: Pubkey,
    pub freeze_authority: Option<Pubkey>,
    pub decimals: u8,
    pub non_transferable: bool,
    pub signer_seeds: Seq<Seq<u8>>,
}

impl View for NewMint {
    type V = NewMintView;

    open spec fn view(&self) -> NewMintView {
        NewMintView {
            mint: self.mint,
            payer: self.payer,
            space: self.space,
            mint_authority: self.mint_authority,
            freeze_authority: self.freeze_authority,
            decimals: self.decimals,
            non_transferable: self.non_transferable,
            signer_seeds: crate::pubkey::seeds_view(self.signer_seeds@),
        }
    }
}

/// Creating the metadata (and, for an NFT, the master edition) of a mint.
/// A verified `creator`, when given, holds the whole share; a
/// `collection_size`, when given, makes the NFT a collection.
#[derive(Clone, Debug, PartialEq, Eq)]
pub struct CreateMetadata {
    pub metadata: Pubkey,
    pub master_edition: Option<Pubkey>,
    pub mint: Pubkey,
    pub authority: Pubkey,
    pub payer: Pubkey,
    pub update_authority: Pubkey,
    pub name: String,
    pub symbol: String,
    pub uri: String,
    pub seller_fee_basis_points: u16,
    pub is_mutable: bool,
    pub collection: Option<Pubkey>,
    pub creator: Option<Pubkey>,
    pub collection_size: Option<u64>,
    pub print_supply: Option<PrintSupply>,
    pub decimals: Option<u8>,
    pub signer_seeds: Vec<Vec<u8>>,
}

/// Minting `amount` of an NFT to its token account.
#[derive(Clone, Debug, PartialEq, Eq)]
pub struct MintNft {
    pub token: Pubkey,
    pub metadata: Pubkey,
    pub master_edition: Pubkey,
    pub mint: Pubkey,
    pub authority: Pubkey,
    pub payer: Pubkey,
    pub amount: u64,
    pub signer_seeds: Vec<Vec<u8>>,
}

/// Verifying that an NFT belongs to a collection.
#[derive(Clone, Debug, PartialEq, Eq)]
pub struct VerifyCollection {
    pub authority: Pubkey,
    pub metadata: Pubkey,
    pub collection_mint: Pubkey,
    pub collection_metadata: Pubkey,
    pub collection_master_edition: Pubkey,
    pub signer_seeds: Vec<Vec<u8>>,
}

} // verus!
