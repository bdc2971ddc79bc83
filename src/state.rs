//! The two persistent records of a creator's namespace, and the accounts that
//! each operation names.

use vstd::prelude::*;
use crate::address::Address;

verus! {

/// The configuration record of one creator, stored at the address derived
/// from `"nft_pda"` and the creator's key.
#[derive(Debug, Clone)]
pub struct NftPda {
    /// The only key allowed to edit this record.
    pub creator: Address,
    pub name: String,
    pub symbol: String,
    /// Prefix of every metadata URI; a per-item suffix is appended to it.
    pub base_token_uri: String,
    /// Price, in lamports, of one member token.
    pub price_lamports: u64,
    /// The bump that fixes this record's derived address.
    pub bump: u8,
}

/// The collection authority record of one creator, stored at the address
/// derived from `"collection_pda"` and the creator's key.
#[derive(Debug, Clone, Copy)]
pub struct CollectionPda {
    /// The address of the paired configuration record.
    pub authority: Address,
    /// The collection's parent token, set once by the collection mint.
    pub mint: Option<Address>,
    /// The bump that fixes this record's derived address.
    pub bump: u8,
}

/// Accounts of `initialize`.
#[derive(Debug, Clone, Copy)]
pub struct Initialize {
    /// Pays for both records.
    pub initializer: Address,
    pub nft_pda: Address,
    pub collection_pda: Address,
    /// The creator whose namespace is set up.
    pub nft_manager: Address,
}

/// Accounts of `set_metadata`.
#[derive(Debug, Clone, Copy)]
pub struct SetMetadata {
    pub nft_pda: Address,
    /// The caller.
    pub nft_manager: Address,
}

/// Accounts of `set_price`.
#[derive(Debug, Clone, Copy)]
pub struct SetPrice {
    pub nft_pda: Address,
    /// The caller.
    pub nft_manager: Address,
}

/// Accounts of `mint_collection`.
#[derive(Debug, Clone, Copy)]
pub struct MintCollection {
    pub nft_pda: Address,
    pub collection_pda: Address,
    pub metadata: Address,
    pub master_edition: Address,
    /// The new collection token class.
    pub mint: Address,
    /// The holding account that receives the single unit.
    pub token_account: Address,
    /// Pays for the new accounts and may mint the token.
    pub mint_authority: Address,
    pub nft_manager: Address,
    pub token_program: Address,
}

/// Accounts of `mint`.
#[derive(Debug, Clone, Copy)]
pub struct MintNft {
    pub nft_pda: Address,
    pub collection_pda: Address,
    pub metadata: Address,
    pub master_edition: Address,
    /// The new member token class, at the address derived from `"member"`,
    /// the token id and the manager: each id has one.
    pub mint: Address,
    /// The payer's holding account that receives the single unit.
    pub token_account: Address,
    pub mint_authority: Address,
    /// Pays the price and the new accounts.
    pub payer: Address,
    pub nft_manager: Address,
    pub collection_mint: Address,
    pub collection_metadata: Address,
    pub collection_master_edition: Address,
    pub collection_authority_record: Address,
    pub token_program: Address,
}

/// Accounts of `set_collection`.
#[derive(Debug, Clone, Copy)]
pub struct SetCollection {
    pub nft_pda: Address,
    pub collection_pda: Address,
    pub payer: Address,
    pub metadata: Address,
    pub mint: Address,
    pub collection_authority_record: Address,
    pub nft_manager: Address,
}

/// Accounts of `set_and_verify_collection`.
#[derive(Debug, Clone, Copy)]
pub struct SetAndVerifyCollection {
    pub nft_pda: Address,
    pub metadata: Address,
    pub collection_pda: Address,
    pub payer: Address,
    pub nft_manager: Address,
    pub collection_mint: Address,
    pub collection_metadata: Address,
    pub collection_master_edition: Address,
    pub collection_authority_record: Address,
}

/// Accounts of `update_metadata_account`.
#[derive(Debug, Clone, Copy)]
pub struct UpdateMetadataAccount {
    pub nft_pda: Address,
    pub metadata: Address,
    /// The caller.
    pub nft_manager: Address,
}

} // verus!
