//! The calls that the program makes into the token ledger and the metadata
//! registry, as plain values, and their views.

use vstd::prelude::*;
use crate::address::{Address, DerivedAuthority};

verus! {

/// One creator entry of a metadata record.
#[derive(Debug, Clone, Copy)]
pub struct Creator {
    pub address: Address,
    pub verified: bool,
    /// Percentage of the royalties.
    pub share: u8,
}

/// The editable data of a metadata record.
#[derive(Debug, Clone)]
pub struct MetadataData {
    pub name: String,
    pub symbol: String,
    pub uri: String,
    pub seller_fee_basis_points: u16,
    /// The sole creator.
    pub creator: Creator,
}

/// `MetadataData` with its strings seen as sequences of characters.
pub ghost struct MetadataDataView {
    pub name: Seq<char>,
    pub symbol: Seq<char>,
    pub uri: Seq<char>,
    pub seller_fee_basis_points: u16,
    pub creator: Creator,
}

impl View for MetadataData {
    type V = MetadataDataView;

    open spec fn view(&self) -> MetadataDataView {
        MetadataDataView {
            name: self.name@,
            symbol: self.symbol@,
            uri: self.uri@,
            seller_fee_basis_points: self.seller_fee_basis_points,
            creator: self.creator,
        }
    }
}

/// One call into an outside service. Calls that carry a `signer` are made
/// with that derived authority signing.
#[derive(Debug, Clone)]
pub enum Call {
    /// Create a record owned by this program at a derived address, funded
    /// rent-exempt by `payer`.
    CreateRecord { payer: Address, account: Address, space: u64 },
    /// Create `account` with `lamports` taken from `payer`, owned by `owner`;
    /// where `account` is a derived address, `signer` signs for it.
    CreateAccount {
        payer: Address,
        account: Address,
        lamports: u64,
        space: u64,
        owner: Address,
        signer: Option<DerivedAuthority>,
    },
    /// Make `mint` a token class with `decimals` decimals.
    InitializeMint { mint: Address, decimals: u8, mint_authority: Address, freeze_authority: Option<Address> },
    /// Create the associated holding `account` of `owner` for `mint`.
    CreateAssociatedAccount { payer: Address, account: Address, owner: Address, mint: Address },
    /// Mint `amount` units of `mint` into `destination`.
    MintTo { mint: Address, destination: Address, authority: Address, amount: u64 },
    /// Move `lamports` from `from` to `to`.
    Transfer { from: Address, to: Address, lamports: u64 },
    /// Write the metadata record of `mint`; `collection_root` marks it as the
    /// root of a sized collection of size 0.
    CreateMetadata {
        metadata: Address,
        mint: Address,
        mint_authority: Address,
        payer: Address,
        update_authority: Address,
        data: MetadataData,
        is_mutable: bool,
        collection_root: bool,
        signer: DerivedAuthority,
    },
    /// Create the master edition of `mint`, capping its supply at `max_supply`.
    CreateMasterEdition {
        edition: Address,
        mint: Address,
        update_authority: Address,
        mint_authority: Address,
        metadata: Address,
        payer: Address,
        max_supply: Option<u64>,
        signer: DerivedAuthority,
    },
    /// Rewrite the data of an existing metadata record.
    UpdateMetadata {
        metadata: Address,
        update_authority: Address,
        data: MetadataData,
        is_mutable: Option<bool>,
        signer: DerivedAuthority,
    },
    /// Approve `new_authority` as collection authority of `mint`, creating
    /// the authority `record`.
    ApproveCollectionAuthority {
        record: Address,
        new_authority: Address,
        update_authority: Address,
        payer: Address,
        metadata: Address,
        mint: Address,
        signer: DerivedAuthority,
    },
    /// Mark `metadata` as a verified member of the sized collection.
    SetAndVerifySizedCollectionItem {
        metadata: Address,
        collection_authority: Address,
        payer: Address,
        update_authority: Address,
        collection_mint: Address,
        collection_metadata: Address,
        collection_master_edition: Address,
        authority_record: Option<Address>,
        signer: DerivedAuthority,
    },
}

/// `Call` with its strings seen as sequences of characters.
pub ghost enum CallView {
    CreateRecord { payer: Address, account: Address, space: u64 },
    CreateAccount {
        payer: Address,
        account: Address,
        lamports: u64,
        space: u64,
        owner: Address,
        signer: Option<DerivedAuthority>,
    },
    InitializeMint { mint: Address, decimals: u8, mint_authority: Address, freeze_authority: Option<Address> },
    CreateAssociatedAccount { payer: Address, account: Address, owner: Address, mint: Address },
    MintTo { mint: Address, destination: Address, authority: Address, amount: u64 },
    Transfer { from: Address, to: Address, lamports: u64 },
    CreateMetadata {
        metadata: Address,
        mint: Address,
        mint_authority: Address,
        payer: Address,
        update_authority: Address,
        data: MetadataDataView,
        is_mutable: bool,
        collection_root: bool,
        signer: DerivedAuthority,
    },
    CreateMasterEdition {
        edition: Address,
        mint: Address,
        update_authority: Address,
        mint_authority: Address,
        metadata: Address,
        payer: Address,
        max_supply: Option<u64>,
        signer: DerivedAuthority,
    },
    UpdateMetadata {
        metadata: Address,
        update_authority: Address,
        data: MetadataDataView,
        is_mutable: Option<bool>,
        signer: DerivedAuthority,
    },
    ApproveCollectionAuthority {
        record: Address,
        new_authority: Address,
        update_authority: Address,
        payer: Address,
        metadata: Address,
        mint: Address,
        signer: DerivedAuthority,
    },
    SetAndVerifySizedCollectionItem {
        metadata: Address,
        collection_authority: Address,
        payer: Address,
        update_authority: Address,
        collection_mint: Address,
        collection_metadata: Address,
        collection_master_edition: Address,
        authority_record: Option<Address>,
        signer: DerivedAuthority,
    },
}

impl View for Call {
    type V = CallView;

    open spec fn view(&self) -> CallView {
        match *self {
            Call::CreateRecord { payer, account, space } => CallView::CreateRecord { payer, account, space },
            Call::CreateAccount { payer, account, lamports, space, owner, signer } =>
                CallView::CreateAccount { payer, account, lamports, space, owner, signer },
            Call::InitializeMint { mint, decimals, mint_authority, freeze_authority } =>
                CallView::InitializeMint { mint, decimals, mint_authority, freeze_authority },
            Call::CreateAssociatedAccount { payer, account, owner, mint } =>
                CallView::CreateAssociatedAccount { payer, account, owner, mint },
            Call::MintTo { mint, destination, authority, amount } =>
                CallView::MintTo { mint, destination, authority, amount },
            Call::Transfer { from, to, lamports } => CallView::Transfer { from, to, lamports },
            Call::CreateMetadata {
                metadata, mint, mint_authority, payer, update_authority, data, is_mutable, collection_root, signer,
            } => CallView::CreateMetadata {
                metadata, mint, mint_authority, payer, update_authority, data: data@, is_mutable, collection_root, signer,
            },
            Call::CreateMasterEdition {
                edition, mint, update_authority, mint_authority, metadata, payer, max_supply, signer,
            } => CallView::CreateMasterEdition {
                edition, mint, update_authority, mint_authority, metadata, payer, max_supply, signer,
            },
            Call::UpdateMetadata { metadata, update_authority, data, is_mutable, signer } =>
                CallView::UpdateMetadata { metadata, update_authority, data: data@, is_mutable, signer },
            Call::ApproveCollectionAuthority {
                record, new_authority, update_authority, payer, metadata, mint, signer,
            } => CallView::ApproveCollectionAuthority {
                record, new_authority, update_authority, payer, metadata, mint, signer,
            },
            Call::SetAndVerifySizedCollectionItem {
                metadata,
                collection_authority,
                payer,
                update_authority,
                collection_mint,
                collection_metadata,
                collection_master_edition,
                authority_record,
                signer,
            } => CallView::SetAndVerifySizedCollectionItem {
                metadata,
                collection_authority,
                payer,
                update_authority,
                collection_mint,
                collection_metadata,
                collection_master_edition,
                authority_record,
                signer,
            },
        }
    }
}

/// The views of a sequence of calls.
pub open spec fn calls_view(calls: Seq<Call>) -> Seq<CallView> {
    calls.map_values(|c: Call| c@)
}

} // verus!
