//! The program's operations. Each checks its caller and accounts, then
//! returns, in order, the calls that carry it out; the records change only
//! when it succeeds.

use vstd::prelude::*;
use crate::address::{Address, DerivedAuthority, Namespace, same_address, signer_for, verify};
use crate::calls::{Call, CallView, Creator, MetadataData, MetadataDataView, calls_view};
use crate::error::ErrorCode;
use crate::state::{
    CollectionPda, Initialize, MintCollection, MintNft, NftPda, SetAndVerifyCollection, SetCollection,
    SetMetadata, SetPrice, UpdateMetadataAccount,
};
use crate::uri::{collection_uri, collection_uri_string, member_uri, member_uri_string};

verus! {

/// Space of the configuration record.
pub const NFT_PDA_SPACE: u64 = 453;
/// Space of the collection authority record.
pub const COLLECTION_PDA_SPACE: u64 = 73;
/// Lamports that fund a new token class account.
pub const MINT_ACCOUNT_LAMPORTS: u64 = 10000000;
/// Space of a token class account.
pub const MINT_ACCOUNT_SPACE: u64 = 82;
/// Royalty declared on every token, in basis points.
pub const SELLER_FEE_BASIS_POINTS: u16 = 200;

// ---------------------------------------------------------------- guards

/// Only the creator of a configuration may edit it.
pub fn require_creator(config: &NftPda, caller: &Address) -> (r: Result<(), ErrorCode>)
    ensures
        r == (if config.creator == *caller { Ok(()) } else { Err(ErrorCode::Unauthorized) }),
{
    if same_address(&config.creator, caller) {
        Ok(())
    } else {
        Err(ErrorCode::Unauthorized)
    }
}

/// Only the creator of a configuration may mint under it.
pub fn require_manager(config: &NftPda, manager: &Address) -> (r: Result<(), ErrorCode>)
    ensures
        r == (if config.creator == *manager { Ok(()) } else { Err(ErrorCode::InvalidNftManager) }),
{
    if same_address(&config.creator, manager) {
        Ok(())
    } else {
        Err(ErrorCode::InvalidNftManager)
    }
}

/// The collection record must belong to the configuration at `config_address`.
pub fn require_authority_match(collection: &CollectionPda, config_address: &Address) -> (r: Result<(), ErrorCode>)
    ensures
        r == (if collection.authority == *config_address {
            Ok(())
        } else {
            Err(ErrorCode::InvalidCollectionAuthority)
        }),
{
    if same_address(&collection.authority, config_address) {
        Ok(())
    } else {
        Err(ErrorCode::InvalidCollectionAuthority)
    }
}

/// The supplied collection token must be the one the collection recorded.
pub fn require_collection_token_match(collection: &CollectionPda, supplied: &Address) -> (r: Result<(), ErrorCode>)
    ensures
        r == (if collection.mint == Some(*supplied) {
            Ok(())
        } else {
            Err(ErrorCode::InvalidCollectionMint)
        }),
{
    match &collection.mint {
        Some(m) => {
            if same_address(m, supplied) {
                Ok(())
            } else {
                Err(ErrorCode::InvalidCollectionMint)
            }
        },
        None => Err(ErrorCode::InvalidCollectionMint),
    }
}

// ---------------------------------------------------------------- metadata

/// The metadata that every token of `config` carries: the configuration's
/// name and symbol, `uri`, the fixed royalty and `creator` as sole,
/// unverified creator with the full share.
pub open spec fn metadata_view(name: Seq<char>, symbol: Seq<char>, uri: Seq<char>, creator: Address) -> MetadataDataView {
    MetadataDataView {
        name,
        symbol,
        uri,
        seller_fee_basis_points: SELLER_FEE_BASIS_POINTS,
        creator: Creator { address: creator, verified: false, share: 100 },
    }
}

fn metadata_data(name: String, symbol: String, uri: String, creator: &Address) -> (r: MetadataData)
    ensures
        r@ == metadata_view(name@, symbol@, uri@, *creator),
{
    MetadataData {
        name,
        symbol,
        uri,
        seller_fee_basis_points: SELLER_FEE_BASIS_POINTS,
        creator: Creator { address: *creator, verified: false, share: 100 },
    }
}

// ---------------------------------------------------------------- member mint

/// Whether `token_id` names a member of the collection.
pub open spec fn valid_token_id(token_id: u64) -> bool {
    token_id == 1 || token_id == 2
}

/// What `mint` does: its error, or the calls that mint member `token_id`.
pub open spec fn mint_spec(
    nft: NftPda,
    collection: CollectionPda,
    a: MintNft,
    token_id: u64,
    program: Address,
) -> Result<Seq<CallView>, ErrorCode> {
    if !valid_token_id(token_id) {
        Err(ErrorCode::InvalidTokenId)
    } else if nft.creator != a.nft_manager {
        Err(ErrorCode::InvalidNftManager)
    } else if collection.mint != Some(a.collection_mint) {
        Err(ErrorCode::InvalidCollectionMint)
    } else {
        match signer_for(a.nft_pda, Namespace::Nft, a.nft_manager, program) {
            Err(e) => Err(e),
            Ok(signer) => match signer_for(a.collection_pda, Namespace::Collection, a.nft_manager, program) {
                Err(e) => Err(e),
                Ok(collection_signer) => match signer_for(
                    a.mint,
                    Namespace::Member(token_id as u8),
                    a.nft_manager,
                    program,
                ) {
                    Err(e) => Err(e),
                    Ok(mint_signer) => Ok(mint_calls(nft, a, token_id, signer, collection_signer, mint_signer)),
                },
            },
        }
    }
}

/// The calls of a member mint: payment first, then the token, its metadata,
/// its master edition, and last its verification as a collection member.
/// The token class sits at the address derived for the token id, which is
/// created once only, and `mint_signer` signs its creation.
pub open spec fn mint_calls(
    nft: NftPda,
    a: MintNft,
    token_id: u64,
    signer: DerivedAuthority,
    collection_signer: DerivedAuthority,
    mint_signer: DerivedAuthority,
) -> Seq<CallView> {
    seq![
        CallView::Transfer { from: a.payer, to: a.nft_pda, lamports: nft.price_lamports },
        CallView::CreateAccount {
            payer: a.payer,
            account: a.mint,
            lamports: MINT_ACCOUNT_LAMPORTS,
            space: MINT_ACCOUNT_SPACE,
            owner: a.token_program,
            signer: Some(mint_signer),
        },
        CallView::InitializeMint {
            mint: a.mint,
            decimals: 0,
            mint_authority: a.mint_authority,
            freeze_authority: Some(a.mint_authority),
        },
        CallView::CreateAssociatedAccount { payer: a.payer, account: a.token_account, owner: a.payer, mint: a.mint },
        CallView::MintTo { mint: a.mint, destination: a.token_account, authority: a.mint_authority, amount: 1 },
        CallView::CreateMetadata {
            metadata: a.metadata,
            mint: a.mint,
            mint_authority: a.mint_authority,
            payer: a.mint_authority,
            update_authority: a.nft_pda,
            data: metadata_view(nft.name@, nft.symbol@, member_uri(nft.base_token_uri@, token_id), a.nft_manager),
            is_mutable: true,
            collection_root: false,
            signer,
        },
        CallView::CreateMasterEdition {
            edition: a.master_edition,
            mint: a.mint,
            update_authority: a.nft_pda,
            mint_authority: a.mint_authority,
            metadata: a.metadata,
            payer: a.mint_authority,
            max_supply: Some(0),
            signer,
        },
        verify_item_call(
            a.metadata,
            a.collection_pda,
            a.payer,
            a.nft_pda,
            a.collection_mint,
            a.collection_metadata,
            a.collection_master_edition,
            a.collection_authority_record,
            collection_signer,
        ),
    ]
}

/// The call that makes `metadata` a verified member of the collection.
pub open spec fn verify_item_call(
    metadata: Address,
    collection_pda: Address,
    payer: Address,
    nft_pda: Address,
    collection_mint: Address,
    collection_metadata: Address,
    collection_master_edition: Address,
    record: Address,
    collection_signer: DerivedAuthority,
) -> CallView {
    CallView::SetAndVerifySizedCollectionItem {
        metadata,
        collection_authority: collection_pda,
        payer,
        update_authority: nft_pda,
        collection_mint,
        collection_metadata,
        collection_master_edition,
        authority_record: Some(record),
        signer: collection_signer,
    }
}

/// Mints member token `token_id` to the payer, for the configuration's price,
/// and makes it a verified member of the collection.
pub fn mint(
    nft_pda: &NftPda,
    collection_pda: &CollectionPda,
    accounts: &MintNft,
    token_id: u64,
    program_id: &Address,
) -> (r: Result<Vec<Call>, ErrorCode>)
    ensures
        match r {
            Ok(calls) => mint_spec(*nft_pda, *collection_pda, *accounts, token_id, *program_id)
                == Ok::<Seq<CallView>, ErrorCode>(calls_view(calls@)),
            Err(e) => mint_spec(*nft_pda, *collection_pda, *accounts, token_id, *program_id)
                == Err::<Seq<CallView>, ErrorCode>(e),
        },
{
    if !(token_id == 1 || token_id == 2) {
        return Err(ErrorCode::InvalidTokenId);
    }
    require_manager(nft_pda, &accounts.nft_manager)?;
    require_collection_token_match(collection_pda, &accounts.collection_mint)?;
    let signer = verify(&accounts.nft_pda, Namespace::Nft, &accounts.nft_manager, program_id)?;
    let collection_signer = verify(
        &accounts.collection_pda,
        Namespace::Collection,
        &accounts.nft_manager,
        program_id,
    )?;
    let mint_signer = verify(&accounts.mint, Namespace::Member(token_id as u8), &accounts.nft_manager, program_id)?;
    let a = accounts;
    let mut calls: Vec<Call> = Vec::new();
    calls.push(Call::Transfer { from: a.payer, to: a.nft_pda, lamports: nft_pda.price_lamports });
    calls.push(Call::CreateAccount {
        payer: a.payer,
        account: a.mint,
        lamports: MINT_ACCOUNT_LAMPORTS,
        space: MINT_ACCOUNT_SPACE,
        owner: a.token_program,
        signer: Some(mint_signer),
    });
    calls.push(Call::InitializeMint {
        mint: a.mint,
        decimals: 0,
        mint_authority: a.mint_authority,
        freeze_authority: Some(a.mint_authority),
    });
    calls.push(Call::CreateAssociatedAccount { payer: a.payer, account: a.token_account, owner: a.payer, mint: a.mint });
    calls.push(Call::MintTo { mint: a.mint, destination: a.token_account, authority: a.mint_authority, amount: 1 });
    let uri = member_uri_string(&nft_pda.base_token_uri, token_id);
    let data = metadata_data(nft_pda.name.clone(), nft_pda.symbol.clone(), uri, &a.nft_manager);
    calls.push(Call::CreateMetadata {
        metadata: a.metadata,
        mint: a.mint,
        mint_authority: a.mint_authority,
        payer: a.mint_authority,
        update_authority: a.nft_pda,
        data,
        is_mutable: true,
        collection_root: false,
        signer,
    });
    calls.push(Call::CreateMasterEdition {
        edition: a.master_edition,
        mint: a.mint,
        update_authority: a.nft_pda,
        mint_authority: a.mint_authority,
        metadata: a.metadata,
        payer: a.mint_authority,
        max_supply: Some(0),
        signer,
    });
    calls.push(Call::SetAndVerifySizedCollectionItem {
        metadata: a.metadata,
        collection_authority: a.collection_pda,
        payer: a.payer,
        update_authority: a.nft_pda,
        collection_mint: a.collection_mint,
        collection_metadata: a.collection_metadata,
        collection_master_edition: a.collection_master_edition,
        authority_record: Some(a.collection_authority_record),
        signer: collection_signer,
    });
    assert(calls_view(calls@) =~= mint_calls(*nft_pda, *accounts, token_id, signer, collection_signer, mint_signer));
    Ok(calls)
}

// ---------------------------------------------------------------- collection mint

/// What `mint_collection` does: its error, or the collection record as it
/// stands after it and the calls that mint the collection token.
pub open spec fn mint_collection_spec(
    nft: NftPda,
    collection: CollectionPda,
    a: MintCollection,
    program: Address,
) -> Result<(CollectionPda, Seq<CallView>), ErrorCode> {
    if nft.creator != a.nft_manager {
        Err(ErrorCode::InvalidNftManager)
    } else if collection.authority != a.nft_pda {
        Err(ErrorCode::InvalidCollectionAuthority)
    } else if collection.mint is Some && collection.mint != Some(a.mint) {
        Err(ErrorCode::InvalidCollectionMint)
    } else {
        match signer_for(a.nft_pda, Namespace::Nft, a.nft_manager, program) {
            Err(e) => Err(e),
            Ok(signer) => match signer_for(a.collection_pda, Namespace::Collection, a.nft_manager, program) {
                Err(e) => Err(e),
                Ok(_) => Ok((CollectionPda { mint: Some(a.mint), ..collection }, mint_collection_calls(nft, a, signer))),
            },
        }
    }
}

/// The calls of the collection mint: one unit of a new zero-decimal token,
/// its metadata as root of a sized collection, and a master edition that
/// caps its supply.
pub open spec fn mint_collection_calls(nft: NftPda, a: MintCollection, signer: DerivedAuthority) -> Seq<CallView> {
    seq![
        CallView::CreateAccount {
            payer: a.mint_authority,
            account: a.mint,
            lamports: MINT_ACCOUNT_LAMPORTS,
            space: MINT_ACCOUNT_SPACE,
            owner: a.token_program,
            signer: None,
        },
        CallView::InitializeMint {
            mint: a.mint,
            decimals: 0,
            mint_authority: a.mint_authority,
            freeze_authority: Some(a.mint_authority),
        },
        CallView::CreateAssociatedAccount {
            payer: a.mint_authority,
            account: a.token_account,
            owner: a.mint_authority,
            mint: a.mint,
        },
        CallView::MintTo { mint: a.mint, destination: a.token_account, authority: a.mint_authority, amount: 1 },
        CallView::CreateMetadata {
            metadata: a.metadata,
            mint: a.mint,
            mint_authority: a.mint_authority,
            payer: a.mint_authority,
            update_authority: a.nft_pda,
            data: metadata_view(nft.name@, nft.symbol@, collection_uri(nft.base_token_uri@), a.nft_manager),
            is_mutable: true,
            collection_root: true,
            signer,
        },
        CallView::CreateMasterEdition {
            edition: a.master_edition,
            mint: a.mint,
            update_authority: a.nft_pda,
            mint_authority: a.mint_authority,
            metadata: a.metadata,
            payer: a.mint_authority,
            max_supply: Some(0),
            signer,
        },
    ]
}

/// Mints the collection's parent token and records it on the collection.
/// Once a collection token is recorded, a call naming another mint fails
/// with `InvalidCollectionMint`; one naming the recorded mint plans its
/// creation again, which the ledger refuses, so the record never changes.
pub fn mint_collection(
    nft_pda: &NftPda,
    collection_pda: &mut CollectionPda,
    accounts: &MintCollection,
    program_id: &Address,
) -> (r: Result<Vec<Call>, ErrorCode>)
    ensures
        match mint_collection_spec(*nft_pda, *old(collection_pda), *accounts, *program_id) {
            Ok((c, calls)) => r matches Ok(v) && calls_view(v@) == calls && *final(collection_pda) == c,
            Err(e) => r == Err::<Vec<Call>, ErrorCode>(e) && *final(collection_pda) == *old(collection_pda),
        },
{
    require_manager(nft_pda, &accounts.nft_manager)?;
    require_authority_match(collection_pda, &accounts.nft_pda)?;
    if let Some(recorded) = &collection_pda.mint {
        if !same_address(recorded, &accounts.mint) {
            return Err(ErrorCode::InvalidCollectionMint);
        }
    }
    let signer = verify(&accounts.nft_pda, Namespace::Nft, &accounts.nft_manager, program_id)?;
    verify(&accounts.collection_pda, Namespace::Collection, &accounts.nft_manager, program_id)?;
    let a = accounts;
    let mut calls: Vec<Call> = Vec::new();
    calls.push(Call::CreateAccount {
        payer: a.mint_authority,
        account: a.mint,
        lamports: MINT_ACCOUNT_LAMPORTS,
        space: MINT_ACCOUNT_SPACE,
        owner: a.token_program,
        signer: None,
    });
    calls.push(Call::InitializeMint {
        mint: a.mint,
        decimals: 0,
        mint_authority: a.mint_authority,
        freeze_authority: Some(a.mint_authority),
    });
    calls.push(Call::CreateAssociatedAccount {
        payer: a.mint_authority,
        account: a.token_account,
        owner: a.mint_authority,
        mint: a.mint,
    });
    calls.push(Call::MintTo { mint: a.mint, destination: a.token_account, authority: a.mint_authority, amount: 1 });
    let uri = collection_uri_string(&nft_pda.base_token_uri);
    let data = metadata_data(nft_pda.name.clone(), nft_pda.symbol.clone(), uri, &a.nft_manager);
    calls.push(Call::CreateMetadata {
        metadata: a.metadata,
        mint: a.mint,
        mint_authority: a.mint_authority,
        payer: a.mint_authority,
        update_authority: a.nft_pda,
        data,
        is_mutable: true,
        collection_root: true,
        signer,
    });
    calls.push(Call::CreateMasterEdition {
        edition: a.master_edition,
        mint: a.mint,
        update_authority: a.nft_pda,
        mint_authority: a.mint_authority,
        metadata: a.metadata,
        payer: a.mint_authority,
        max_supply: Some(0),
        signer,
    });
    collection_pda.mint = Some(a.mint);
    assert(calls_view(calls@) =~= mint_collection_calls(*nft_pda, *accounts, signer));
    Ok(calls)
}

// ---------------------------------------------------------------- collection repair

/// What `set_collection` does, given whether the collection authority record
/// already holds data: its error, or its calls (none when the record exists).
pub open spec fn set_collection_spec(
    nft: NftPda,
    a: SetCollection,
    record_holds_data: bool,
    program: Address,
) -> Result<Seq<CallView>, ErrorCode> {
    if nft.creator != a.nft_manager {
        Err(ErrorCode::InvalidNftManager)
    } else {
        match signer_for(a.nft_pda, Namespace::Nft, a.nft_manager, program) {
            Err(e) => Err(e),
            Ok(signer) => match signer_for(a.collection_pda, Namespace::Collection, a.nft_manager, program) {
                Err(e) => Err(e),
                Ok(_) => if record_holds_data {
                    Ok(Seq::empty())
                } else {
                    Ok(seq![CallView::ApproveCollectionAuthority {
                        record: a.collection_authority_record,
                        new_authority: a.collection_pda,
                        update_authority: a.nft_pda,
                        payer: a.payer,
                        metadata: a.metadata,
                        mint: a.mint,
                        signer,
                    }])
                },
            },
        }
    }
}

/// Approves the collection record as collection authority of `mint`, unless
/// the authority record already holds data.
pub fn set_collection(
    nft_pda: &NftPda,
    accounts: &SetCollection,
    record_holds_data: bool,
    program_id: &Address,
) -> (r: Result<Vec<Call>, ErrorCode>)
    ensures
        match r {
            Ok(calls) => set_collection_spec(*nft_pda, *accounts, record_holds_data, *program_id)
                == Ok::<Seq<CallView>, ErrorCode>(calls_view(calls@)),
            Err(e) => set_collection_spec(*nft_pda, *accounts, record_holds_data, *program_id)
                == Err::<Seq<CallView>, ErrorCode>(e),
        },
{
    require_manager(nft_pda, &accounts.nft_manager)?;
    let signer = verify(&accounts.nft_pda, Namespace::Nft, &accounts.nft_manager, program_id)?;
    verify(&accounts.collection_pda, Namespace::Collection, &accounts.nft_manager, program_id)?;
    let mut calls: Vec<Call> = Vec::new();
    if !record_holds_data {
        calls.push(Call::ApproveCollectionAuthority {
            record: accounts.collection_authority_record,
            new_authority: accounts.collection_pda,
            update_authority: accounts.nft_pda,
            payer: accounts.payer,
            metadata: accounts.metadata,
            mint: accounts.mint,
            signer,
        });
    }
    assert(calls_view(calls@) =~= set_collection_spec(*nft_pda, *accounts, record_holds_data, *program_id)->Ok_0);
    Ok(calls)
}

/// What `set_and_verify_collection` does: its error, or the one call that
/// verifies an already minted member.
pub open spec fn set_and_verify_collection_spec(
    nft: NftPda,
    collection: CollectionPda,
    a: SetAndVerifyCollection,
    program: Address,
) -> Result<Seq<CallView>, ErrorCode> {
    if nft.creator != a.nft_manager {
        Err(ErrorCode::InvalidNftManager)
    } else if collection.mint != Some(a.collection_mint) {
        Err(ErrorCode::InvalidCollectionMint)
    } else {
        match signer_for(a.nft_pda, Namespace::Nft, a.nft_manager, program) {
            Err(e) => Err(e),
            Ok(_) => match signer_for(a.collection_pda, Namespace::Collection, a.nft_manager, program) {
                Err(e) => Err(e),
                Ok(collection_signer) => Ok(seq![verify_item_call(
                    a.metadata,
                    a.collection_pda,
                    a.payer,
                    a.nft_pda,
                    a.collection_mint,
                    a.collection_metadata,
                    a.collection_master_edition,
                    a.collection_authority_record,
                    collection_signer,
                )]),
            },
        }
    }
}

/// Runs again only the verification of a minted member as collection item.
pub fn set_and_verify_collection(
    nft_pda: &NftPda,
    collection_pda: &CollectionPda,
    accounts: &SetAndVerifyCollection,
    program_id: &Address,
) -> (r: Result<Vec<Call>, ErrorCode>)
    ensures
        match r {
            Ok(calls) => set_and_verify_collection_spec(*nft_pda, *collection_pda, *accounts, *program_id)
                == Ok::<Seq<CallView>, ErrorCode>(calls_view(calls@)),
            Err(e) => set_and_verify_collection_spec(*nft_pda, *collection_pda, *accounts, *program_id)
                == Err::<Seq<CallView>, ErrorCode>(e),
        },
{
    require_manager(nft_pda, &accounts.nft_manager)?;
    require_collection_token_match(collection_pda, &accounts.collection_mint)?;
    verify(&accounts.nft_pda, Namespace::Nft, &accounts.nft_manager, program_id)?;
    let collection_signer = verify(
        &accounts.collection_pda,
        Namespace::Collection,
        &accounts.nft_manager,
        program_id,
    )?;
    let a = accounts;
    let mut calls: Vec<Call> = Vec::new();
    calls.push(Call::SetAndVerifySizedCollectionItem {
        metadata: a.metadata,
        collection_authority: a.collection_pda,
        payer: a.payer,
        update_authority: a.nft_pda,
        collection_mint: a.collection_mint,
        collection_metadata: a.collection_metadata,
        collection_master_edition: a.collection_master_edition,
        authority_record: Some(a.collection_authority_record),
        signer: collection_signer,
    });
    assert(calls_view(calls@) =~= set_and_verify_collection_spec(*nft_pda, *collection_pda, *accounts, *program_id)->Ok_0);
    Ok(calls)
}

// ---------------------------------------------------------------- metadata mutators

/// What `update_metadata_account` does: its error, or the one call that
/// rewrites the token's metadata record.
pub open spec fn update_metadata_account_spec(
    nft: NftPda,
    a: UpdateMetadataAccount,
    name: Seq<char>,
    symbol: Seq<char>,
    uri: Seq<char>,
    program: Address,
) -> Result<Seq<CallView>, ErrorCode> {
    if nft.creator != a.nft_manager {
        Err(ErrorCode::Unauthorized)
    } else {
        match signer_for(a.nft_pda, Namespace::Nft, a.nft_manager, program) {
            Err(e) => Err(e),
            Ok(signer) => Ok(seq![CallView::UpdateMetadata {
                metadata: a.metadata,
                update_authority: a.nft_pda,
                data: metadata_view(name, symbol, uri, a.nft_manager),
                is_mutable: Some(true),
                signer,
            }]),
        }
    }
}

/// Rewrites a token's metadata record, signed by the configuration.
pub fn update_metadata_account(
    nft_pda: &NftPda,
    accounts: &UpdateMetadataAccount,
    name: String,
    symbol: String,
    uri: String,
    program_id: &Address,
) -> (r: Result<Vec<Call>, ErrorCode>)
    ensures
        match r {
            Ok(calls) => update_metadata_account_spec(*nft_pda, *accounts, name@, symbol@, uri@, *program_id)
                == Ok::<Seq<CallView>, ErrorCode>(calls_view(calls@)),
            Err(e) => update_metadata_account_spec(*nft_pda, *accounts, name@, symbol@, uri@, *program_id)
                == Err::<Seq<CallView>, ErrorCode>(e),
        },
{
    require_creator(nft_pda, &accounts.nft_manager)?;
    let signer = verify(&accounts.nft_pda, Namespace::Nft, &accounts.nft_manager, program_id)?;
    let ghost (n, s, u) = (name@, symbol@, uri@);
    let data = metadata_data(name, symbol, uri, &accounts.nft_manager);
    let mut calls: Vec<Call> = Vec::new();
    calls.push(Call::UpdateMetadata {
        metadata: accounts.metadata,
        update_authority: accounts.nft_pda,
        data,
        is_mutable: Some(true),
        signer,
    });
    assert(calls_view(calls@) =~= update_metadata_account_spec(*nft_pda, *accounts, n, s, u, *program_id)->Ok_0);
    Ok(calls)
}

/// The check shared by `set_metadata` and `set_price`: the caller is the
/// creator, and the record sits at the caller's derived address.
pub open spec fn edit_check(nft: NftPda, nft_pda: Address, nft_manager: Address, program: Address) -> Result<(), ErrorCode> {
    if nft.creator != nft_manager {
        Err(ErrorCode::Unauthorized)
    } else {
        match signer_for(nft_pda, Namespace::Nft, nft_manager, program) {
            Err(e) => Err(e),
            Ok(_) => Ok(()),
        }
    }
}

/// Replaces the configuration's name, symbol and base URI.
pub fn set_metadata(
    nft_pda: &mut NftPda,
    accounts: &SetMetadata,
    name: String,
    symbol: String,
    base_token_uri: String,
    program_id: &Address,
) -> (r: Result<(), ErrorCode>)
    ensures
        r == edit_check(*old(nft_pda), accounts.nft_pda, accounts.nft_manager, *program_id),
        r is Ok ==> *final(nft_pda) == (NftPda { name, symbol, base_token_uri, ..*old(nft_pda) }),
        r is Err ==> *final(nft_pda) == *old(nft_pda),
{
    require_creator(nft_pda, &accounts.nft_manager)?;
    verify(&accounts.nft_pda, Namespace::Nft, &accounts.nft_manager, program_id)?;
    nft_pda.name = name;
    nft_pda.symbol = symbol;
    nft_pda.base_token_uri = base_token_uri;
    Ok(())
}

/// Replaces the configuration's price.
pub fn set_price(
    nft_pda: &mut NftPda,
    accounts: &SetPrice,
    price_lamports: u64,
    program_id: &Address,
) -> (r: Result<(), ErrorCode>)
    ensures
        r == edit_check(*old(nft_pda), accounts.nft_pda, accounts.nft_manager, *program_id),
        r is Ok ==> *final(nft_pda) == (NftPda { price_lamports, ..*old(nft_pda) }),
        r is Err ==> *final(nft_pda) == *old(nft_pda),
{
    require_creator(nft_pda, &accounts.nft_manager)?;
    verify(&accounts.nft_pda, Namespace::Nft, &accounts.nft_manager, program_id)?;
    nft_pda.price_lamports = price_lamports;
    Ok(())
}

// ---------------------------------------------------------------- initialization

/// What `initialize` does: its error, or the two new records and the calls
/// that create them.
pub open spec fn initialize_spec(
    a: Initialize,
    name: String,
    symbol: String,
    base_token_uri: String,
    price_lamports: u64,
    program: Address,
) -> Result<(NftPda, CollectionPda, Seq<CallView>), ErrorCode> {
    match signer_for(a.nft_pda, Namespace::Nft, a.nft_manager, program) {
        Err(e) => Err(e),
        Ok(nft_signer) => match signer_for(a.collection_pda, Namespace::Collection, a.nft_manager, program) {
            Err(e) => Err(e),
            Ok(collection_signer) => Ok((
                NftPda {
                    creator: a.nft_manager,
                    name,
                    symbol,
                    base_token_uri,
                    price_lamports,
                    bump: nft_signer.bump,
                },
                CollectionPda { authority: a.nft_pda, mint: None, bump: collection_signer.bump },
                seq![
                    CallView::CreateRecord { payer: a.initializer, account: a.nft_pda, space: NFT_PDA_SPACE },
                    CallView::CreateRecord {
                        payer: a.initializer,
                        account: a.collection_pda,
                        space: COLLECTION_PDA_SPACE,
                    },
                ],
            )),
        },
    }
}

/// Sets up a creator's namespace: its configuration record and its
/// collection record, created together.
pub fn initialize(
    accounts: &Initialize,
    name: String,
    symbol: String,
    base_token_uri: String,
    price_lamports: u64,
    program_id: &Address,
) -> (r: Result<(NftPda, CollectionPda, Vec<Call>), ErrorCode>)
    ensures
        match initialize_spec(*accounts, name, symbol, base_token_uri, price_lamports, *program_id) {
            Ok((n, c, calls)) => r matches Ok((rn, rc, v)) && rn == n && rc == c && calls_view(v@) == calls,
            Err(e) => r == Err::<(NftPda, CollectionPda, Vec<Call>), ErrorCode>(e),
        },
{
    let nft_signer = verify(&accounts.nft_pda, Namespace::Nft, &accounts.nft_manager, program_id)?;
    let collection_signer = verify(
        &accounts.collection_pda,
        Namespace::Collection,
        &accounts.nft_manager,
        program_id,
    )?;
    let nft = NftPda {
        creator: accounts.nft_manager,
        name,
        symbol,
        base_token_uri,
        price_lamports,
        bump: nft_signer.bump,
    };
    let collection = CollectionPda { authority: accounts.nft_pda, mint: None, bump: collection_signer.bump };
    let mut calls: Vec<Call> = Vec::new();
    calls.push(Call::CreateRecord { payer: accounts.initializer, account: accounts.nft_pda, space: NFT_PDA_SPACE });
    calls.push(Call::CreateRecord {
        payer: accounts.initializer,
        account: accounts.collection_pda,
        space: COLLECTION_PDA_SPACE,
    });
    assert(calls_view(calls@) =~= seq![
        CallView::CreateRecord { payer: accounts.initializer, account: accounts.nft_pda, space: NFT_PDA_SPACE },
        CallView::CreateRecord { payer: accounts.initializer, account: accounts.collection_pda, space: COLLECTION_PDA_SPACE },
    ]);
    Ok((nft, collection, calls))
}

} // verus!
