use nft_collection::address::{verify, Address, DerivedAuthority, Namespace};
use nft_collection::calls::Call;
use nft_collection::error::ErrorCode;
use nft_collection::instructions::{
    mint, mint_collection, require_authority_match, require_collection_token_match, set_and_verify_collection,
    set_collection, set_metadata, set_price, update_metadata_account, MINT_ACCOUNT_LAMPORTS,
};
use nft_collection::ledger::{Ledger, LedgerError};
use nft_collection::program::{
    run_initialize, run_mint, run_mint_collection, run_set_and_verify_collection, run_set_collection,
    run_update_metadata_account, Records, TxError,
};
use nft_collection::state::{
    CollectionPda, Initialize, MintCollection, MintNft, SetAndVerifyCollection, SetCollection, SetMetadata,
    SetPrice, UpdateMetadataAccount,
};
use nft_collection::uri::{collection_uri_string, decimal_string, member_uri_string};

const PROGRAM: Address = [7u8; 32];
const MANAGER: Address = [1u8; 32];
const OTHER: Address = [2u8; 32];
const INITIALIZER: Address = [3u8; 32];
const MINT_AUTHORITY: Address = [4u8; 32];
const PAYER: Address = [5u8; 32];
const TOKEN_PROGRAM: Address = [6u8; 32];

fn key(tag: u8, n: u8) -> Address {
    let mut k = [tag; 32];
    k[31] = n;
    k
}

fn nft_authority(owner: &Address) -> DerivedAuthority {
    nft_collection::address::derive(Namespace::Nft, owner, &PROGRAM).unwrap()
}

fn collection_authority(owner: &Address) -> DerivedAuthority {
    nft_collection::address::derive(Namespace::Collection, owner, &PROGRAM).unwrap()
}

fn member_mint(id: u8) -> Address {
    nft_collection::address::derive(Namespace::Member(id), &MANAGER, &PROGRAM).unwrap().address
}

fn init_accounts() -> Initialize {
    Initialize {
        initializer: INITIALIZER,
        nft_pda: nft_authority(&MANAGER).address,
        collection_pda: collection_authority(&MANAGER).address,
        nft_manager: MANAGER,
    }
}

fn collection_accounts() -> MintCollection {
    MintCollection {
        nft_pda: nft_authority(&MANAGER).address,
        collection_pda: collection_authority(&MANAGER).address,
        metadata: key(20, 0),
        master_edition: key(21, 0),
        mint: key(22, 0),
        token_account: key(23, 0),
        mint_authority: MINT_AUTHORITY,
        nft_manager: MANAGER,
        token_program: TOKEN_PROGRAM,
    }
}

fn member_accounts(n: u8) -> MintNft {
    MintNft {
        nft_pda: nft_authority(&MANAGER).address,
        collection_pda: collection_authority(&MANAGER).address,
        metadata: key(30, n),
        master_edition: key(31, n),
        mint: member_mint(n),
        token_account: key(33, n),
        mint_authority: MINT_AUTHORITY,
        payer: PAYER,
        nft_manager: MANAGER,
        collection_mint: key(22, 0),
        collection_metadata: key(20, 0),
        collection_master_edition: key(21, 0),
        collection_authority_record: key(40, 0),
        token_program: TOKEN_PROGRAM,
    }
}

fn funded_ledger() -> Ledger {
    let mut ledger = Ledger::new();
    ledger.deposit(&INITIALIZER, 1_000_000_000).unwrap();
    ledger.deposit(&MINT_AUTHORITY, 1_000_000_000).unwrap();
    ledger.deposit(&PAYER, 1_000_000_000).unwrap();
    ledger
}

fn dogs(ledger: &mut Ledger) -> Records {
    run_initialize(
        ledger,
        &init_accounts(),
        "Dogs".to_string(),
        "DOG".to_string(),
        "https://x/".to_string(),
        1_000_000,
        &PROGRAM,
    )
    .unwrap()
}

fn dogs_with_collection(ledger: &mut Ledger) -> Records {
    let mut records = dogs(ledger);
    run_mint_collection(&mut records, ledger, &collection_accounts(), &PROGRAM).unwrap();
    records
}

fn metadata_uri(calls: &[Call]) -> String {
    for c in calls {
        if let Call::CreateMetadata { data, .. } = c {
            return data.uri.clone();
        }
    }
    panic!("no metadata call")
}

#[test]
fn derived_addresses_differ_by_creator() {
    assert_ne!(nft_authority(&MANAGER).address, nft_authority(&OTHER).address);
    assert_ne!(collection_authority(&MANAGER).address, collection_authority(&OTHER).address);
}

#[test]
fn derived_addresses_differ_by_namespace() {
    assert_ne!(nft_authority(&MANAGER).address, collection_authority(&MANAGER).address);
}

#[test]
fn derivation_is_reproducible_and_not_the_owner() {
    let a = nft_authority(&MANAGER);
    let b = nft_authority(&MANAGER);
    assert_eq!(a.address, b.address);
    assert_eq!(a.bump, b.bump);
    assert_ne!(a.address, MANAGER);
}

#[test]
fn verify_accepts_derived_address_with_same_bump() {
    for owner in [MANAGER, OTHER, [0u8; 32], [255u8; 32]] {
        for ns in [Namespace::Nft, Namespace::Collection] {
            let d = nft_collection::address::derive(ns, &owner, &PROGRAM).unwrap();
            let v = verify(&d.address, ns, &owner, &PROGRAM).unwrap();
            assert_eq!(v.bump, d.bump);
            assert_eq!(v.address, d.address);
        }
    }
}

#[test]
fn verify_rejects_other_address() {
    let d = nft_authority(&MANAGER);
    assert!(matches!(verify(&d.address, Namespace::Collection, &MANAGER, &PROGRAM), Err(ErrorCode::AddressMismatch)));
    assert!(matches!(verify(&d.address, Namespace::Nft, &OTHER, &PROGRAM), Err(ErrorCode::AddressMismatch)));
    assert!(matches!(verify(&MANAGER, Namespace::Nft, &MANAGER, &PROGRAM), Err(ErrorCode::AddressMismatch)));
}

#[test]
fn decimal_and_uris() {
    assert_eq!(decimal_string(0), "0");
    assert_eq!(decimal_string(7), "7");
    assert_eq!(decimal_string(10), "10");
    assert_eq!(decimal_string(12345), "12345");
    assert_eq!(decimal_string(u64::MAX), "18446744073709551615");
    assert_eq!(collection_uri_string(&"https://x/".to_string()), "https://x/collection.json");
    assert_eq!(member_uri_string(&"https://x/".to_string(), 2), "https://x/2.json");
    assert_eq!(member_uri_string(&"".to_string(), 1), "1.json");
}

#[test]
fn initialize_sets_both_records() {
    let mut ledger = funded_ledger();
    let records = dogs(&mut ledger);
    assert_eq!(records.nft_pda.creator, MANAGER);
    assert_eq!(records.nft_pda.name, "Dogs");
    assert_eq!(records.nft_pda.symbol, "DOG");
    assert_eq!(records.nft_pda.base_token_uri, "https://x/");
    assert_eq!(records.nft_pda.price_lamports, 1_000_000);
    assert_eq!(records.nft_pda.bump, nft_authority(&MANAGER).bump);
    assert_eq!(records.collection_pda.authority, nft_authority(&MANAGER).address);
    assert_eq!(records.collection_pda.mint, None);
    assert_eq!(records.collection_pda.bump, collection_authority(&MANAGER).bump);
    assert!(ledger.holds_data(&nft_authority(&MANAGER).address));
    assert!(ledger.holds_data(&collection_authority(&MANAGER).address));
}

#[test]
fn initialize_twice_fails_already_exists() {
    let mut ledger = funded_ledger();
    dogs(&mut ledger);
    let again = run_initialize(
        &mut ledger,
        &init_accounts(),
        "Cats".to_string(),
        "CAT".to_string(),
        "https://y/".to_string(),
        5,
        &PROGRAM,
    );
    assert!(matches!(again, Err(TxError::Ledger(LedgerError::AlreadyExists))));
}

#[test]
fn initialize_rejects_underived_record() {
    let mut ledger = funded_ledger();
    let mut accounts = init_accounts();
    accounts.nft_pda = key(9, 9);
    let r = run_initialize(&mut ledger, &accounts, "a".to_string(), "b".to_string(), "c".to_string(), 1, &PROGRAM);
    assert!(matches!(r, Err(TxError::Program(ErrorCode::AddressMismatch))));
    assert!(!ledger.holds_data(&nft_authority(&MANAGER).address));
}

#[test]
fn mint_collection_records_token_and_plans_calls() {
    let mut ledger = funded_ledger();
    let records = dogs(&mut ledger);
    let mut collection = records.collection_pda;
    let calls = mint_collection(&records.nft_pda, &mut collection, &collection_accounts(), &PROGRAM).unwrap();
    assert_eq!(collection.mint, Some(key(22, 0)));
    assert_eq!(calls.len(), 6);
    assert!(matches!(calls[0], Call::CreateAccount { lamports: MINT_ACCOUNT_LAMPORTS, space: 82, .. }));
    assert!(matches!(calls[1], Call::InitializeMint { decimals: 0, .. }));
    assert!(matches!(calls[3], Call::MintTo { amount: 1, .. }));
    assert_eq!(metadata_uri(&calls), "https://x/collection.json");
    match &calls[4] {
        Call::CreateMetadata { data, collection_root, update_authority, signer, .. } => {
            assert!(*collection_root);
            assert_eq!(data.name, "Dogs");
            assert_eq!(data.symbol, "DOG");
            assert_eq!(data.seller_fee_basis_points, 200);
            assert_eq!(data.creator.address, MANAGER);
            assert!(!data.creator.verified);
            assert_eq!(data.creator.share, 100);
            assert_eq!(*update_authority, nft_authority(&MANAGER).address);
            assert_eq!(signer.bump, nft_authority(&MANAGER).bump);
        }
        _ => panic!("expected metadata"),
    }
    assert!(matches!(calls[5], Call::CreateMasterEdition { max_supply: Some(0), .. }));
}

#[test]
fn mint_collection_twice_is_refused() {
    let mut ledger = funded_ledger();
    let mut records = dogs_with_collection(&mut ledger);
    assert_eq!(records.collection_pda.mint, Some(key(22, 0)));
    let before = ledger.state(&MINT_AUTHORITY);
    let again = run_mint_collection(&mut records, &mut ledger, &collection_accounts(), &PROGRAM);
    assert!(matches!(again, Err(TxError::Ledger(LedgerError::AlreadyExists))));
    assert_eq!(records.collection_pda.mint, Some(key(22, 0)));
    assert_eq!(ledger.state(&MINT_AUTHORITY), before);
}

#[test]
fn mint_collection_checks_manager_and_authority() {
    let mut ledger = funded_ledger();
    let records = dogs(&mut ledger);
    let mut collection = records.collection_pda;
    let mut accounts = collection_accounts();
    accounts.nft_manager = OTHER;
    let r = mint_collection(&records.nft_pda, &mut collection, &accounts, &PROGRAM);
    assert!(matches!(r, Err(ErrorCode::InvalidNftManager)));
    let mut foreign = CollectionPda { authority: key(9, 1), mint: None, bump: 0 };
    let r = mint_collection(&records.nft_pda, &mut foreign, &collection_accounts(), &PROGRAM);
    assert!(matches!(r, Err(ErrorCode::InvalidCollectionAuthority)));
    assert_eq!(foreign.mint, None);
    assert!(matches!(require_authority_match(&collection, &key(9, 2)), Err(ErrorCode::InvalidCollectionAuthority)));
}

#[test]
fn mint_rejects_token_ids_outside_collection() {
    let mut ledger = funded_ledger();
    let records = dogs_with_collection(&mut ledger);
    for id in [0u64, 3, 4, 100, u64::MAX] {
        let r = mint(&records.nft_pda, &records.collection_pda, &member_accounts(1), id, &PROGRAM);
        assert!(matches!(r, Err(ErrorCode::InvalidTokenId)));
    }
    let mut wrong = member_accounts(1);
    wrong.nft_manager = OTHER;
    let r = mint(&records.nft_pda, &records.collection_pda, &wrong, 0, &PROGRAM);
    assert!(matches!(r, Err(ErrorCode::InvalidTokenId)));
}

#[test]
fn mint_same_token_twice_fails() {
    let mut ledger = funded_ledger();
    let records = dogs_with_collection(&mut ledger);
    run_mint(&records, &mut ledger, &member_accounts(1), 1, &PROGRAM).unwrap();
    let payer_before = ledger.state(&PAYER);
    let again = run_mint(&records, &mut ledger, &member_accounts(1), 1, &PROGRAM);
    assert!(matches!(again, Err(TxError::Ledger(LedgerError::AlreadyExists))));
    assert_eq!(ledger.state(&PAYER), payer_before);
}

#[test]
fn mint_pays_price_to_configuration() {
    let mut ledger = funded_ledger();
    let records = dogs_with_collection(&mut ledger);
    let nft = nft_authority(&MANAGER).address;
    let before = ledger.state(&nft).lamports;
    let payer_before = ledger.state(&PAYER).lamports;
    run_mint(&records, &mut ledger, &member_accounts(1), 1, &PROGRAM).unwrap();
    assert_eq!(ledger.state(&nft).lamports, before + 1_000_000);
    assert_eq!(ledger.state(&PAYER).lamports, payer_before - 1_000_000 - MINT_ACCOUNT_LAMPORTS);
    assert!(ledger.holds_data(&member_mint(1)));
    assert!(ledger.holds_data(&key(30, 1)));
}

#[test]
fn mint_without_funds_creates_nothing() {
    let mut ledger = Ledger::new();
    ledger.deposit(&INITIALIZER, 1_000_000_000).unwrap();
    ledger.deposit(&MINT_AUTHORITY, 1_000_000_000).unwrap();
    ledger.deposit(&PAYER, 500_000).unwrap();
    let records = dogs_with_collection(&mut ledger);
    let r = run_mint(&records, &mut ledger, &member_accounts(1), 1, &PROGRAM);
    assert!(matches!(r, Err(TxError::Ledger(LedgerError::InsufficientFunds))));
    assert!(!ledger.holds_data(&member_mint(1)));
    assert_eq!(ledger.state(&PAYER).lamports, 500_000);
}

#[test]
fn mint_rejects_wrong_collection_mint() {
    let mut ledger = funded_ledger();
    let records = dogs_with_collection(&mut ledger);
    let mut accounts = member_accounts(1);
    accounts.collection_mint = key(99, 0);
    let r = mint(&records.nft_pda, &records.collection_pda, &accounts, 1, &PROGRAM);
    assert!(matches!(r, Err(ErrorCode::InvalidCollectionMint)));
    let unminted = dogs(&mut funded_ledger());
    let r = mint(&unminted.nft_pda, &unminted.collection_pda, &member_accounts(1), 2, &PROGRAM);
    assert!(matches!(r, Err(ErrorCode::InvalidCollectionMint)));
    assert!(matches!(require_collection_token_match(&unminted.collection_pda, &key(22, 0)), Err(ErrorCode::InvalidCollectionMint)));
}

#[test]
fn mint_rejects_wrong_manager() {
    let mut ledger = funded_ledger();
    let records = dogs_with_collection(&mut ledger);
    let mut accounts = member_accounts(1);
    accounts.nft_manager = OTHER;
    let r = mint(&records.nft_pda, &records.collection_pda, &accounts, 1, &PROGRAM);
    assert!(matches!(r, Err(ErrorCode::InvalidNftManager)));
}

#[test]
fn mint_plan_pays_first_and_verifies_last() {
    let mut ledger = funded_ledger();
    let records = dogs_with_collection(&mut ledger);
    let calls = mint(&records.nft_pda, &records.collection_pda, &member_accounts(2), 2, &PROGRAM).unwrap();
    assert_eq!(calls.len(), 8);
    match &calls[0] {
        Call::Transfer { from, to, lamports } => {
            assert_eq!(*from, PAYER);
            assert_eq!(*to, nft_authority(&MANAGER).address);
            assert_eq!(*lamports, 1_000_000);
        }
        _ => panic!("payment must come first"),
    }
    match &calls[1] {
        Call::CreateAccount { account, signer, .. } => {
            assert_eq!(*account, member_mint(2));
            assert_eq!(signer.unwrap().address, member_mint(2));
        }
        _ => panic!("the token class comes right after payment"),
    }
    match &calls[7] {
        Call::SetAndVerifySizedCollectionItem { collection_mint, authority_record, signer, .. } => {
            assert_eq!(*collection_mint, key(22, 0));
            assert_eq!(*authority_record, Some(key(40, 0)));
            assert_eq!(signer.address, collection_authority(&MANAGER).address);
            assert_eq!(signer.bump, collection_authority(&MANAGER).bump);
        }
        _ => panic!("verification must come last"),
    }
}

#[test]
fn set_price_by_other_is_unauthorized() {
    let mut ledger = funded_ledger();
    let mut records = dogs(&mut ledger);
    let accounts = SetPrice { nft_pda: nft_authority(&MANAGER).address, nft_manager: OTHER };
    assert!(matches!(set_price(&mut records.nft_pda, &accounts, 5, &PROGRAM), Err(ErrorCode::Unauthorized)));
    assert_eq!(records.nft_pda.price_lamports, 1_000_000);
}

#[test]
fn set_price_by_creator_changes_price() {
    let mut ledger = funded_ledger();
    let mut records = dogs(&mut ledger);
    let accounts = SetPrice { nft_pda: nft_authority(&MANAGER).address, nft_manager: MANAGER };
    set_price(&mut records.nft_pda, &accounts, 5, &PROGRAM).unwrap();
    assert_eq!(records.nft_pda.price_lamports, 5);
    assert_eq!(records.nft_pda.name, "Dogs");
}

#[test]
fn set_metadata_by_other_is_unauthorized() {
    let mut ledger = funded_ledger();
    let mut records = dogs(&mut ledger);
    let accounts = SetMetadata { nft_pda: nft_authority(&MANAGER).address, nft_manager: OTHER };
    let r = set_metadata(&mut records.nft_pda, &accounts, "Cats".to_string(), "CAT".to_string(), "u/".to_string(), &PROGRAM);
    assert!(matches!(r, Err(ErrorCode::Unauthorized)));
    assert_eq!(records.nft_pda.name, "Dogs");
}

#[test]
fn set_metadata_by_creator_changes_fields() {
    let mut ledger = funded_ledger();
    let mut records = dogs(&mut ledger);
    let accounts = SetMetadata { nft_pda: nft_authority(&MANAGER).address, nft_manager: MANAGER };
    set_metadata(&mut records.nft_pda, &accounts, "Cats".to_string(), "CAT".to_string(), "u/".to_string(), &PROGRAM)
        .unwrap();
    assert_eq!(records.nft_pda.name, "Cats");
    assert_eq!(records.nft_pda.symbol, "CAT");
    assert_eq!(records.nft_pda.base_token_uri, "u/");
    assert_eq!(records.nft_pda.price_lamports, 1_000_000);
}

#[test]
fn set_price_at_wrong_address_is_mismatch() {
    let mut ledger = funded_ledger();
    let mut records = dogs(&mut ledger);
    let accounts = SetPrice { nft_pda: key(9, 3), nft_manager: MANAGER };
    assert!(matches!(set_price(&mut records.nft_pda, &accounts, 5, &PROGRAM), Err(ErrorCode::AddressMismatch)));
    assert_eq!(records.nft_pda.price_lamports, 1_000_000);
}

#[test]
fn update_metadata_account_by_other_is_unauthorized() {
    let mut ledger = funded_ledger();
    let records = dogs_with_collection(&mut ledger);
    let accounts = UpdateMetadataAccount { nft_pda: nft_authority(&MANAGER).address, metadata: key(20, 0), nft_manager: OTHER };
    let r = update_metadata_account(&records.nft_pda, &accounts, "n".to_string(), "s".to_string(), "u".to_string(), &PROGRAM);
    assert!(matches!(r, Err(ErrorCode::Unauthorized)));
}

#[test]
fn update_metadata_account_by_creator_rewrites_record() {
    let mut ledger = funded_ledger();
    let records = dogs_with_collection(&mut ledger);
    let accounts = UpdateMetadataAccount { nft_pda: nft_authority(&MANAGER).address, metadata: key(20, 0), nft_manager: MANAGER };
    let calls = update_metadata_account(&records.nft_pda, &accounts, "n".to_string(), "s".to_string(), "u".to_string(), &PROGRAM)
        .unwrap();
    assert_eq!(calls.len(), 1);
    match &calls[0] {
        Call::UpdateMetadata { metadata, data, is_mutable, update_authority, .. } => {
            assert_eq!(*metadata, key(20, 0));
            assert_eq!(data.name, "n");
            assert_eq!(data.symbol, "s");
            assert_eq!(data.uri, "u");
            assert_eq!(data.seller_fee_basis_points, 200);
            assert_eq!(*is_mutable, Some(true));
            assert_eq!(*update_authority, nft_authority(&MANAGER).address);
        }
        _ => panic!("expected an update"),
    }
    run_update_metadata_account(&records, &mut ledger, &accounts, "n".to_string(), "s".to_string(), "u".to_string(), &PROGRAM)
        .unwrap();
    let missing = UpdateMetadataAccount { metadata: key(77, 0), ..accounts };
    let r = run_update_metadata_account(&records, &mut ledger, &missing, "n".to_string(), "s".to_string(), "u".to_string(), &PROGRAM);
    assert!(matches!(r, Err(TxError::Ledger(LedgerError::MissingAccount))));
}

fn set_collection_accounts() -> SetCollection {
    SetCollection {
        nft_pda: nft_authority(&MANAGER).address,
        collection_pda: collection_authority(&MANAGER).address,
        payer: PAYER,
        metadata: key(20, 0),
        mint: key(22, 0),
        collection_authority_record: key(40, 0),
        nft_manager: MANAGER,
    }
}

#[test]
fn set_collection_is_idempotent() {
    let mut ledger = funded_ledger();
    let records = dogs_with_collection(&mut ledger);
    let accounts = set_collection_accounts();
    let first = set_collection(&records.nft_pda, &accounts, false, &PROGRAM).unwrap();
    assert_eq!(first.len(), 1);
    assert!(matches!(first[0], Call::ApproveCollectionAuthority { .. }));
    run_set_collection(&records, &mut ledger, &accounts, &PROGRAM).unwrap();
    assert!(ledger.holds_data(&key(40, 0)));
    let second = set_collection(&records.nft_pda, &accounts, true, &PROGRAM).unwrap();
    assert!(second.is_empty());
    run_set_collection(&records, &mut ledger, &accounts, &PROGRAM).unwrap();
    assert!(ledger.holds_data(&key(40, 0)));
}

#[test]
fn set_collection_rejects_wrong_manager() {
    let mut ledger = funded_ledger();
    let records = dogs_with_collection(&mut ledger);
    let accounts = SetCollection { nft_manager: OTHER, ..set_collection_accounts() };
    let r = set_collection(&records.nft_pda, &accounts, false, &PROGRAM);
    assert!(matches!(r, Err(ErrorCode::InvalidNftManager)));
}

#[test]
fn set_and_verify_collection_repeats_verification() {
    let mut ledger = funded_ledger();
    let records = dogs_with_collection(&mut ledger);
    run_mint(&records, &mut ledger, &member_accounts(1), 1, &PROGRAM).unwrap();
    let accounts = SetAndVerifyCollection {
        nft_pda: nft_authority(&MANAGER).address,
        metadata: key(30, 1),
        collection_pda: collection_authority(&MANAGER).address,
        payer: PAYER,
        nft_manager: MANAGER,
        collection_mint: key(22, 0),
        collection_metadata: key(20, 0),
        collection_master_edition: key(21, 0),
        collection_authority_record: key(40, 0),
    };
    let calls = set_and_verify_collection(&records.nft_pda, &records.collection_pda, &accounts, &PROGRAM).unwrap();
    assert_eq!(calls.len(), 1);
    assert!(matches!(calls[0], Call::SetAndVerifySizedCollectionItem { .. }));
    run_set_and_verify_collection(&records, &mut ledger, &accounts, &PROGRAM).unwrap();
    run_set_and_verify_collection(&records, &mut ledger, &accounts, &PROGRAM).unwrap();
    let wrong = SetAndVerifyCollection { collection_mint: key(99, 0), ..accounts };
    let r = run_set_and_verify_collection(&records, &mut ledger, &wrong, &PROGRAM);
    assert!(matches!(r, Err(TxError::Program(ErrorCode::InvalidCollectionMint))));
}

#[test]
fn end_to_end_dogs_collection() {
    let mut ledger = funded_ledger();
    let mut records = dogs(&mut ledger);
    run_mint_collection(&mut records, &mut ledger, &collection_accounts(), &PROGRAM).unwrap();
    let plan1 = mint(&records.nft_pda, &records.collection_pda, &member_accounts(1), 1, &PROGRAM).unwrap();
    assert_eq!(metadata_uri(&plan1), "https://x/1.json");
    run_mint(&records, &mut ledger, &member_accounts(1), 1, &PROGRAM).unwrap();
    let plan2 = mint(&records.nft_pda, &records.collection_pda, &member_accounts(2), 2, &PROGRAM).unwrap();
    assert_eq!(metadata_uri(&plan2), "https://x/2.json");
    run_mint(&records, &mut ledger, &member_accounts(2), 2, &PROGRAM).unwrap();
    let third = run_mint(&records, &mut ledger, &member_accounts(3), 3, &PROGRAM);
    assert!(matches!(third, Err(TxError::Program(ErrorCode::InvalidTokenId))));
    assert!(ledger.holds_data(&key(30, 1)));
    assert!(ledger.holds_data(&key(30, 2)));
    assert!(!ledger.holds_data(&key(30, 3)));
}

#[test]
fn error_messages() {
    assert_eq!(ErrorCode::Unauthorized.message(), "You are not authorized to perform this action.");
    assert_eq!(ErrorCode::InvalidNftManager.message(), "Invalid nft manager.");
    assert_eq!(ErrorCode::InvalidCollectionAuthority.message(), "Invalid collection authority.");
    assert_eq!(ErrorCode::InvalidCollectionMint.message(), "Invalid collection mint.");
    assert_eq!(ErrorCode::InvalidTokenId.message(), "Invalid token id.");
    assert_eq!(ErrorCode::AddressMismatch.message(), "Derived key invalid.");
}

#[test]
fn deposit_overflow_is_refused() {
    let mut ledger = Ledger::new();
    ledger.deposit(&PAYER, u64::MAX).unwrap();
    assert!(matches!(ledger.deposit(&PAYER, 1), Err(LedgerError::LamportOverflow)));
    assert_eq!(ledger.state(&PAYER).lamports, u64::MAX);
}

#[test]
fn mint_collection_again_with_fresh_mint_is_refused() {
    let mut ledger = funded_ledger();
    let mut records = dogs_with_collection(&mut ledger);
    let fresh = MintCollection {
        metadata: key(24, 0),
        master_edition: key(25, 0),
        mint: key(26, 0),
        token_account: key(27, 0),
        ..collection_accounts()
    };
    let mut collection = records.collection_pda;
    let r = mint_collection(&records.nft_pda, &mut collection, &fresh, &PROGRAM);
    assert!(matches!(r, Err(ErrorCode::InvalidCollectionMint)));
    assert_eq!(collection.mint, Some(key(22, 0)));
    let again = run_mint_collection(&mut records, &mut ledger, &fresh, &PROGRAM);
    assert!(matches!(again, Err(TxError::Program(ErrorCode::InvalidCollectionMint))));
    assert_eq!(records.collection_pda.mint, Some(key(22, 0)));
    assert!(!ledger.holds_data(&key(26, 0)));
}

#[test]
fn mint_same_token_with_fresh_accounts_fails() {
    let mut ledger = funded_ledger();
    let records = dogs_with_collection(&mut ledger);
    run_mint(&records, &mut ledger, &member_accounts(1), 1, &PROGRAM).unwrap();
    let fresh = MintNft {
        metadata: key(50, 1),
        master_edition: key(51, 1),
        token_account: key(53, 1),
        ..member_accounts(1)
    };
    let payer_before = ledger.state(&PAYER);
    let again = run_mint(&records, &mut ledger, &fresh, 1, &PROGRAM);
    assert!(matches!(again, Err(TxError::Ledger(LedgerError::AlreadyExists))));
    assert!(!ledger.holds_data(&key(50, 1)));
    assert_eq!(ledger.state(&PAYER), payer_before);
    run_mint(&records, &mut ledger, &member_accounts(2), 2, &PROGRAM).unwrap();
}

#[test]
fn mint_rejects_token_class_not_derived_for_id() {
    let mut ledger = funded_ledger();
    let records = dogs_with_collection(&mut ledger);
    let accounts = MintNft { mint: member_mint(2), ..member_accounts(1) };
    let r = mint(&records.nft_pda, &records.collection_pda, &accounts, 1, &PROGRAM);
    assert!(matches!(r, Err(ErrorCode::AddressMismatch)));
    let accounts = MintNft { mint: key(52, 1), ..member_accounts(1) };
    let r = mint(&records.nft_pda, &records.collection_pda, &accounts, 1, &PROGRAM);
    assert!(matches!(r, Err(ErrorCode::AddressMismatch)));
}

#[test]
fn member_mints_differ_by_id_and_creator() {
    let a = nft_collection::address::derive(Namespace::Member(1), &MANAGER, &PROGRAM).unwrap().address;
    let b = nft_collection::address::derive(Namespace::Member(2), &MANAGER, &PROGRAM).unwrap().address;
    let c = nft_collection::address::derive(Namespace::Member(1), &OTHER, &PROGRAM).unwrap().address;
    assert_ne!(a, b);
    assert_ne!(a, c);
    assert_ne!(a, nft_authority(&MANAGER).address);
}
