//! Whole operations run as one transaction against the ledger: the checks,
//! then the calls, all or nothing, then the record update. A failure at any
//! step leaves both the records and the ledger as they were.

use vstd::prelude::*;
use crate::address::Address;
use crate::calls::{Call, CallView, calls_view};
use crate::error::ErrorCode;
use crate::instructions::{
    initialize, initialize_spec, mint, mint_collection, mint_collection_spec, mint_spec, set_and_verify_collection,
    set_and_verify_collection_spec, set_collection, set_collection_spec, update_metadata_account,
    update_metadata_account_spec,
};
use crate::ledger::{AccountState, Ledger, LedgerError, run_spec};
use crate::state::{
    CollectionPda, Initialize, MintCollection, MintNft, NftPda, SetAndVerifyCollection, SetCollection,
    UpdateMetadataAccount,
};

verus! {

/// The two records of one creator's namespace.
#[derive(Debug, Clone)]
pub struct Records {
    pub nft_pda: NftPda,
    pub collection_pda: CollectionPda,
}

/// Why a transaction failed: a check of the program, or a call.
#[derive(Debug, Clone, Copy, PartialEq, Eq, Structural)]
pub enum TxError {
    Program(ErrorCode),
    Ledger(LedgerError),
}

/// The ledger after running a plan, or why the plan or its run failed.
pub open spec fn run_plan(
    m: Map<Address, AccountState>,
    plan: Result<Seq<CallView>, ErrorCode>,
) -> Result<Map<Address, AccountState>, TxError> {
    match plan {
        Err(e) => Err(TxError::Program(e)),
        Ok(calls) => match run_spec(m, calls) {
            Err(e) => Err(TxError::Ledger(e)),
            Ok(m1) => Ok(m1),
        },
    }
}

fn run_calls(ledger: &mut Ledger, calls: &Vec<Call>) -> (r: Result<(), TxError>)
    requires
        old(ledger).wf(),
    ensures
        final(ledger).wf(),
        match run_spec(old(ledger).view(), calls_view(calls@)) {
            Ok(m) => r is Ok && final(ledger).view() == m,
            Err(e) => r == Err::<(), TxError>(TxError::Ledger(e)) && final(ledger).view() == old(ledger).view(),
        },
{
    match ledger.execute(calls) {
        Ok(()) => Ok(()),
        Err(e) => Err(TxError::Ledger(e)),
    }
}

/// `initialize` as a transaction.
pub open spec fn initialize_tx(
    m: Map<Address, AccountState>,
    a: Initialize,
    name: String,
    symbol: String,
    base_token_uri: String,
    price_lamports: u64,
    program: Address,
) -> Result<(Records, Map<Address, AccountState>), TxError> {
    match initialize_spec(a, name, symbol, base_token_uri, price_lamports, program) {
        Err(e) => Err(TxError::Program(e)),
        Ok((n, c, calls)) => match run_spec(m, calls) {
            Err(e) => Err(TxError::Ledger(e)),
            Ok(m1) => Ok((Records { nft_pda: n, collection_pda: c }, m1)),
        },
    }
}

/// Creates a creator's two records on the ledger.
pub fn run_initialize(
    ledger: &mut Ledger,
    accounts: &Initialize,
    name: String,
    symbol: String,
    base_token_uri: String,
    price_lamports: u64,
    program_id: &Address,
) -> (r: Result<Records, TxError>)
    requires
        old(ledger).wf(),
    ensures
        final(ledger).wf(),
        match initialize_tx(old(ledger).view(), *accounts, name, symbol, base_token_uri, price_lamports, *program_id) {
            Ok((records, m)) => r matches Ok(rr) && rr == records && final(ledger).view() == m,
            Err(e) => r == Err::<Records, TxError>(e) && final(ledger).view() == old(ledger).view(),
        },
{
    let (nft_pda, collection_pda, calls) = match initialize(
        accounts,
        name,
        symbol,
        base_token_uri,
        price_lamports,
        program_id,
    ) {
        Ok(x) => x,
        Err(e) => return Err(TxError::Program(e)),
    };
    run_calls(ledger, &calls)?;
    Ok(Records { nft_pda, collection_pda })
}

/// `mint_collection` as a transaction.
pub open spec fn mint_collection_tx(
    r: Records,
    m: Map<Address, AccountState>,
    a: MintCollection,
    program: Address,
) -> Result<(Records, Map<Address, AccountState>), TxError> {
    match mint_collection_spec(r.nft_pda, r.collection_pda, a, program) {
        Err(e) => Err(TxError::Program(e)),
        Ok((c, calls)) => match run_spec(m, calls) {
            Err(e) => Err(TxError::Ledger(e)),
            Ok(m1) => Ok((Records { collection_pda: c, ..r }, m1)),
        },
    }
}

/// Mints the collection token and records it, all or nothing.
pub fn run_mint_collection(
    records: &mut Records,
    ledger: &mut Ledger,
    accounts: &MintCollection,
    program_id: &Address,
) -> (r: Result<(), TxError>)
    requires
        old(ledger).wf(),
    ensures
        final(ledger).wf(),
        match mint_collection_tx(*old(records), old(ledger).view(), *accounts, *program_id) {
            Ok((rs, m)) => r is Ok && *final(records) == rs && final(ledger).view() == m,
            Err(e) => r == Err::<(), TxError>(e) && *final(records) == *old(records)
                && final(ledger).view() == old(ledger).view(),
        },
{
    let mut collection = records.collection_pda;
    let calls = match mint_collection(&records.nft_pda, &mut collection, accounts, program_id) {
        Ok(calls) => calls,
        Err(e) => return Err(TxError::Program(e)),
    };
    run_calls(ledger, &calls)?;
    records.collection_pda = collection;
    Ok(())
}

/// `mint` as a transaction; the records do not change.
pub open spec fn mint_tx(
    r: Records,
    m: Map<Address, AccountState>,
    a: MintNft,
    token_id: u64,
    program: Address,
) -> Result<Map<Address, AccountState>, TxError> {
    run_plan(m, mint_spec(r.nft_pda, r.collection_pda, a, token_id, program))
}

/// Mints member `token_id`, all or nothing.
pub fn run_mint(
    records: &Records,
    ledger: &mut Ledger,
    accounts: &MintNft,
    token_id: u64,
    program_id: &Address,
) -> (r: Result<(), TxError>)
    requires
        old(ledger).wf(),
    ensures
        final(ledger).wf(),
        match mint_tx(*records, old(ledger).view(), *accounts, token_id, *program_id) {
            Ok(m) => r is Ok && final(ledger).view() == m,
            Err(e) => r == Err::<(), TxError>(e) && final(ledger).view() == old(ledger).view(),
        },
{
    let calls = match mint(&records.nft_pda, &records.collection_pda, accounts, token_id, program_id) {
        Ok(calls) => calls,
        Err(e) => return Err(TxError::Program(e)),
    };
    run_calls(ledger, &calls)
}

/// `set_collection` as a transaction: whether the authority record holds
/// data is read from the ledger.
pub open spec fn set_collection_tx(
    r: Records,
    m: Map<Address, AccountState>,
    a: SetCollection,
    program: Address,
) -> Result<Map<Address, AccountState>, TxError> {
    run_plan(
        m,
        set_collection_spec(r.nft_pda, a, crate::ledger::in_use(m, a.collection_authority_record), program),
    )
}

/// Approves the collection authority unless its record exists, all or nothing.
pub fn run_set_collection(
    records: &Records,
    ledger: &mut Ledger,
    accounts: &SetCollection,
    program_id: &Address,
) -> (r: Result<(), TxError>)
    requires
        old(ledger).wf(),
    ensures
        final(ledger).wf(),
        match set_collection_tx(*records, old(ledger).view(), *accounts, *program_id) {
            Ok(m) => r is Ok && final(ledger).view() == m,
            Err(e) => r == Err::<(), TxError>(e) && final(ledger).view() == old(ledger).view(),
        },
{
    let exists = ledger.holds_data(&accounts.collection_authority_record);
    let calls = match set_collection(&records.nft_pda, accounts, exists, program_id) {
        Ok(calls) => calls,
        Err(e) => return Err(TxError::Program(e)),
    };
    run_calls(ledger, &calls)
}

/// `set_and_verify_collection` as a transaction.
pub open spec fn set_and_verify_collection_tx(
    r: Records,
    m: Map<Address, AccountState>,
    a: SetAndVerifyCollection,
    program: Address,
) -> Result<Map<Address, AccountState>, TxError> {
    run_plan(m, set_and_verify_collection_spec(r.nft_pda, r.collection_pda, a, program))
}

/// Verifies a minted member as collection item, all or nothing.
pub fn run_set_and_verify_collection(
    records: &Records,
    ledger: &mut Ledger,
    accounts: &SetAndVerifyCollection,
    program_id: &Address,
) -> (r: Result<(), TxError>)
    requires
        old(ledger).wf(),
    ensures
        final(ledger).wf(),
        match set_and_verify_collection_tx(*records, old(ledger).view(), *accounts, *program_id) {
            Ok(m) => r is Ok && final(ledger).view() == m,
            Err(e) => r == Err::<(), TxError>(e) && final(ledger).view() == old(ledger).view(),
        },
{
    let calls = match set_and_verify_collection(&records.nft_pda, &records.collection_pda, accounts, program_id) {
        Ok(calls) => calls,
        Err(e) => return Err(TxError::Program(e)),
    };
    run_calls(ledger, &calls)
}

/// `update_metadata_account` as a transaction.
pub open spec fn update_metadata_account_tx(
    r: Records,
    m: Map<Address, AccountState>,
    a: UpdateMetadataAccount,
    name: Seq<char>,
    symbol: Seq<char>,
    uri: Seq<char>,
    program: Address,
) -> Result<Map<Address, AccountState>, TxError> {
    run_plan(m, update_metadata_account_spec(r.nft_pda, a, name, symbol, uri, program))
}

/// Rewrites a token's metadata record, all or nothing.
pub fn run_update_metadata_account(
    records: &Records,
    ledger: &mut Ledger,
    accounts: &UpdateMetadataAccount,
    name: String,
    symbol: String,
    uri: String,
    program_id: &Address,
) -> (r: Result<(), TxError>)
    requires
        old(ledger).wf(),
    ensures
        final(ledger).wf(),
        match update_metadata_account_tx(*records, old(ledger).view(), *accounts, name@, symbol@, uri@, *program_id) {
            Ok(m) => r is Ok && final(ledger).view() == m,
            Err(e) => r == Err::<(), TxError>(e) && final(ledger).view() == old(ledger).view(),
        },
{
    let calls = match update_metadata_account(&records.nft_pda, accounts, name, symbol, uri, program_id) {
        Ok(calls) => calls,
        Err(e) => return Err(TxError::Program(e)),
    };
    run_calls(ledger, &calls)
}

} // verus!
