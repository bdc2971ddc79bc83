//! Properties that hold across the operations and the ledger.

use vstd::prelude::*;
use crate::address::{Address, DerivedAuthority, Namespace, derivation, signer_for};
use crate::calls::CallView;
use crate::error::ErrorCode;
use crate::instructions::{
    edit_check, initialize_spec, metadata_view, mint_calls, mint_collection_calls, mint_collection_spec, mint_spec,
    set_collection_spec, update_metadata_account_spec, valid_token_id,
};
use crate::ledger::{AccountState, LedgerError, apply_spec, in_use, run_spec};
use crate::program::{Records, TxError, mint_collection_tx, mint_tx, set_collection_tx};
use crate::state::{CollectionPda, Initialize, MintCollection, MintNft, NftPda, SetCollection, UpdateMetadataAccount};

verus! {

broadcast use vstd::array::group_array_axioms;

/// No call takes data away from an account.
pub proof fn lemma_apply_keeps_in_use(m: Map<Address, AccountState>, c: CallView, k: Address)
    requires
        apply_spec(m, c) is Ok,
        in_use(m, k),
    ensures
        in_use(apply_spec(m, c)->Ok_0, k),
{
}

/// No run of calls takes data away from an account.
pub proof fn lemma_run_keeps_in_use(m: Map<Address, AccountState>, calls: Seq<CallView>, k: Address)
    requires
        run_spec(m, calls) is Ok,
        in_use(m, k),
    ensures
        in_use(run_spec(m, calls)->Ok_0, k),
    decreases calls.len(),
{
    if calls.len() > 0 {
        lemma_apply_keeps_in_use(m, calls[0], k);
        lemma_run_keeps_in_use(apply_spec(m, calls[0])->Ok_0, calls.drop_first(), k);
    }
}

/// Once a collection token is recorded, `mint_collection` never records
/// another: a call naming another mint fails with `InvalidCollectionMint`
/// once the guards pass, and a call that goes through keeps the record.
pub proof fn lemma_recorded_collection_is_final(
    nft: NftPda,
    collection: CollectionPda,
    a: MintCollection,
    program: Address,
)
    requires
        collection.mint is Some,
    ensures
        mint_collection_spec(nft, collection, a, program) is Ok ==> mint_collection_spec(
            nft,
            collection,
            a,
            program,
        )->Ok_0.0 == collection,
        nft.creator == a.nft_manager && collection.authority == a.nft_pda && collection.mint != Some(a.mint)
            ==> mint_collection_spec(nft, collection, a, program)
            == Err::<(CollectionPda, Seq<CallView>), ErrorCode>(ErrorCode::InvalidCollectionMint),
{
}

/// After a successful collection mint, a second one fails whatever accounts
/// it names; once its checks pass it fails on creating the token class
/// account, which already exists. The failed transaction leaves the records
/// and the ledger as they were, so the collection token stays the first one.
pub proof fn lemma_mint_collection_twice(
    records: Records,
    m: Map<Address, AccountState>,
    first: MintCollection,
    second: MintCollection,
    program: Address,
)
    requires
        mint_collection_tx(records, m, first, program) is Ok,
    ensures
        mint_collection_tx(records, m, first, program)->Ok_0.0.collection_pda.mint == Some(first.mint),
        mint_collection_tx(
            mint_collection_tx(records, m, first, program)->Ok_0.0,
            mint_collection_tx(records, m, first, program)->Ok_0.1,
            second,
            program,
        ) is Err,
        mint_collection_spec(
            mint_collection_tx(records, m, first, program)->Ok_0.0.nft_pda,
            mint_collection_tx(records, m, first, program)->Ok_0.0.collection_pda,
            second,
            program,
        ) is Ok ==> mint_collection_tx(
            mint_collection_tx(records, m, first, program)->Ok_0.0,
            mint_collection_tx(records, m, first, program)->Ok_0.1,
            second,
            program,
        ) == Err::<(Records, Map<Address, AccountState>), TxError>(TxError::Ledger(LedgerError::AlreadyExists)),
{
    let (c, calls) = mint_collection_spec(records.nft_pda, records.collection_pda, first, program)->Ok_0;
    let m1 = run_spec(m, calls)->Ok_0;
    let ma = apply_spec(m, calls[0])->Ok_0;
    assert(run_spec(m, calls) == run_spec(ma, calls.drop_first()));
    assert(in_use(ma, first.mint));
    lemma_run_keeps_in_use(ma, calls.drop_first(), first.mint);
    let r1 = mint_collection_tx(records, m, first, program)->Ok_0.0;
    if mint_collection_spec(r1.nft_pda, r1.collection_pda, second, program) is Ok {
        let calls2 = mint_collection_spec(r1.nft_pda, r1.collection_pda, second, program)->Ok_0.1;
        assert(second.mint == first.mint);
        assert(apply_spec(m1, calls2[0]) == Err::<Map<Address, AccountState>, LedgerError>(LedgerError::AlreadyExists));
    }
}

/// A member token id outside `{1, 2}` is refused before anything else.
pub proof fn lemma_mint_rejects_token_id(
    nft: NftPda,
    collection: crate::state::CollectionPda,
    a: MintNft,
    token_id: u64,
    program: Address,
)
    requires
        !valid_token_id(token_id),
    ensures
        mint_spec(nft, collection, a, token_id, program) == Err::<Seq<CallView>, ErrorCode>(ErrorCode::InvalidTokenId),
{
}

/// A member token id is minted at most once per creator: after a
/// successful mint of `token_id`, a second mint of the same id under the
/// same manager fails, whatever other accounts it names. Once its checks and
/// its payment go through, it fails on creating the token class account,
/// whose address the id and the manager fix.
pub proof fn lemma_mint_once_per_id(
    records: Records,
    m: Map<Address, AccountState>,
    first: MintNft,
    second: MintNft,
    token_id: u64,
    program: Address,
)
    requires
        mint_tx(records, m, first, token_id, program) is Ok,
        second.nft_manager == first.nft_manager,
    ensures
        mint_tx(records, mint_tx(records, m, first, token_id, program)->Ok_0, second, token_id, program) is Err,
        mint_spec(records.nft_pda, records.collection_pda, second, token_id, program) is Ok && apply_spec(
            mint_tx(records, m, first, token_id, program)->Ok_0,
            CallView::Transfer { from: second.payer, to: second.nft_pda, lamports: records.nft_pda.price_lamports },
        ) is Ok ==> mint_tx(records, mint_tx(records, m, first, token_id, program)->Ok_0, second, token_id, program)
            == Err::<Map<Address, AccountState>, TxError>(TxError::Ledger(LedgerError::AlreadyExists)),
{
    let calls = mint_spec(records.nft_pda, records.collection_pda, first, token_id, program)->Ok_0;
    let m1 = run_spec(m, calls)->Ok_0;
    let m0a = apply_spec(m, calls[0])->Ok_0;
    let d1 = calls.drop_first();
    assert(run_spec(m, calls) == run_spec(m0a, d1));
    assert(d1[0] == calls[1]);
    let m0b = apply_spec(m0a, calls[1])->Ok_0;
    assert(run_spec(m0a, d1) == run_spec(m0b, d1.drop_first()));
    assert(in_use(m0b, first.mint));
    lemma_run_keeps_in_use(m0b, d1.drop_first(), first.mint);
    assert(in_use(m1, first.mint));
    if mint_spec(records.nft_pda, records.collection_pda, second, token_id, program) is Ok {
        let calls2 = mint_spec(records.nft_pda, records.collection_pda, second, token_id, program)->Ok_0;
        assert(second.mint =~= first.mint);
        if apply_spec(m1, calls2[0]) is Ok {
            let m1a = apply_spec(m1, calls2[0])->Ok_0;
            lemma_apply_keeps_in_use(m1, calls2[0], first.mint);
            let e1 = calls2.drop_first();
            assert(run_spec(m1, calls2) == run_spec(m1a, e1));
            assert(e1[0] == calls2[1]);
            assert(apply_spec(m1a, e1[0]) == Err::<Map<Address, AccountState>, LedgerError>(LedgerError::AlreadyExists));
            assert(run_spec(m1a, e1) == Err::<Map<Address, AccountState>, LedgerError>(LedgerError::AlreadyExists));
        } else {
            assert(run_spec(m1, calls2) is Err);
        }
    }
}

/// Minting a member against a collection token other than the recorded one
/// fails with `InvalidCollectionMint`.
pub proof fn lemma_mint_rejects_collection_mint(
    nft: NftPda,
    collection: crate::state::CollectionPda,
    a: MintNft,
    token_id: u64,
    program: Address,
)
    requires
        valid_token_id(token_id),
        nft.creator == a.nft_manager,
        collection.mint != Some(a.collection_mint),
    ensures
        mint_spec(nft, collection, a, token_id, program) == Err::<Seq<CallView>, ErrorCode>(ErrorCode::InvalidCollectionMint),
{
}

/// Editing a configuration is refused with `Unauthorized` to anyone but its
/// creator, and allowed to its creator at the creator's derived address.
pub proof fn lemma_edits_need_creator(
    nft: NftPda,
    nft_pda: Address,
    caller: Address,
    metadata: Address,
    name: Seq<char>,
    symbol: Seq<char>,
    uri: Seq<char>,
    program: Address,
)
    ensures
        nft.creator != caller ==> edit_check(nft, nft_pda, caller, program) == Err::<(), ErrorCode>(ErrorCode::Unauthorized),
        nft.creator != caller ==> update_metadata_account_spec(
            nft,
            UpdateMetadataAccount { nft_pda, metadata, nft_manager: caller },
            name,
            symbol,
            uri,
            program,
        ) == Err::<Seq<CallView>, ErrorCode>(ErrorCode::Unauthorized),
        (nft.creator == caller && derivation(Namespace::Nft, caller, program) is Some
            && derivation(Namespace::Nft, caller, program)->Some_0.0 == nft_pda@)
            ==> edit_check(nft, nft_pda, caller, program) is Ok && update_metadata_account_spec(
            nft,
            UpdateMetadataAccount { nft_pda, metadata, nft_manager: caller },
            name,
            symbol,
            uri,
            program,
        ) is Ok,
{
}

/// `set_collection` is idempotent: once it succeeded, the authority record
/// holds data, and running it again makes no call and changes nothing.
pub proof fn lemma_set_collection_idempotent(
    records: Records,
    m: Map<Address, AccountState>,
    a: SetCollection,
    program: Address,
)
    requires
        set_collection_tx(records, m, a, program) is Ok,
    ensures
        in_use(set_collection_tx(records, m, a, program)->Ok_0, a.collection_authority_record),
        set_collection_spec(records.nft_pda, a, true, program) == Ok::<Seq<CallView>, ErrorCode>(Seq::empty()),
        set_collection_tx(records, set_collection_tx(records, m, a, program)->Ok_0, a, program)
            == Ok::<Map<Address, AccountState>, TxError>(set_collection_tx(records, m, a, program)->Ok_0),
{
    let held = in_use(m, a.collection_authority_record);
    let calls = set_collection_spec(records.nft_pda, a, held, program)->Ok_0;
    let m1 = set_collection_tx(records, m, a, program)->Ok_0;
    if !held {
        assert(calls.len() == 1);
        assert(calls.drop_first() =~= Seq::<CallView>::empty());
        assert(run_spec(m, calls) == run_spec(apply_spec(m, calls[0])->Ok_0, calls.drop_first()));
        assert(in_use(m1, a.collection_authority_record));
    } else {
        assert(m1 == m);
    }
    assert(set_collection_spec(records.nft_pda, a, in_use(m1, a.collection_authority_record), program)
        == Ok::<Seq<CallView>, ErrorCode>(Seq::empty()));
    assert(run_spec(m1, Seq::empty()) == Ok::<Map<Address, AccountState>, LedgerError>(m1));
}

/// The records of `manager`'s namespace are bound to their accounts: they
/// sit at the addresses derived for `manager`, their bumps are the derived
/// ones, the configuration belongs to `manager` and the collection record
/// to the configuration.
pub open spec fn bound_records(r: Records, manager: Address, nft_addr: Address, coll_addr: Address, program: Address) -> bool {
    &&& r.nft_pda.creator == manager
    &&& derivation(Namespace::Nft, manager, program) == Some((nft_addr@, r.nft_pda.bump))
    &&& derivation(Namespace::Collection, manager, program) == Some((coll_addr@, r.collection_pda.bump))
    &&& r.collection_pda.authority == nft_addr
}

/// The configuration's signing authority, with its stored bump.
pub open spec fn nft_signer(r: Records, manager: Address, nft_addr: Address) -> DerivedAuthority {
    DerivedAuthority { namespace: Namespace::Nft, owner: manager, address: nft_addr, bump: r.nft_pda.bump }
}

/// The collection record's signing authority, with its stored bump.
pub open spec fn collection_signer(r: Records, manager: Address, coll_addr: Address) -> DerivedAuthority {
    DerivedAuthority { namespace: Namespace::Collection, owner: manager, address: coll_addr, bump: r.collection_pda.bump }
}

/// `initialize` creates bound records.
pub proof fn lemma_initialize_binds(
    a: Initialize,
    name: String,
    symbol: String,
    base_token_uri: String,
    price_lamports: u64,
    program: Address,
)
    requires
        initialize_spec(a, name, symbol, base_token_uri, price_lamports, program) is Ok,
    ensures
        ({
            let (n, c, _) = initialize_spec(a, name, symbol, base_token_uri, price_lamports, program)->Ok_0;
            bound_records(Records { nft_pda: n, collection_pda: c }, a.nft_manager, a.nft_pda, a.collection_pda, program)
        }),
{
}

/// Editing the display fields or the price, or recording the collection
/// token, keeps the records bound.
pub proof fn lemma_edits_keep_binding(
    r: Records,
    manager: Address,
    nft_addr: Address,
    coll_addr: Address,
    name: String,
    symbol: String,
    base_token_uri: String,
    price_lamports: u64,
    mint: Address,
    program: Address,
)
    requires
        bound_records(r, manager, nft_addr, coll_addr, program),
    ensures
        bound_records(
            Records { nft_pda: NftPda { name, symbol, base_token_uri, ..r.nft_pda }, ..r },
            manager,
            nft_addr,
            coll_addr,
            program,
        ),
        bound_records(Records { nft_pda: NftPda { price_lamports, ..r.nft_pda }, ..r }, manager, nft_addr, coll_addr, program),
        bound_records(
            Records { collection_pda: CollectionPda { mint: Some(mint), ..r.collection_pda }, ..r },
            manager,
            nft_addr,
            coll_addr,
            program,
        ),
{
}

/// On bound records, the address checks pass and hand back the stored bumps.
pub proof fn lemma_bound_signers(r: Records, manager: Address, nft_addr: Address, coll_addr: Address, program: Address)
    requires
        bound_records(r, manager, nft_addr, coll_addr, program),
    ensures
        signer_for(nft_addr, Namespace::Nft, manager, program)
            == Ok::<DerivedAuthority, ErrorCode>(nft_signer(r, manager, nft_addr)),
        signer_for(coll_addr, Namespace::Collection, manager, program)
            == Ok::<DerivedAuthority, ErrorCode>(collection_signer(r, manager, coll_addr)),
{
}

/// On bound records, the creator's edits of the configuration succeed.
pub proof fn lemma_bound_edits_succeed(r: Records, manager: Address, nft_addr: Address, coll_addr: Address, program: Address)
    requires
        bound_records(r, manager, nft_addr, coll_addr, program),
    ensures
        edit_check(r.nft_pda, nft_addr, manager, program) == Ok::<(), ErrorCode>(()),
{
}

/// On bound records with no collection token yet, the collection mint
/// succeeds with its full plan, signed with the stored bump.
pub proof fn lemma_bound_mint_collection(r: Records, a: MintCollection, program: Address)
    requires
        bound_records(r, a.nft_manager, a.nft_pda, a.collection_pda, program),
        r.collection_pda.mint is None,
    ensures
        mint_collection_spec(r.nft_pda, r.collection_pda, a, program) == Ok::<(CollectionPda, Seq<CallView>), ErrorCode>((
            CollectionPda { mint: Some(a.mint), ..r.collection_pda },
            mint_collection_calls(r.nft_pda, a, nft_signer(r, a.nft_manager, a.nft_pda)),
        )),
{
}

/// On bound records, a member mint with a valid id, the recorded collection
/// token and the token class at the id's derived address succeeds with its full plan, signed
/// with the stored bumps.
pub proof fn lemma_bound_mint(r: Records, a: MintNft, token_id: u64, program: Address)
    requires
        bound_records(r, a.nft_manager, a.nft_pda, a.collection_pda, program),
        valid_token_id(token_id),
        r.collection_pda.mint == Some(a.collection_mint),
        signer_for(a.mint, Namespace::Member(token_id as u8), a.nft_manager, program) is Ok,
    ensures
        mint_spec(r.nft_pda, r.collection_pda, a, token_id, program) == Ok::<Seq<CallView>, ErrorCode>(mint_calls(
            r.nft_pda,
            a,
            token_id,
            nft_signer(r, a.nft_manager, a.nft_pda),
            collection_signer(r, a.nft_manager, a.collection_pda),
            signer_for(a.mint, Namespace::Member(token_id as u8), a.nft_manager, program)->Ok_0,
        )),
{
}

/// On bound records, `set_collection` makes no call once the authority
/// record holds data.
pub proof fn lemma_bound_set_collection_when_held(r: Records, a: SetCollection, program: Address)
    requires
        bound_records(r, a.nft_manager, a.nft_pda, a.collection_pda, program),
    ensures
        set_collection_spec(r.nft_pda, a, true, program) == Ok::<Seq<CallView>, ErrorCode>(Seq::empty()),
{
}

/// On bound records, the creator's metadata update succeeds, signed with the
/// stored bump.
pub proof fn lemma_bound_update_metadata(
    r: Records,
    a: UpdateMetadataAccount,
    coll_addr: Address,
    name: Seq<char>,
    symbol: Seq<char>,
    uri: Seq<char>,
    program: Address,
)
    requires
        bound_records(r, a.nft_manager, a.nft_pda, coll_addr, program),
    ensures
        update_metadata_account_spec(r.nft_pda, a, name, symbol, uri, program) == Ok::<Seq<CallView>, ErrorCode>(seq![
            CallView::UpdateMetadata {
                metadata: a.metadata,
                update_authority: a.nft_pda,
                data: metadata_view(name, symbol, uri, a.nft_manager),
                is_mutable: Some(true),
                signer: nft_signer(r, a.nft_manager, a.nft_pda),
            },
        ]),
{
}

} // verus!
