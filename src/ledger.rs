//! A model of what the token ledger and the metadata registry promise at
//! their interface: which accounts hold data, how many lamports each holds,
//! and which calls fail on them. Plans run against it all or nothing.

use vstd::prelude::*;
use crate::address::{Address, same_address};
use crate::calls::{Call, CallView, calls_view};

verus! {

/// A failure reported by the ledger or the registry.
#[derive(Debug, Clone, Copy, PartialEq, Eq, Structural)]
pub enum LedgerError {
    /// The account to create already holds data or lamports.
    AlreadyExists,
    /// The payer holds fewer lamports than asked.
    InsufficientFunds,
    /// An account that the call reads was never created.
    MissingAccount,
    /// A balance would exceed the largest lamport amount.
    LamportOverflow,
}

/// What the ledger holds for one account.
#[derive(Debug, Clone, Copy, PartialEq, Eq, Structural)]
pub struct AccountState {
    pub lamports: u64,
    pub holds_data: bool,
}

/// The state of `k` in `m`; an account never touched is empty.
pub open spec fn state_of(m: Map<Address, AccountState>, k: Address) -> AccountState {
    if m.contains_key(k) {
        m[k]
    } else {
        AccountState { lamports: 0, holds_data: false }
    }
}

/// Whether `k` holds data in `m`.
pub open spec fn in_use(m: Map<Address, AccountState>, k: Address) -> bool {
    state_of(m, k).holds_data
}

/// `m` with `k` holding data, its lamports kept.
pub open spec fn create(m: Map<Address, AccountState>, k: Address) -> Map<Address, AccountState> {
    m.insert(k, AccountState { lamports: state_of(m, k).lamports, holds_data: true })
}

/// Creates `k`, unless it already holds data.
pub open spec fn create_new(m: Map<Address, AccountState>, k: Address) -> Result<Map<Address, AccountState>, LedgerError> {
    if in_use(m, k) {
        Err(LedgerError::AlreadyExists)
    } else {
        Ok(create(m, k))
    }
}

/// The effect of one call on the ledger.
pub open spec fn apply_spec(m: Map<Address, AccountState>, c: CallView) -> Result<Map<Address, AccountState>, LedgerError> {
    match c {
        CallView::CreateRecord { account, .. } => create_new(m, account),
        CallView::CreateAccount { payer, account, lamports, .. } => {
            if in_use(m, account) || state_of(m, account).lamports > 0 {
                Err(LedgerError::AlreadyExists)
            } else if state_of(m, payer).lamports < lamports {
                Err(LedgerError::InsufficientFunds)
            } else {
                let m1 = m.insert(
                    payer,
                    AccountState { lamports: (state_of(m, payer).lamports - lamports) as u64, ..state_of(m, payer) },
                );
                Ok(m1.insert(account, AccountState { lamports, holds_data: true }))
            }
        },
        CallView::InitializeMint { mint, .. } => {
            if in_use(m, mint) { Ok(m) } else { Err(LedgerError::MissingAccount) }
        },
        CallView::CreateAssociatedAccount { account, .. } => create_new(m, account),
        CallView::MintTo { mint, destination, .. } => {
            if in_use(m, mint) && in_use(m, destination) { Ok(m) } else { Err(LedgerError::MissingAccount) }
        },
        CallView::Transfer { from, to, lamports } => {
            if state_of(m, from).lamports < lamports {
                Err(LedgerError::InsufficientFunds)
            } else {
                let m1 = m.insert(
                    from,
                    AccountState { lamports: (state_of(m, from).lamports - lamports) as u64, ..state_of(m, from) },
                );
                if state_of(m1, to).lamports + lamports > u64::MAX {
                    Err(LedgerError::LamportOverflow)
                } else {
                    Ok(m1.insert(to, AccountState { lamports: (state_of(m1, to).lamports + lamports) as u64, ..state_of(m1, to) }))
                }
            }
        },
        CallView::CreateMetadata { metadata, .. } => create_new(m, metadata),
        CallView::CreateMasterEdition { edition, metadata, .. } => {
            if in_use(m, edition) {
                Err(LedgerError::AlreadyExists)
            } else if !in_use(m, metadata) {
                Err(LedgerError::MissingAccount)
            } else {
                Ok(create(m, edition))
            }
        },
        CallView::UpdateMetadata { metadata, .. } => {
            if in_use(m, metadata) { Ok(m) } else { Err(LedgerError::MissingAccount) }
        },
        CallView::ApproveCollectionAuthority { record, metadata, .. } => {
            if in_use(m, record) {
                Err(LedgerError::AlreadyExists)
            } else if !in_use(m, metadata) {
                Err(LedgerError::MissingAccount)
            } else {
                Ok(create(m, record))
            }
        },
        CallView::SetAndVerifySizedCollectionItem { metadata, collection_metadata, .. } => {
            if in_use(m, metadata) && in_use(m, collection_metadata) {
                Ok(m)
            } else {
                Err(LedgerError::MissingAccount)
            }
        },
    }
}

/// The effect of running `calls` in order: the first failure is the
/// result, and nothing of the run is kept.
pub open spec fn run_spec(m: Map<Address, AccountState>, calls: Seq<CallView>) -> Result<Map<Address, AccountState>, LedgerError>
    decreases calls.len(),
{
    if calls.len() == 0 {
        Ok(m)
    } else {
        match apply_spec(m, calls[0]) {
            Err(e) => Err(e),
            Ok(m1) => run_spec(m1, calls.drop_first()),
        }
    }
}

/// One account of the ledger.
#[derive(Debug, Clone, Copy)]
pub struct LedgerAccount {
    pub address: Address,
    pub state: AccountState,
}

/// The ledger: each account that was ever touched, once.
pub struct Ledger {
    accounts: Vec<LedgerAccount>,
    model: Ghost<Map<Address, AccountState>>,
}

impl Ledger {
    /// The accounts the ledger holds, by address.
    pub closed spec fn view(&self) -> Map<Address, AccountState> {
        self.model@
    }

    /// The accounts are listed once each, and agree with the view.
    pub closed spec fn wf(&self) -> bool {
        &&& forall|i: int| 0 <= i < self.accounts@.len() ==>
            #[trigger] self.model@.contains_key(self.accounts@[i].address)
            && self.model@[self.accounts@[i].address] == self.accounts@[i].state
        &&& forall|k: Address| self.model@.contains_key(k) ==>
            exists|i: int| 0 <= i < self.accounts@.len() && #[trigger] self.accounts@[i].address == k
        &&& forall|i: int, j: int| 0 <= i < j < self.accounts@.len() ==>
            self.accounts@[i].address != self.accounts@[j].address
    }

    /// An empty ledger.
    pub fn new() -> (r: Ledger)
        ensures
            r.wf(),
            r.view() == Map::<Address, AccountState>::empty(),
    {
        Ledger { accounts: Vec::new(), model: Ghost(Map::empty()) }
    }

    fn find(&self, k: &Address) -> (r: Option<usize>)
        requires
            self.wf(),
        ensures
            match r {
                Some(i) => i < self.accounts@.len() && self.accounts@[i as int].address == *k,
                None => !self.view().contains_key(*k),
            },
    {
        let mut i: usize = 0;
        while i < self.accounts.len()
            invariant
                self.wf(),
                i <= self.accounts@.len(),
                forall|j: int| 0 <= j < i ==> self.accounts@[j].address != *k,
            decreases self.accounts@.len() - i,
        {
            if same_address(&self.accounts[i].address, k) {
                return Some(i);
            }
            i = i + 1;
        }
        None
    }

    /// What the ledger holds for `k`.
    pub fn state(&self, k: &Address) -> (r: AccountState)
        requires
            self.wf(),
        ensures
            r == state_of(self.view(), *k),
    {
        match self.find(k) {
            Some(i) => self.accounts[i].state,
            None => AccountState { lamports: 0, holds_data: false },
        }
    }

    /// Whether `k` holds data.
    pub fn holds_data(&self, k: &Address) -> (r: bool)
        requires
            self.wf(),
        ensures
            r == in_use(self.view(), *k),
    {
        self.state(k).holds_data
    }

    fn put(&mut self, k: &Address, st: AccountState)
        requires
            old(self).wf(),
        ensures
            final(self).wf(),
            final(self).view() == old(self).view().insert(*k, st),
    {
        match self.find(k) {
            Some(i) => {
                self.accounts.set(i, LedgerAccount { address: *k, state: st });
                self.model = Ghost(self.model@.insert(*k, st));
                assert forall|j: int| 0 <= j < self.accounts@.len() implies
                    #[trigger] self.model@.contains_key(self.accounts@[j].address)
                    && self.model@[self.accounts@[j].address] == self.accounts@[j].state by {
                    if j != i {
                        assert(old(self).accounts@[j].address != *k);
                    }
                }
                assert forall|k2: Address| self.model@.contains_key(k2) implies
                    exists|j: int| 0 <= j < self.accounts@.len() && #[trigger] self.accounts@[j].address == k2 by {
                    if k2 != *k {
                        let j = choose|j: int| 0 <= j < old(self).accounts@.len() && #[trigger] old(self).accounts@[j].address == k2;
                        assert(self.accounts@[j].address == k2);
                    } else {
                        assert(self.accounts@[i as int].address == k2);
                    }
                }
            },
            None => {
                self.accounts.push(LedgerAccount { address: *k, state: st });
                self.model = Ghost(self.model@.insert(*k, st));
                assert forall|j: int| 0 <= j < old(self).accounts@.len() implies
                    self.accounts@[j].address != *k by {
                    assert(old(self).model@.contains_key(old(self).accounts@[j].address));
                }
                assert forall|j: int| 0 <= j < self.accounts@.len() implies
                    #[trigger] self.model@.contains_key(self.accounts@[j].address)
                    && self.model@[self.accounts@[j].address] == self.accounts@[j].state by {
                    if j < old(self).accounts@.len() {
                        assert(old(self).model@.contains_key(old(self).accounts@[j].address));
                    }
                }
                assert forall|k2: Address| self.model@.contains_key(k2) implies
                    exists|j: int| 0 <= j < self.accounts@.len() && #[trigger] self.accounts@[j].address == k2 by {
                    if k2 != *k {
                        let j = choose|j: int| 0 <= j < old(self).accounts@.len() && #[trigger] old(self).accounts@[j].address == k2;
                        assert(self.accounts@[j].address == k2);
                    } else {
                        assert(self.accounts@[old(self).accounts@.len() as int].address == k2);
                    }
                }
            },
        }
    }

    /// Credits `lamports` to `k`.
    pub fn deposit(&mut self, k: &Address, lamports: u64) -> (r: Result<(), LedgerError>)
        requires
            old(self).wf(),
        ensures
            final(self).wf(),
            state_of(old(self).view(), *k).lamports + lamports > u64::MAX ==>
                r == Err::<(), LedgerError>(LedgerError::LamportOverflow) && final(self).view() == old(self).view(),
            state_of(old(self).view(), *k).lamports + lamports <= u64::MAX ==> r is Ok
                && final(self).view() == old(self).view().insert(*k, AccountState {
                    lamports: (state_of(old(self).view(), *k).lamports + lamports) as u64,
                    ..state_of(old(self).view(), *k)
                }),
    {
        let st = self.state(k);
        if st.lamports > u64::MAX - lamports {
            return Err(LedgerError::LamportOverflow);
        }
        self.put(k, AccountState { lamports: st.lamports + lamports, ..st });
        Ok(())
    }

    fn create_new(&mut self, k: &Address) -> (r: Result<(), LedgerError>)
        requires
            old(self).wf(),
        ensures
            final(self).wf(),
            match create_new(old(self).view(), *k) {
                Ok(m) => r is Ok && final(self).view() == m,
                Err(e) => r == Err::<(), LedgerError>(e),
            },
    {
        let st = self.state(k);
        if st.holds_data {
            return Err(LedgerError::AlreadyExists);
        }
        self.put(k, AccountState { lamports: st.lamports, holds_data: true });
        Ok(())
    }

    fn require_in_use(&self, k: &Address) -> (r: Result<(), LedgerError>)
        requires
            self.wf(),
        ensures
            r == (if in_use(self.view(), *k) { Ok(()) } else { Err(LedgerError::MissingAccount) }),
    {
        if self.holds_data(k) {
            Ok(())
        } else {
            Err(LedgerError::MissingAccount)
        }
    }

    /// Applies one call.
    pub fn apply(&mut self, call: &Call) -> (r: Result<(), LedgerError>)
        requires
            old(self).wf(),
        ensures
            final(self).wf(),
            match apply_spec(old(self).view(), call@) {
                Ok(m) => r is Ok && final(self).view() == m,
                Err(e) => r == Err::<(), LedgerError>(e),
            },
    {
        match call {
            Call::CreateRecord { account, .. } => self.create_new(account),
            Call::CreateAccount { payer, account, lamports, .. } => {
                let target = self.state(account);
                if target.holds_data || target.lamports > 0 {
                    return Err(LedgerError::AlreadyExists);
                }
                let from = self.state(payer);
                if from.lamports < *lamports {
                    return Err(LedgerError::InsufficientFunds);
                }
                self.put(payer, AccountState { lamports: from.lamports - *lamports, ..from });
                self.put(account, AccountState { lamports: *lamports, holds_data: true });
                Ok(())
            },
            Call::InitializeMint { mint, .. } => self.require_in_use(mint),
            Call::CreateAssociatedAccount { account, .. } => self.create_new(account),
            Call::MintTo { mint, destination, .. } => {
                self.require_in_use(mint)?;
                self.require_in_use(destination)
            },
            Call::Transfer { from, to, lamports } => {
                let source = self.state(from);
                if source.lamports < *lamports {
                    return Err(LedgerError::InsufficientFunds);
                }
                self.put(from, AccountState { lamports: source.lamports - *lamports, ..source });
                let target = self.state(to);
                if target.lamports > u64::MAX - *lamports {
                    return Err(LedgerError::LamportOverflow);
                }
                self.put(to, AccountState { lamports: target.lamports + *lamports, ..target });
                Ok(())
            },
            Call::CreateMetadata { metadata, .. } => self.create_new(metadata),
            Call::CreateMasterEdition { edition, metadata, .. } => {
                if self.holds_data(edition) {
                    return Err(LedgerError::AlreadyExists);
                }
                self.require_in_use(metadata)?;
                self.create_new(edition)
            },
            Call::UpdateMetadata { metadata, .. } => self.require_in_use(metadata),
            Call::ApproveCollectionAuthority { record, metadata, .. } => {
                if self.holds_data(record) {
                    return Err(LedgerError::AlreadyExists);
                }
                self.require_in_use(metadata)?;
                self.create_new(record)
            },
            Call::SetAndVerifySizedCollectionItem { metadata, collection_metadata, .. } => {
                self.require_in_use(metadata)?;
                self.require_in_use(collection_metadata)
            },
        }
    }

    fn snapshot(&self) -> (r: Ledger)
        requires
            self.wf(),
        ensures
            r.wf(),
            r.view() == self.view(),
    {
        let mut accounts: Vec<LedgerAccount> = Vec::new();
        let mut i: usize = 0;
        while i < self.accounts.len()
            invariant
                self.wf(),
                i <= self.accounts@.len(),
                accounts@ == self.accounts@.subrange(0, i as int),
            decreases self.accounts@.len() - i,
        {
            accounts.push(self.accounts[i]);
            i = i + 1;
        }
        assert(accounts@ =~= self.accounts@);
        let r = Ledger { accounts, model: Ghost(self.model@) };
        assert(r.accounts@ == self.accounts@);
        assert forall|k: Address| r.model@.contains_key(k) implies
            exists|j: int| 0 <= j < r.accounts@.len() && #[trigger] r.accounts@[j].address == k by {
            let j = choose|j: int| 0 <= j < self.accounts@.len() && #[trigger] self.accounts@[j].address == k;
            assert(r.accounts@[j].address == k);
        }
        r
    }

    /// Runs `calls` in order, all or nothing: on the first failure the
    /// ledger is left as it was.
    pub fn execute(&mut self, calls: &Vec<Call>) -> (r: Result<(), LedgerError>)
        requires
            old(self).wf(),
        ensures
            final(self).wf(),
            match run_spec(old(self).view(), calls_view(calls@)) {
                Ok(m) => r is Ok && final(self).view() == m,
                Err(e) => r == Err::<(), LedgerError>(e) && final(self).view() == old(self).view(),
            },
    {
        let ghost cv = calls_view(calls@);
        let mut work = self.snapshot();
        let mut i: usize = 0;
        assert(cv.skip(0) =~= cv);
        while i < calls.len()
            invariant
                work.wf(),
                self.wf(),
                self.view() == old(self).view(),
                i <= calls@.len(),
                cv == calls_view(calls@),
                run_spec(self.view(), cv) == run_spec(work.view(), cv.skip(i as int)),
            decreases calls@.len() - i,
        {
            assert(cv.skip(i as int)[0] == calls@[i as int]@);
            assert(cv.skip(i as int).drop_first() =~= cv.skip(i + 1));
            match work.apply(&calls[i]) {
                Err(e) => return Err(e),
                Ok(()) => {},
            }
            i = i + 1;
        }
        assert(cv.skip(i as int) =~= Seq::<CallView>::empty());
        *self = work;
        Ok(())
    }
}

} // verus!
