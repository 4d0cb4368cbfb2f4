//! The block-pinned state cache: what is known of the chain at one block,
//! filled on first use and never changed after.

use crate::account::{outcome_view, AccountInfo, AccountInfoView, AccountLoad, AccountLoadView};
use crate::primitives::{H160, H256, U256};
use crate::provider::{FetchError, Provider, Request};
use crate::table::{
    as_map, distinct_keys, has_key, lemma_as_map_at, lemma_as_map_empty, lemma_as_map_push,
};
use crate::text::{data_text, quantity_text};
use vstd::prelude::*;

verus! {

/// How far behind the head of the chain the cache pins its block.
pub const SAFETY_MARGIN: u64 = 5;

/// A lookup that the cache could not serve from the remote endpoint, and for
/// which it gave the default value instead.
#[derive(Clone, Copy, Debug, PartialEq, Eq)]
pub struct Failure {
    pub address: H160,
    pub index: Option<U256>,
    pub error: FetchError,
}

/// A failure as mathematical values.
pub struct FailureView {
    pub address: Seq<u8>,
    pub index: Option<nat>,
    pub error: FetchError,
}

impl View for Failure {
    type V = FailureView;

    open spec fn view(&self) -> FailureView {
        FailureView {
            address: self.address@,
            index: match self.index {
                Some(index) => Some(index@),
                None => None,
            },
            error: self.error,
        }
    }
}

/// The cache as mathematical values: the pinned block, what is known of
/// accounts and storage slots, and the failures met so far, oldest first.
pub struct StateView {
    pub block: nat,
    pub accounts: Map<Seq<u8>, AccountInfoView>,
    pub storage: Map<(Seq<u8>, nat), nat>,
    pub failures: Seq<FailureView>,
}

/// The value that enters the cache for an account: what was loaded, or the
/// empty record where the load failed.
pub open spec fn account_or_default(
    loaded: Result<AccountInfoView, FetchError>,
) -> AccountInfoView {
    match loaded {
        Ok(info) => info,
        Err(_) => AccountInfoView::empty(),
    }
}

/// The value that enters the cache for a storage slot: what was fetched, or
/// zero where the fetch failed.
pub open spec fn slot_or_default(fetched: Result<nat, FetchError>) -> nat {
    match fetched {
        Ok(value) => value,
        Err(_) => 0,
    }
}

/// The view of the outcome of a storage fetch.
pub open spec fn fetched_view(fetched: Result<U256, FetchError>) -> Result<nat, FetchError> {
    match fetched {
        Ok(value) => Ok(value@),
        Err(error) => Err(error),
    }
}

impl StateView {
    /// The empty cache pinned at a block.
    pub open spec fn pinned(block: nat) -> StateView {
        StateView { block, accounts: Map::empty(), storage: Map::empty(), failures: Seq::empty() }
    }

    /// The cache after the outcome of a load arrives for an account. The
    /// first value to arrive for an address stays; a failed load enters the
    /// empty record and is noted.
    pub open spec fn fill_account(
        self,
        address: Seq<u8>,
        loaded: Result<AccountInfoView, FetchError>,
    ) -> StateView {
        if self.accounts.contains_key(address) {
            self
        } else {
            StateView {
                accounts: self.accounts.insert(address, account_or_default(loaded)),
                failures: match loaded {
                    Ok(_) => self.failures,
                    Err(error) => self.failures.push(FailureView { address, index: None, error }),
                },
                ..self
            }
        }
    }

    /// The cache after the outcome of a fetch arrives for a storage slot.
    /// The first value to arrive for a slot stays; a failed fetch enters
    /// zero and is noted.
    pub open spec fn fill_storage(
        self,
        address: Seq<u8>,
        index: nat,
        fetched: Result<nat, FetchError>,
    ) -> StateView {
        if self.storage.contains_key((address, index)) {
            self
        } else {
            StateView {
                storage: self.storage.insert((address, index), slot_or_default(fetched)),
                failures: match fetched {
                    Ok(_) => self.failures,
                    Err(error) => self.failures.push(
                        FailureView { address, index: Some(index), error },
                    ),
                },
                ..self
            }
        }
    }
}

/// What the cache says of an account: the record it holds, or the load to
/// run where it holds none.
#[derive(Debug, PartialEq, Eq)]
pub enum AccountLookup {
    Hit(AccountInfo),
    Miss(AccountLoad),
}

/// What the cache says of a storage slot: the value it holds, or the query
/// to send where it holds none.
#[derive(Debug, PartialEq, Eq)]
pub enum StorageLookup {
    Hit(U256),
    Miss(Request),
}

/// A lookup that this cache does not serve.
#[derive(Clone, Copy, Debug, PartialEq, Eq, Structural)]
pub enum Unsupported {
    /// Code was asked for by its hash.
    CodeByHash,
    /// The hash of a block was asked for.
    BlockHash,
}

impl Unsupported {
    /// The message shown when the operation is given up.
    pub fn message(&self) -> (r: &'static str)
        ensures
            r@ == match *self {
                Unsupported::CodeByHash => "code lookup by hash is not supported"@,
                Unsupported::BlockHash => "block hash lookup is not supported"@,
            },
    {
        match self {
            Unsupported::CodeByHash => "code lookup by hash is not supported",
            Unsupported::BlockHash => "block hash lookup is not supported",
        }
    }
}

#[derive(Debug)]
struct AccountEntry {
    address: H160,
    info: AccountInfo,
}

#[derive(Debug)]
struct StorageEntry {
    address: H160,
    index: U256,
    value: U256,
}

#[derive(Debug)]
struct Cache {
    block: U256,
    accounts: Vec<AccountEntry>,
    storage: Vec<StorageEntry>,
}

/// The state of the chain at one pinned block, filled from the remote
/// endpoint on first use and never changed after.
#[derive(Debug)]
pub struct State {
    provider: Provider,
    cache: Cache,
    failures: Vec<Failure>,
}

spec fn account_pairs(entries: Seq<AccountEntry>) -> Seq<(Seq<u8>, AccountInfoView)> {
    Seq::new(entries.len(), |i: int| (entries[i].address@, entries[i].info@))
}

spec fn storage_pairs(entries: Seq<StorageEntry>) -> Seq<((Seq<u8>, nat), nat)> {
    Seq::new(entries.len(), |i: int| ((entries[i].address@, entries[i].index@), entries[i].value@))
}

spec fn failure_views(failures: Seq<Failure>) -> Seq<FailureView> {
    Seq::new(failures.len(), |i: int| failures[i]@)
}

impl View for State {
    type V = StateView;

    closed spec fn view(&self) -> StateView {
        StateView {
            block: self.cache.block@,
            accounts: as_map(account_pairs(self.cache.accounts@)),
            storage: as_map(storage_pairs(self.cache.storage@)),
            failures: failure_views(self.failures@),
        }
    }
}

impl State {
    #[verifier::type_invariant]
    spec fn well_formed(&self) -> bool {
        &&& distinct_keys(account_pairs(self.cache.accounts@))
        &&& distinct_keys(storage_pairs(self.cache.storage@))
    }

    /// The endpoint that this cache is filled from.
    pub closed spec fn endpoint(&self) -> Provider {
        self.provider
    }

    /// The block to pin for a chain whose head is at `head`: the safety
    /// margin behind it, or `None` where the chain is shorter than that.
    pub fn pinned_block(head: U256) -> (r: Option<U256>)
        ensures
            match r {
                Some(block) => head@ >= SAFETY_MARGIN && block@ == head@ - SAFETY_MARGIN,
                None => head@ < SAFETY_MARGIN,
            },
    {
        head.checked_sub(U256::from_u64(SAFETY_MARGIN))
    }

    /// An empty cache for a chain whose head is at `head`, pinned the safety
    /// margin behind it.
    pub fn new(provider: Provider, head: U256) -> (r: State)
        requires
            head@ >= SAFETY_MARGIN,
        ensures
            r@ == StateView::pinned((head@ - SAFETY_MARGIN) as nat),
            r.endpoint() == provider,
    {
        let block = State::pinned_block(head).unwrap();
        proof {
            lemma_as_map_empty::<Seq<u8>, AccountInfoView>();
            lemma_as_map_empty::<(Seq<u8>, nat), nat>();
        }
        let r = State {
            provider,
            cache: Cache { block, accounts: Vec::new(), storage: Vec::new() },
            failures: Vec::new(),
        };
        assert(account_pairs(r.cache.accounts@) =~= Seq::empty());
        assert(storage_pairs(r.cache.storage@) =~= Seq::empty());
        assert(failure_views(r.failures@) =~= Seq::empty());
        r
    }

    /// The endpoint that this cache is filled from.
    pub fn provider(&self) -> (r: &Provider)
        ensures
            *r == self.endpoint(),
    {
        &self.provider
    }

    /// The pinned block.
    pub fn block(&self) -> (r: U256)
        ensures
            r@ == self@.block,
    {
        self.cache.block
    }

    /// The failures met so far, oldest first.
    pub fn failures(&self) -> (r: &Vec<Failure>)
        ensures
            r@.len() == self@.failures.len(),
            forall|i: int| 0 <= i < r@.len() ==> (#[trigger] r@[i])@ == self@.failures[i],
    {
        &self.failures
    }

    /// Adds a failure to the end of the list.
    fn note(&mut self, failure: Failure)
        ensures
            final(self)@ == (StateView {
                failures: old(self)@.failures.push(failure@),
                ..old(self)@
            }),
            final(self).endpoint() == old(self).endpoint(),
            final(self).cache == old(self).cache,
    {
        proof {
            use_type_invariant(&*self);
        }
        let ghost before = failure_views(self.failures@);
        // The list is taken out while it grows and put back whole.
        let mut failures: Vec<Failure> = Vec::new();
        core::mem::swap(&mut self.failures, &mut failures);
        failures.push(failure);
        assert(failure_views(failures@) =~= before.push(failure@));
        self.failures = failures;
    }

    /// Where the account stands in the table, if it does.
    fn find_account(&self, address: &H160) -> (r: Option<usize>)
        ensures
            match r {
                Some(i) => i < self.cache.accounts@.len() && self.cache.accounts@[i as int].address@
                    == address@,
                None => !has_key(account_pairs(self.cache.accounts@), address@),
            },
    {
        let mut i: usize = 0;
        while i < self.cache.accounts.len()
            invariant
                i <= self.cache.accounts@.len(),
                forall|j: int| 0 <= j < i ==> self.cache.accounts@[j].address@ != address@,
            decreases self.cache.accounts@.len() - i,
        {
            if self.cache.accounts[i].address.same(address) {
                return Some(i);
            }
            i += 1;
        }
        assert forall|j: int| 0 <= j < account_pairs(self.cache.accounts@).len() implies (
        #[trigger] account_pairs(self.cache.accounts@)[j]).0 != address@ by {
            assert(self.cache.accounts@[j].address@ != address@);
        }
        None
    }

    /// Where the storage slot stands in the table, if it does.
    fn find_storage(&self, address: &H160, index: &U256) -> (r: Option<usize>)
        ensures
            match r {
                Some(i) => i < self.cache.storage@.len() && self.cache.storage@[i as int].address@
                    == address@ && self.cache.storage@[i as int].index@ == index@,
                None => !has_key(storage_pairs(self.cache.storage@), (address@, index@)),
            },
    {
        let mut i: usize = 0;
        while i < self.cache.storage.len()
            invariant
                i <= self.cache.storage@.len(),
                forall|j: int|
                    0 <= j < i ==> !(self.cache.storage@[j].address@ == address@
                        && self.cache.storage@[j].index@ == index@),
            decreases self.cache.storage@.len() - i,
        {
            if self.cache.storage[i].address.same(address) && self.cache.storage[i].index.same(
                index,
            ) {
                return Some(i);
            }
            i += 1;
        }
        assert forall|j: int| 0 <= j < storage_pairs(self.cache.storage@).len() implies (
        #[trigger] storage_pairs(self.cache.storage@)[j]).0 != (address@, index@) by {
            assert(!(self.cache.storage@[j].address@ == address@ && self.cache.storage@[j].index@
                == index@));
        }
        None
    }

    /// Looks an account up. A cached record is handed out as it is; for an
    /// account not yet seen the answer is the load to run, at the pinned
    /// block. The cache itself does not change.
    pub fn basic(&self, address: H160) -> (r: AccountLookup)
        ensures
            match r {
                AccountLookup::Hit(info) => self@.accounts.contains_key(address@) && info@
                    == self@.accounts[address@],
                AccountLookup::Miss(load) => !self@.accounts.contains_key(address@) && load@
                    == AccountLoadView::start(address@, self@.block),
            },
    {
        proof {
            use_type_invariant(self);
        }
        match self.find_account(&address) {
            Some(i) => {
                proof {
                    lemma_as_map_at(account_pairs(self.cache.accounts@), i as int);
                }
                AccountLookup::Hit(self.cache.accounts[i].info.clone())
            },
            None => AccountLookup::Miss(AccountLoad::new(address, self.cache.block)),
        }
    }

    /// Looks a storage slot up. A cached value is handed out as it is; for a
    /// slot not yet seen the answer is the query to send, at the pinned
    /// block. The cache itself does not change.
    pub fn storage(&self, address: H160, index: U256) -> (r: StorageLookup)
        ensures
            match r {
                StorageLookup::Hit(value) => self@.storage.contains_key((address@, index@))
                    && value@ == self@.storage[(address@, index@)],
                StorageLookup::Miss(request) => !self@.storage.contains_key((address@, index@))
                    && request@ == self.endpoint().request(
                    "eth_getStorageAt"@,
                    seq![data_text(address@), quantity_text(index@), quantity_text(self@.block)],
                ),
            },
    {
        proof {
            use_type_invariant(self);
        }
        match self.find_storage(&address, &index) {
            Some(i) => {
                proof {
                    lemma_as_map_at(storage_pairs(self.cache.storage@), i as int);
                }
                StorageLookup::Hit(self.cache.storage[i].value)
            },
            None => StorageLookup::Miss(
                self.provider.get_storage_at(address, index, self.cache.block),
            ),
        }
    }

    /// Takes the outcome of the load that `basic` asked for, and answers the
    /// lookup. A record that is already cached stays and is the answer; else
    /// the loaded record enters the cache, or the empty record where the
    /// load failed, and the failure is noted.
    pub fn fill_basic(&mut self, address: H160, loaded: Result<AccountInfo, FetchError>) -> (r:
        AccountInfo)
        ensures
            final(self)@ == old(self)@.fill_account(address@, outcome_view(loaded)),
            final(self).endpoint() == old(self).endpoint(),
            r@ == final(self)@.accounts[address@],
    {
        proof {
            use_type_invariant(&*self);
        }
        match self.find_account(&address) {
            Some(i) => {
                proof {
                    lemma_as_map_at(account_pairs(self.cache.accounts@), i as int);
                }
                self.cache.accounts[i].info.clone()
            },
            None => {
                let ghost before = account_pairs(self.cache.accounts@);
                let info = match loaded {
                    Ok(info) => info,
                    Err(error) => {
                        self.note(Failure { address, index: None, error });
                        AccountInfo::default()
                    },
                };
                let answer = info.clone();
                // The table is taken out while it grows and put back whole,
                // so that the cache has distinct keys at every step.
                let mut accounts: Vec<AccountEntry> = Vec::new();
                core::mem::swap(&mut self.cache.accounts, &mut accounts);
                accounts.push(AccountEntry { address, info });
                proof {
                    lemma_as_map_push(before, address@, answer@);
                    assert(account_pairs(accounts@) =~= before.push((address@, answer@)));
                }
                self.cache.accounts = accounts;
                answer
            },
        }
    }

    /// Takes the outcome of the query that `storage` asked for, and answers
    /// the lookup. A value that is already cached stays and is the answer;
    /// else the fetched value enters the cache, or zero where the fetch
    /// failed, and the failure is noted.
    pub fn fill_storage(
        &mut self,
        address: H160,
        index: U256,
        fetched: Result<U256, FetchError>,
    ) -> (r: U256)
        ensures
            final(self)@ == old(self)@.fill_storage(address@, index@, fetched_view(fetched)),
            final(self).endpoint() == old(self).endpoint(),
            r@ == final(self)@.storage[(address@, index@)],
    {
        proof {
            use_type_invariant(&*self);
        }
        match self.find_storage(&address, &index) {
            Some(i) => {
                proof {
                    lemma_as_map_at(storage_pairs(self.cache.storage@), i as int);
                }
                self.cache.storage[i].value
            },
            None => {
                let ghost before = storage_pairs(self.cache.storage@);
                let value = match fetched {
                    Ok(value) => value,
                    Err(error) => {
                        self.note(Failure { address, index: Some(index), error });
                        U256::zero()
                    },
                };
                // As for accounts: out, one entry more, and back.
                let mut storage: Vec<StorageEntry> = Vec::new();
                core::mem::swap(&mut self.cache.storage, &mut storage);
                storage.push(StorageEntry { address, index, value });
                proof {
                    lemma_as_map_push(before, (address@, index@), value@);
                    assert(storage_pairs(storage@) =~= before.push(((address@, index@), value@)));
                }
                self.cache.storage = storage;
                value
            },
        }
    }

    /// Code is never looked up by its hash here: the answer is always the
    /// error, and the cache does not change.
    pub fn code_by_hash(&mut self, code_hash: H256) -> (r: Result<Vec<u8>, Unsupported>)
        ensures
            r == Err::<Vec<u8>, Unsupported>(Unsupported::CodeByHash),
            *final(self) == *old(self),
    {
        Err(Unsupported::CodeByHash)
    }

    /// Block hashes are never looked up here: the answer is always the
    /// error, and the cache does not change.
    pub fn block_hash(&mut self, number: U256) -> (r: Result<H256, Unsupported>)
        ensures
            r == Err::<H256, Unsupported>(Unsupported::BlockHash),
            *final(self) == *old(self),
    {
        Err(Unsupported::BlockHash)
    }
}

} // verus!
