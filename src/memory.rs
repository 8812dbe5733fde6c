//! An in-memory state handler: storage kept as write logs, which a frame
//! rolls back by cutting them to the length they had when it was pushed.
use vstd::prelude::*;
use vstd::slice::slice_to_vec;
use crate::account::AccountID;
use crate::hypervisor::{Frame, KVStore, PopFrameError, PushFrameError, StateHandler, Transaction, TxState};

verus! {

/// Whether two logged writes have the same effect.
pub open spec fn same_write(a: Option<Vec<u8>>, b: Option<Vec<u8>>) -> bool {
    match (a, b) {
        (Some(v), Some(w)) => v@ == w@,
        (None, None) => true,
        _ => false,
    }
}

/// The entries a write log leaves: a write sets its key, a deletion
/// removes it, and later entries override earlier ones.
pub open spec fn log_entries(log: Seq<(Vec<u8>, Option<Vec<u8>>)>) -> Map<Seq<u8>, Seq<u8>>
    decreases log.len(),
{
    if log.len() == 0 {
        Map::empty()
    } else {
        let m = log_entries(log.drop_last());
        match log.last().1 {
            Some(v) => m.insert(log.last().0@, v@),
            None => m.remove(log.last().0@),
        }
    }
}

/// The storage parameters an initialization log leaves, later entries
/// overriding earlier ones.
pub open spec fn storage_entries(log: Seq<(AccountID, Vec<u8>)>) -> Map<AccountID, Seq<u8>>
    decreases log.len(),
{
    if log.len() == 0 {
        Map::empty()
    } else {
        storage_entries(log.drop_last()).insert(log.last().0, log.last().1@)
    }
}

/// Log entries past index `i` that do not touch `key` leave its entry as
/// the first `i` entries left it.
proof fn lemma_log_suffix(log: Seq<(Vec<u8>, Option<Vec<u8>>)>, i: int, key: Seq<u8>)
    requires
        0 <= i <= log.len(),
        forall|j: int| i <= j < log.len() ==> log[j].0@ != key,
    ensures
        log_entries(log).contains_key(key) == log_entries(log.subrange(0, i)).contains_key(key),
        log_entries(log).contains_key(key) ==> log_entries(log)[key] == log_entries(log.subrange(0, i))[key],
    decreases log.len(),
{
    if log.len() > i {
        lemma_log_suffix(log.drop_last(), i, key);
        assert(log.drop_last().subrange(0, i) =~= log.subrange(0, i));
    } else {
        assert(log.subrange(0, i) =~= log);
    }
}

/// Initialization entries past index `i` for other accounts leave the
/// entry of `account` as the first `i` entries left it.
proof fn lemma_storage_suffix(log: Seq<(AccountID, Vec<u8>)>, i: int, account: AccountID)
    requires
        0 <= i <= log.len(),
        forall|j: int| i <= j < log.len() ==> log[j].0 != account,
    ensures
        storage_entries(log).contains_key(account) == storage_entries(log.subrange(0, i)).contains_key(account),
        storage_entries(log).contains_key(account) ==> storage_entries(log)[account] == storage_entries(
            log.subrange(0, i),
        )[account],
    decreases log.len(),
{
    if log.len() > i {
        lemma_storage_suffix(log.drop_last(), i, account);
        assert(log.drop_last().subrange(0, i) =~= log.subrange(0, i));
    } else {
        assert(log.subrange(0, i) =~= log);
    }
}

/// Logs whose entries agree leave the same entries.
proof fn lemma_log_copy(a: Seq<(Vec<u8>, Option<Vec<u8>>)>, b: Seq<(Vec<u8>, Option<Vec<u8>>)>)
    requires
        a.len() == b.len(),
        forall|j: int| 0 <= j < a.len() ==> a[j].0@ == b[j].0@ && same_write(a[j].1, b[j].1),
    ensures
        log_entries(a) == log_entries(b),
    decreases a.len(),
{
    if a.len() > 0 {
        lemma_log_copy(a.drop_last(), b.drop_last());
    }
}

/// Initialization logs whose entries agree leave the same entries.
proof fn lemma_storage_copy(a: Seq<(AccountID, Vec<u8>)>, b: Seq<(AccountID, Vec<u8>)>)
    requires
        a.len() == b.len(),
        forall|j: int| 0 <= j < a.len() ==> a[j].0 == b[j].0 && a[j].1@ == b[j].1@,
    ensures
        storage_entries(a) == storage_entries(b),
    decreases a.len(),
{
    if a.len() > 0 {
        lemma_storage_copy(a.drop_last(), b.drop_last());
    }
}

/// Whether two byte strings are equal.
fn bytes_eq(a: &[u8], b: &[u8]) -> (r: bool)
    ensures
        r == (a@ == b@),
{
    if a.len() != b.len() {
        return false;
    }
    let mut i: usize = 0;
    while i < a.len()
        invariant
            a@.len() == b@.len(),
            i <= a@.len(),
            forall|j: int| 0 <= j < i ==> a@[j] == b@[j],
        decreases a@.len() - i,
    {
        if a[i] != b[i] {
            return false;
        }
        i = i + 1;
    }
    proof {
        assert(a@ =~= b@);
    }
    true
}

/// A copy of an initialization log.
fn copy_storage(log: &Vec<(AccountID, Vec<u8>)>) -> (r: Vec<(AccountID, Vec<u8>)>)
    ensures
        storage_entries(r@) == storage_entries(log@),
{
    let mut r: Vec<(AccountID, Vec<u8>)> = Vec::new();
    let mut i: usize = 0;
    while i < log.len()
        invariant
            i <= log@.len(),
            r@.len() == i,
            forall|j: int| 0 <= j < i ==> r@[j].0 == log@[j].0 && r@[j].1@ == log@[j].1@,
        decreases log@.len() - i,
    {
        r.push((log[i].0, slice_to_vec(log[i].1.as_slice())));
        i = i + 1;
    }
    proof {
        lemma_storage_copy(r@, log@);
    }
    r
}

/// A key-value store kept as a log of writes.
pub struct MemoryKVStore {
    log: Vec<(Vec<u8>, Option<Vec<u8>>)>,
}

impl MemoryKVStore {
    /// An empty store.
    pub fn new() -> (r: Self)
        ensures
            r.entries() == Map::<Seq<u8>, Seq<u8>>::empty(),
    {
        MemoryKVStore { log: Vec::new() }
    }

    /// A copy of the store.
    fn copy(&self) -> (r: Self)
        ensures
            r.entries() == self.entries(),
    {
        let mut log: Vec<(Vec<u8>, Option<Vec<u8>>)> = Vec::new();
        let mut i: usize = 0;
        while i < self.log.len()
            invariant
                i <= self.log@.len(),
                log@.len() == i,
                forall|j: int| 0 <= j < i ==> log@[j].0@ == self.log@[j].0@ && same_write(log@[j].1, self.log@[j].1),
            decreases self.log@.len() - i,
        {
            let key = slice_to_vec(self.log[i].0.as_slice());
            let value = match &self.log[i].1 {
                Some(v) => Some(slice_to_vec(v.as_slice())),
                None => None,
            };
            log.push((key, value));
            i = i + 1;
        }
        proof {
            lemma_log_copy(log@, self.log@);
        }
        MemoryKVStore { log }
    }
}

impl KVStore for MemoryKVStore {
    closed spec fn entries(&self) -> Map<Seq<u8>, Seq<u8>> {
        log_entries(self.log@)
    }

    fn get(&self, key: &[u8]) -> (r: Option<Vec<u8>>) {
        let mut i: usize = self.log.len();
        while i > 0
            invariant
                i <= self.log@.len(),
                forall|j: int| i <= j < self.log@.len() ==> self.log@[j].0@ != key@,
            decreases i,
        {
            if bytes_eq(self.log[i - 1].0.as_slice(), key) {
                proof {
                    lemma_log_suffix(self.log@, i as int, key@);
                    assert(self.log@.subrange(0, i as int).drop_last() =~= self.log@.subrange(0, i - 1));
                }
                return match &self.log[i - 1].1 {
                    Some(v) => Some(slice_to_vec(v.as_slice())),
                    None => None,
                };
            }
            i = i - 1;
        }
        proof {
            lemma_log_suffix(self.log@, 0, key@);
        }
        None
    }

    fn set(&mut self, key: &[u8], value: &[u8]) {
        self.log.push((slice_to_vec(key), Some(slice_to_vec(value))));
        proof {
            assert(self.log@.drop_last() =~= old(self).log@);
        }
    }

    fn delete(&mut self, key: &[u8]) {
        self.log.push((slice_to_vec(key), None));
        proof {
            assert(self.log@.drop_last() =~= old(self).log@);
        }
    }
}

/// A frame of a memory transaction, with the state to restore if it is
/// rolled back.
struct FrameRecord {
    account: AccountID,
    volatile: bool,
    manager: MemoryKVStore,
    storage: Vec<(AccountID, Vec<u8>)>,
}

/// A transaction over a [`MemoryStateHandler`]'s state.
pub struct MemoryTransaction {
    manager: MemoryKVStore,
    storage: Vec<(AccountID, Vec<u8>)>,
    frames: Vec<FrameRecord>,
}

impl Transaction for MemoryTransaction {
    type KVStore = MemoryKVStore;

    closed spec fn frames(&self) -> Seq<Frame> {
        self.frames@.map_values(|f: FrameRecord| Frame { account: f.account, volatile: f.volatile })
    }

    closed spec fn saved(&self) -> Seq<TxState> {
        self.frames@.map_values(|f: FrameRecord| (f.manager.entries(), storage_entries(f.storage@)))
    }

    closed spec fn manager(&self) -> Map<Seq<u8>, Seq<u8>> {
        self.manager.entries()
    }

    open spec fn accepts_push(frames: Seq<Frame>, frame: Frame) -> bool {
        true
    }

    closed spec fn account_storage(&self) -> Map<AccountID, Seq<u8>> {
        storage_entries(self.storage@)
    }

    fn init_account_storage(&mut self, account: AccountID, storage_params: &[u8]) {
        self.storage.push((account, slice_to_vec(storage_params)));
        proof {
            assert(self.storage@.drop_last() =~= old(self).storage@);
            assert(self.saved() =~= old(self).saved());
        }
    }

    fn push_frame(&mut self, account: AccountID, volatile: bool) -> (r: Result<(), PushFrameError>) {
        let record = FrameRecord {
            account,
            volatile,
            manager: self.manager.copy(),
            storage: copy_storage(&self.storage),
        };
        self.frames.push(record);
        proof {
            assert(self.frames() =~= old(self).frames().push(Frame { account, volatile }));
            assert(self.saved() =~= old(self).saved().push((old(self).manager(), old(self).account_storage())));
        }
        Ok(())
    }

    fn pop_frame(&mut self, commit: bool) -> (r: Result<(), PopFrameError>) {
        match self.frames.pop() {
            None => Err(PopFrameError::NoFrames),
            Some(record) => {
                if !commit {
                    self.manager = record.manager;
                    self.storage = record.storage;
                }
                proof {
                    assert(self.frames() =~= old(self).frames().drop_last());
                    assert(self.saved() =~= old(self).saved().drop_last());
                }
                Ok(())
            },
        }
    }

    fn active_account(&self) -> (r: AccountID) {
        self.frames[self.frames.len() - 1].account
    }

    fn rollback(self) {
    }

    fn manager_state(&mut self) -> (r: &mut MemoryKVStore) {
        &mut self.manager
    }
}

/// State kept in memory: the committed bookkeeping entries and account
/// storage.
pub struct MemoryStateHandler {
    manager: MemoryKVStore,
    storage: Vec<(AccountID, Vec<u8>)>,
}

impl MemoryStateHandler {
    /// A state handler with nothing committed.
    pub fn new() -> (r: Self)
        ensures
            r.committed_manager() == Map::<Seq<u8>, Seq<u8>>::empty(),
            r.committed_storage() == Map::<AccountID, Seq<u8>>::empty(),
    {
        let r = MemoryStateHandler { manager: MemoryKVStore::new(), storage: Vec::new() };
        proof {
            assert(r.committed_storage() =~= Map::<AccountID, Seq<u8>>::empty());
        }
        r
    }

    /// The committed bookkeeping value under `key`.
    pub fn manager_value(&self, key: &[u8]) -> (r: Option<Vec<u8>>)
        ensures
            r.is_some() == self.committed_manager().contains_key(key@),
            r.is_some() ==> r.unwrap()@ == self.committed_manager()[key@],
    {
        self.manager.get(key)
    }

    /// The committed storage parameters of `account`, if it was initialized.
    pub fn storage_params(&self, account: AccountID) -> (r: Option<Vec<u8>>)
        ensures
            r.is_some() == self.committed_storage().contains_key(account),
            r.is_some() ==> r.unwrap()@ == self.committed_storage()[account],
    {
        let mut i: usize = self.storage.len();
        while i > 0
            invariant
                i <= self.storage@.len(),
                forall|j: int| i <= j < self.storage@.len() ==> self.storage@[j].0 != account,
            decreases i,
        {
            if self.storage[i - 1].0 == account {
                proof {
                    lemma_storage_suffix(self.storage@, i as int, account);
                    assert(self.storage@.subrange(0, i as int).drop_last() =~= self.storage@.subrange(0, i - 1));
                }
                return Some(slice_to_vec(self.storage[i - 1].1.as_slice()));
            }
            i = i - 1;
        }
        proof {
            lemma_storage_suffix(self.storage@, 0, account);
        }
        None
    }
}

impl StateHandler for MemoryStateHandler {
    type Tx = MemoryTransaction;

    closed spec fn committed_manager(&self) -> Map<Seq<u8>, Seq<u8>> {
        self.manager.entries()
    }

    closed spec fn committed_storage(&self) -> Map<AccountID, Seq<u8>> {
        storage_entries(self.storage@)
    }

    fn new_transaction(&self) -> (r: MemoryTransaction) {
        let r = MemoryTransaction { manager: self.manager.copy(), storage: copy_storage(&self.storage), frames: Vec::new() };
        proof {
            assert(r.frames() =~= Seq::<Frame>::empty());
            assert(r.saved() =~= Seq::<TxState>::empty());
        }
        r
    }

    fn commit(&mut self, tx: MemoryTransaction) {
        self.manager = tx.manager;
        self.storage = tx.storage;
    }
}

} // verus!
