//! The hypervisor: routes message packets to virtual machines inside
//! frame-scoped transactions, and creates accounts.
use vstd::prelude::*;
use vstd::bytes::*;
use crate::account::{AccountID, ACCOUNT_ID_NON_RESERVED_START};
use crate::code::{ErrorCode, HandlerErrorCode, SystemErrorCode};
use crate::handler::{declared_params, descriptor_view, parse_handler_id, HandlerDescriptor, parse_handler_id_spec, HandlerID, Vm};
use crate::packet::{MessageHeader, MessagePacket};

verus! {

/// Selector of the system message that creates an account: the 64-bit
/// FNV-1a hash of `ixc.account.v1.create`.
pub const CREATE_SELECTOR: u64 = 5098529999226930867;

/// Selector of the hook run on a newly created account: the 64-bit FNV-1a
/// hash of `ixc.account.v1.on_create`.
pub const ON_CREATE_SELECTOR: u64 = 5894886117336405539;

/// One entry of a transaction's call stack.
#[derive(Clone, Copy, Debug, PartialEq, Eq, Structural)]
pub struct Frame {
    /// The account the frame executes as.
    pub account: AccountID,
    /// Whether the frame is volatile.
    pub volatile: bool,
}

/// A push frame error.
#[non_exhaustive]
#[derive(Clone, Copy, Debug, PartialEq, Eq, Structural)]
pub enum PushFrameError {
    /// The storage's volatility-nesting rule refused the frame.
    VolatileAccessError,
}

/// A pop frame error.
#[non_exhaustive]
#[derive(Clone, Copy, Debug, PartialEq, Eq, Structural)]
pub enum PopFrameError {
    /// No frames to pop.
    NoFrames,
}

/// A key-value store.
pub trait KVStore {
    /// The entries of the store.
    spec fn entries(&self) -> Map<Seq<u8>, Seq<u8>>;

    /// Get a value.
    fn get(&self, key: &[u8]) -> (r: Option<Vec<u8>>)
        ensures
            r.is_some() == self.entries().contains_key(key@),
            r.is_some() ==> r.unwrap()@ == self.entries()[key@],
    ;

    /// Set a value.
    fn set(&mut self, key: &[u8], value: &[u8])
        ensures
            final(self).entries() == old(self).entries().insert(key@, value@),
    ;

    /// Delete a value.
    fn delete(&mut self, key: &[u8])
        ensures
            final(self).entries() == old(self).entries().remove(key@),
    ;
}

/// The bookkeeping entries and account storage a transaction holds.
pub type TxState = (Map<Seq<u8>, Seq<u8>>, Map<AccountID, Seq<u8>>);

/// A transaction: a stack of frames over account storage and over a
/// key-value namespace kept for the hypervisor's own bookkeeping.
pub trait Transaction: Sized {
    /// The key-value store type.
    type KVStore: KVStore;

    /// The frame stack, bottom first.
    spec fn frames(&self) -> Seq<Frame>;

    /// For each frame, the state as it was when the frame was pushed.
    spec fn saved(&self) -> Seq<TxState>;

    /// The entries of the bookkeeping namespace.
    spec fn manager(&self) -> Map<Seq<u8>, Seq<u8>>;

    /// The storage parameters each initialized account was given.
    spec fn account_storage(&self) -> Map<AccountID, Seq<u8>>;

    /// Whether the storage's volatility-nesting rule lets `frame` be pushed
    /// on top of `frames`.
    spec fn accepts_push(frames: Seq<Frame>, frame: Frame) -> bool;

    /// Initialize the account storage.
    fn init_account_storage(&mut self, account: AccountID, storage_params: &[u8])
        ensures
            final(self).frames() == old(self).frames(),
            final(self).saved() == old(self).saved(),
            final(self).manager() == old(self).manager(),
            final(self).account_storage() == old(self).account_storage().insert(account, storage_params@),
    ;

    /// Push a new execution frame, saving the current state for it. A
    /// refused push changes nothing.
    fn push_frame(&mut self, account: AccountID, volatile: bool) -> (r: Result<(), PushFrameError>)
        ensures
            r.is_ok() == Self::accepts_push(old(self).frames(), Frame { account, volatile }),
            final(self).manager() == old(self).manager(),
            final(self).account_storage() == old(self).account_storage(),
            r.is_ok() ==> final(self).frames() == old(self).frames().push(Frame { account, volatile }),
            r.is_ok() ==> final(self).saved() == old(self).saved().push(
                (old(self).manager(), old(self).account_storage()),
            ),
            r.is_err() ==> final(self).frames() == old(self).frames(),
            r.is_err() ==> final(self).saved() == old(self).saved(),
    ;

    /// Pop the current execution frame, keeping its writes if `commit`
    /// holds and otherwise restoring the state saved when it was pushed.
    /// Fails exactly when there are no frames, and then changes nothing.
    fn pop_frame(&mut self, commit: bool) -> (r: Result<(), PopFrameError>)
        ensures
            old(self).frames().len() == 0 ==> {
                &&& r == Err::<(), PopFrameError>(PopFrameError::NoFrames)
                &&& final(self).frames() == old(self).frames()
                &&& final(self).saved() == old(self).saved()
                &&& final(self).manager() == old(self).manager()
                &&& final(self).account_storage() == old(self).account_storage()
            },
            old(self).frames().len() > 0 ==> {
                &&& r.is_ok()
                &&& final(self).frames() == old(self).frames().drop_last()
                &&& final(self).saved() == old(self).saved().drop_last()
            },
            commit ==> final(self).manager() == old(self).manager(),
            commit ==> final(self).account_storage() == old(self).account_storage(),
            !commit && old(self).frames().len() > 0 ==> {
                &&& final(self).manager() == old(self).saved().last().0
                &&& final(self).account_storage() == old(self).saved().last().1
            },
    ;

    /// Get the active account.
    fn active_account(&self) -> (r: AccountID)
        requires
            self.frames().len() > 0,
        ensures
            r == self.frames().last().account,
    ;

    /// Rollback the transaction.
    fn rollback(self);

    /// A mutable kv-store instance for the hypervisor to manage its own state.
    fn manager_state(&mut self) -> (r: &mut Self::KVStore)
        ensures
            r.entries() == old(self).manager(),
            final(self).manager() == final(r).entries(),
            final(self).frames() == old(self).frames(),
            final(self).saved() == old(self).saved(),
            final(self).account_storage() == old(self).account_storage(),
    ;
}

/// The state handler traits the hypervisor expects.
pub trait StateHandler {
    /// The transaction type.
    type Tx: Transaction;

    /// The committed bookkeeping entries.
    spec fn committed_manager(&self) -> Map<Seq<u8>, Seq<u8>>;

    /// The committed storage parameters of each initialized account.
    spec fn committed_storage(&self) -> Map<AccountID, Seq<u8>>;

    /// Create a new transaction over the committed state, with no frames.
    fn new_transaction(&self) -> (r: Self::Tx)
        ensures
            r.frames().len() == 0,
            r.saved().len() == 0,
            r.manager() == self.committed_manager(),
            r.account_storage() == self.committed_storage(),
    ;

    /// Commit a transaction: its state becomes the committed state.
    fn commit(&mut self, tx: Self::Tx)
        ensures
            final(self).committed_manager() == tx.manager(),
            final(self).committed_storage() == tx.account_storage(),
    ;
}

/// The decimal digits of `n` in ASCII, most significant first.
pub open spec fn decimal(n: nat) -> Seq<u8>
    decreases n,
{
    if n < 10 {
        seq![(48 + n) as u8]
    } else {
        decimal(n / 10).push((48 + n % 10) as u8)
    }
}

/// The bookkeeping key under which an account's handler id is stored:
/// `h:` followed by the account id in decimal.
pub open spec fn handler_key_spec(id: u64) -> Seq<u8> {
    seq![104u8, 58u8] + decimal(id as nat)
}

/// The bookkeeping key of the account-id counter: `next_account_id`.
pub open spec fn counter_key_spec() -> Seq<u8> {
    seq![110u8, 101u8, 120u8, 116u8, 95u8, 97u8, 99u8, 99u8, 111u8, 117u8, 110u8, 116u8, 95u8, 105u8, 100u8]
}

/// Equal decimal forms are forms of equal numbers.
proof fn lemma_decimal_injective(n: nat, m: nat)
    requires
        decimal(n) == decimal(m),
    ensures
        n == m,
    decreases n,
{
    if n >= 10 {
        assert(decimal(n / 10).len() >= 1);
        assert(decimal(n).len() == decimal(n / 10).len() + 1);
    } else {
        assert(decimal(n).len() == 1);
    }
    if m >= 10 {
        assert(decimal(m / 10).len() >= 1);
        assert(decimal(m).len() == decimal(m / 10).len() + 1);
    } else {
        assert(decimal(m).len() == 1);
    }
    if n >= 10 && m >= 10 {
        assert(decimal(n / 10) =~= decimal(n).drop_last());
        assert(decimal(m / 10) =~= decimal(m).drop_last());
        assert(decimal(n).last() == decimal(m).last());
        assert(decimal(n).last() == (48 + n % 10) as u8);
        assert(decimal(m).last() == (48 + m % 10) as u8);
        assert(n % 10 == m % 10);
        lemma_decimal_injective(n / 10, m / 10);
        assert(n == 10 * (n / 10) + n % 10);
        assert(m == 10 * (m / 10) + m % 10);
    } else if n < 10 && m < 10 {
        assert(decimal(n)[0] == decimal(m)[0]);
        assert(decimal(n)[0] == (48 + n) as u8);
        assert(decimal(m)[0] == (48 + m) as u8);
        assert(n == m);
    }
}

/// The bookkeeping keys never collide: each account has its own handler
/// key, and no handler key is the counter's key.
pub proof fn lemma_bookkeeping_keys_distinct(a: u64, b: u64)
    ensures
        handler_key_spec(a) != counter_key_spec(),
        (handler_key_spec(a) == handler_key_spec(b)) == (a == b),
{
    assert(handler_key_spec(a)[0] == 104u8);
    assert(counter_key_spec()[0] == 110u8);
    if handler_key_spec(a) == handler_key_spec(b) {
        let ka = handler_key_spec(a);
        let kb = handler_key_spec(b);
        assert(ka.subrange(2, ka.len() as int) =~= decimal(a as nat));
        assert(kb.subrange(2, kb.len() as int) =~= decimal(b as nat));
        lemma_decimal_injective(a as nat, b as nat);
    }
}

/// The id the counter in bookkeeping state `m` hands out next: the start of
/// the non-reserved range when nothing is stored, the stored little-endian
/// value otherwise, and none when the stored value is not eight bytes long.
pub open spec fn counter_value(m: Map<Seq<u8>, Seq<u8>>) -> Option<u64> {
    if !m.contains_key(counter_key_spec()) {
        Some(ACCOUNT_ID_NON_RESERVED_START)
    } else if m[counter_key_spec()].len() == 8 {
        Some(spec_u64_from_le_bytes(m[counter_key_spec()]))
    } else {
        None
    }
}

/// Whether a VM of the given name is registered.
pub open spec fn registered<V>(vms: Seq<(String, V)>, name: Seq<char>) -> bool {
    exists|i: int| 0 <= i < vms.len() && vms[i].0@ == name
}

/// Whether `i` is the first index of `vms` registered under `name`.
pub open spec fn is_first_named<V>(vms: Seq<(String, V)>, name: Seq<char>, i: int) -> bool {
    &&& 0 <= i < vms.len()
    &&& vms[i].0@ == name
    &&& forall|j: int| 0 <= j < i ==> vms[j].0@ != name
}

/// Whether no two registry entries share a name.
pub open spec fn names_unique<V>(s: Seq<(Seq<char>, V)>) -> bool {
    forall|i: int, j: int| 0 <= i < j < s.len() ==> s[i].0 != s[j].0
}

/// The state account creation leaves: the counter advanced past `id`,
/// the handler id recorded under the account's key, and its storage
/// initialized with `params`.
pub open spec fn created_state(st: TxState, id: u64, handler_id: Seq<u8>, params: Seq<u8>) -> TxState {
    (
        st.0.insert(counter_key_spec(), spec_u64_to_le_bytes((id + 1) as u64)).insert(handler_key_spec(id), handler_id),
        st.1.insert(AccountID::spec_new(id), params),
    )
}

/// The handler id bytes a create message names.
pub open spec fn create_id_bytes(p: MessagePacket) -> Seq<u8> {
    p.header.in_pointer1.decode(p)
}

/// Whether the state `fin` is what creating account `id` from `st` leaves,
/// whatever storage parameters the account was given.
pub open spec fn created_from(st: TxState, fin: TxState, id: u64, handler_id: Seq<u8>) -> bool {
    &&& fin.0 == created_state(st, id, handler_id, Seq::empty()).0
    &&& fin.1.contains_key(AccountID::spec_new(id))
    &&& fin.1.remove(AccountID::spec_new(id)) == st.1.remove(AccountID::spec_new(id))
}

/// Whether bookkeeping state `m` holds, for `account`, a handler id whose
/// VM is registered.
pub open spec fn account_resolves<V>(vms: Seq<(String, V)>, m: Map<Seq<u8>, Seq<u8>>, account: AccountID) -> bool {
    let key = handler_key_spec(account.value());
    &&& m.contains_key(key)
    &&& parse_handler_id_spec(m[key]).is_some()
    &&& registered(vms, parse_handler_id_spec(m[key]).unwrap().0)
}

/// Whether two transactions agree on frames, bookkeeping and storage.
pub open spec fn same_state<TX: Transaction>(a: TX, b: TX) -> bool {
    &&& a.frames() == b.frames()
    &&& a.saved() == b.saved()
    &&& a.manager() == b.manager()
    &&& a.account_storage() == b.account_storage()
}

/// Appends the decimal digits of `n` to `out`.
fn push_decimal(out: &mut Vec<u8>, n: u64)
    ensures
        final(out)@ == old(out)@ + decimal(n as nat),
    decreases n,
{
    if n >= 10 {
        push_decimal(out, n / 10);
    }
    out.push((48 + n % 10) as u8);
    proof {
        assert(out@ =~= old(out)@ + decimal(n as nat));
    }
}

/// The bookkeeping key of an account's handler id.
pub fn handler_key(account: AccountID) -> (r: Vec<u8>)
    ensures
        r@ == handler_key_spec(account.value()),
{
    let mut r: Vec<u8> = Vec::new();
    r.push(104u8);
    r.push(58u8);
    push_decimal(&mut r, account.get());
    proof {
        assert(r@ =~= handler_key_spec(account.value()));
    }
    r
}

/// The bookkeeping key of the account-id counter.
pub fn counter_key() -> (r: Vec<u8>)
    ensures
        r@ == counter_key_spec(),
{
    let r: Vec<u8> = vec![110u8, 101u8, 120u8, 116u8, 95u8, 97u8, 99u8, 99u8, 111u8, 117u8, 110u8, 116u8, 95u8, 105u8, 100u8];
    proof {
        assert(r@ =~= counter_key_spec());
    }
    r
}

/// Reads the handler id stored for an account.
fn get_account_handler_id<TX: Transaction>(tx: &mut TX, account: AccountID) -> (r: Option<HandlerID>)
    ensures
        same_state(*old(tx), *final(tx)),
        r.is_some() == (old(tx).manager().contains_key(handler_key_spec(account.value()))
            && parse_handler_id_spec(old(tx).manager()[handler_key_spec(account.value())]).is_some()),
        r.is_some() ==> (r.unwrap().vm@, r.unwrap().vm_handler_id@)
            == parse_handler_id_spec(old(tx).manager()[handler_key_spec(account.value())]).unwrap(),
{
    let key = handler_key(account);
    let kv = tx.manager_state();
    let value = kv.get(key.as_slice());
    match value {
        Some(v) => parse_handler_id(v.as_slice()),
        None => None,
    }
}

/// Takes the next account id from the persisted counter and advances it.
/// Fails, changing nothing, when the stored counter is malformed or spent.
pub fn next_account_id<TX: Transaction>(tx: &mut TX) -> (r: Option<AccountID>)
    ensures
        final(tx).frames() == old(tx).frames(),
        final(tx).saved() == old(tx).saved(),
        final(tx).account_storage() == old(tx).account_storage(),
        match counter_value(old(tx).manager()) {
            Some(id) if id < u64::MAX => {
                &&& r == Some(AccountID::spec_new(id))
                &&& final(tx).manager() == old(tx).manager().insert(counter_key_spec(), spec_u64_to_le_bytes((id + 1) as u64))
            },
            _ => r.is_none() && final(tx).manager() == old(tx).manager(),
        },
{
    let key = counter_key();
    let kv = tx.manager_state();
    let stored = kv.get(key.as_slice());
    let id: u64 = match stored {
        None => ACCOUNT_ID_NON_RESERVED_START,
        Some(v) => {
            if v.len() != 8 {
                return None;
            }
            u64_from_le_bytes(v.as_slice())
        },
    };
    if id == u64::MAX {
        return None;
    }
    let next = u64_to_le_bytes(id + 1);
    kv.set(key.as_slice(), next.as_slice());
    Some(AccountID::new(id))
}

/// Account ids are handed out in sequence: the counter starts at the first
/// non-reserved id, and after it hands out `id` it hands out `id + 1`.
pub proof fn lemma_account_ids_sequential(m: Map<Seq<u8>, Seq<u8>>, id: u64)
    requires
        counter_value(m) == Some(id),
        id < u64::MAX,
    ensures
        counter_value(Map::<Seq<u8>, Seq<u8>>::empty()) == Some(ACCOUNT_ID_NON_RESERVED_START),
        counter_value(m.insert(counter_key_spec(), spec_u64_to_le_bytes((id + 1) as u64))) == Some((id + 1) as u64),
{
    lemma_auto_spec_u64_to_from_le_bytes();
}

/// What creating an account returns once its `on_create` hook has run:
/// a hook the handler does not implement counts as success.
pub fn on_create_outcome(res: Result<(), ErrorCode>) -> (r: Result<(), ErrorCode>)
    ensures
        res == Err::<(), ErrorCode>(ErrorCode::HandlerSystemError(HandlerErrorCode::MessageNotHandled)) ==> r == Ok::<(), ErrorCode>(()),
        res != Err::<(), ErrorCode>(ErrorCode::HandlerSystemError(HandlerErrorCode::MessageNotHandled)) ==> r == res,
{
    match res {
        Err(ErrorCode::HandlerSystemError(HandlerErrorCode::MessageNotHandled)) => Ok(()),
        _ => res,
    }
}

/// Whether the identifier `b` names a handler of a registered VM.
pub open spec fn create_target_resolves<V>(vms: Seq<(String, V)>, b: Seq<u8>) -> bool {
    &&& parse_handler_id_spec(b).is_some()
    &&& registered(vms, parse_handler_id_spec(b).unwrap().0)
}

/// The index of the VM registered under `name`.
fn find_vm<V>(vms: &Vec<(String, V)>, name: &String) -> (r: Option<usize>)
    ensures
        r.is_some() == registered(vms@, name@),
        r.is_some() ==> is_first_named(vms@, name@, r.unwrap() as int),
{
    let mut i: usize = 0;
    while i < vms.len()
        invariant
            i <= vms@.len(),
            forall|j: int| 0 <= j < i ==> vms@[j].0@ != name@,
        decreases vms@.len() - i,
    {
        if vms[i].0.eq(name) {
            return Some(i);
        }
        i = i + 1;
    }
    None
}

/// Creates an account backed by the handler `handler_id` names: takes the
/// next account id, records the handler id under the account's key,
/// initializes its storage with `storage_params`, and builds the packet for
/// its `on_create` hook, whose first input is `init_data`. Fails, changing
/// nothing, when no account id can be taken.
pub fn create_account<TX: Transaction>(
    tx: &mut TX,
    handler_id: &[u8],
    storage_params: &[u8],
    init_data: &[u8],
) -> (r: Option<(AccountID, MessagePacket)>)
    requires
        init_data@.len() <= u32::MAX,
    ensures
        final(tx).frames() == old(tx).frames(),
        final(tx).saved() == old(tx).saved(),
        match counter_value(old(tx).manager()) {
            Some(id) if id < u64::MAX => {
                &&& r.is_some()
                &&& r.unwrap().0 == AccountID::spec_new(id)
                &&& final(tx).manager() == old(tx).manager().insert(
                    counter_key_spec(),
                    spec_u64_to_le_bytes((id + 1) as u64),
                ).insert(handler_key_spec(id), handler_id@)
                &&& final(tx).account_storage() == old(tx).account_storage().insert(
                    AccountID::spec_new(id),
                    storage_params@,
                )
                &&& r.unwrap().1.header.message_selector == ON_CREATE_SELECTOR
                &&& r.unwrap().1.header.in_pointer1.decode(r.unwrap().1) == init_data@
            },
            _ => r.is_none() && same_state(*old(tx), *final(tx)),
        },
{
    let id = match next_account_id(tx) {
        Some(id) => id,
        None => return None,
    };
    let key = handler_key(id);
    let kv = tx.manager_state();
    kv.set(key.as_slice(), handler_id);
    tx.init_account_storage(id, storage_params);
    let mut header = MessageHeader::default();
    header.message_selector = ON_CREATE_SELECTOR;
    let mut native: Vec<Vec<u8>> = Vec::new();
    header.in_pointer1.set_slice(&mut native, init_data);
    let packet = MessagePacket::new(header, Vec::new(), native);
    proof {
        crate::data_pointer::lemma_external_round_trip(packet, 0, init_data@);
    }
    Some((id, packet))
}

/// The storage parameters a new account is initialized with, from the
/// descriptor its VM gave: none is a `HandlerNotFound` error; a handler
/// that declares no parameters gets empty ones.
pub fn descriptor_params(desc: Option<HandlerDescriptor>) -> (r: Result<Vec<u8>, ErrorCode>)
    ensures
        desc.is_none() ==> r == Err::<Vec<u8>, ErrorCode>(ErrorCode::RuntimeSystemError(SystemErrorCode::HandlerNotFound)),
        desc.is_some() ==> r.is_ok() && r.unwrap()@ == declared_params(descriptor_view(desc).unwrap()),
{
    match desc {
        Some(d) => match d.storage_params {
            Some(p) => Ok(p),
            None => Ok(Vec::new()),
        },
        None => Err(ErrorCode::RuntimeSystemError(SystemErrorCode::HandlerNotFound)),
    }
}

/// Pushes the frame a handler runs in. A push the storage refuses is an
/// `InvalidHandler` error and changes nothing.
pub fn enter_frame<TX: Transaction>(tx: &mut TX, account: AccountID, volatile: bool) -> (r: Result<(), ErrorCode>)
    ensures
        r.is_ok() == TX::accepts_push(old(tx).frames(), Frame { account, volatile }),
        r.is_err() ==> r == Err::<(), ErrorCode>(ErrorCode::RuntimeSystemError(SystemErrorCode::InvalidHandler)),
        r.is_err() ==> same_state(*old(tx), *final(tx)),
        r.is_ok() ==> final(tx).frames() == old(tx).frames().push(Frame { account, volatile }),
        r.is_ok() ==> final(tx).saved() == old(tx).saved().push((old(tx).manager(), old(tx).account_storage())),
        final(tx).manager() == old(tx).manager(),
        final(tx).account_storage() == old(tx).account_storage(),
{
    match tx.push_frame(account, volatile) {
        Ok(()) => Ok(()),
        Err(_) => Err(ErrorCode::RuntimeSystemError(SystemErrorCode::InvalidHandler)),
    }
}

/// Pops the frame a handler ran in, keeping its writes if the handler's
/// result `res` is a success and restoring the state saved at its push
/// otherwise, and hands `res` on.
pub fn leave_frame<TX: Transaction>(tx: &mut TX, res: Result<(), ErrorCode>) -> (r: Result<(), ErrorCode>)
    requires
        old(tx).frames().len() > 0,
    ensures
        r == res,
        final(tx).frames() == old(tx).frames().drop_last(),
        final(tx).saved() == old(tx).saved().drop_last(),
        res.is_ok() ==> final(tx).manager() == old(tx).manager(),
        res.is_ok() ==> final(tx).account_storage() == old(tx).account_storage(),
        res.is_err() ==> final(tx).manager() == old(tx).saved().last().0,
        res.is_err() ==> final(tx).account_storage() == old(tx).saved().last().1,
{
    match tx.pop_frame(res.is_ok()) {
        Ok(()) => res,
        Err(_) => Err(ErrorCode::RuntimeSystemError(SystemErrorCode::FatalExecutionError)),
    }
}

/// The context one top-level invocation runs in: the registered VMs and
/// the transaction, which every nested call reaches through this context.
pub struct ExecContext<'a, V, TX> {
    vms: &'a Vec<(String, V)>,
    tx: TX,
}

impl<'a, V, TX: Transaction> ExecContext<'a, V, TX> {
    /// The transaction the context runs in.
    pub closed spec fn transaction(&self) -> TX {
        self.tx
    }

    /// The registered VMs.
    pub closed spec fn vms_view(&self) -> Seq<(String, V)> {
        self.vms@
    }

    /// The frame stack of the transaction.
    pub open spec fn frame_stack(&self) -> Seq<Frame> {
        self.transaction().frames()
    }

    /// The states saved for the frames of the transaction.
    pub open spec fn saved_states(&self) -> Seq<TxState> {
        self.transaction().saved()
    }
}

impl<'a, V: Vm, TX: Transaction> ExecContext<'a, V, TX> {
    /// Allocates a zeroed buffer of `len` bytes from the ambient allocator,
    /// with no quota or per-frame accounting.
    pub fn allocate(&self, len: usize) -> (r: Vec<u8>)
        ensures
            r@ == Seq::new(len as nat, |i: int| 0u8),
    {
        let mut r: Vec<u8> = Vec::new();
        let mut i: usize = 0;
        while i < len
            invariant
                i <= len,
                r@ == Seq::new(i as nat, |j: int| 0u8),
            decreases len - i,
        {
            r.push(0u8);
            i = i + 1;
            proof {
                assert(r@ =~= Seq::new(i as nat, |j: int| 0u8));
            }
        }
        r
    }

    /// Handles a message addressed to the null account. The one message
    /// known is account creation: the packet's first input names the
    /// handler (`vm:handler`), its second is handed to the new account's
    /// `on_create` hook, which runs in a volatile frame for that account.
    fn handle_system_message(&mut self, message_packet: &mut MessagePacket) -> (r: Result<(), ErrorCode>)
        requires
            old(self).tx.frames().len() > 0,
        ensures
            final(self).vms@ == old(self).vms@,
            final(self).tx.frames() == old(self).tx.frames(),
            final(self).tx.saved() == old(self).tx.saved(),
            old(message_packet).header.message_selector != CREATE_SELECTOR ==> {
                &&& r == Err::<(), ErrorCode>(ErrorCode::RuntimeSystemError(SystemErrorCode::HandlerNotFound))
                &&& same_state(old(self).tx, final(self).tx)
            },
            old(message_packet).header.message_selector == CREATE_SELECTOR ==> {
                let p = *old(message_packet);
                let vms = old(self).vms@;
                let st = (old(self).tx.manager(), old(self).tx.account_storage());
                let fin = (final(self).tx.manager(), final(self).tx.account_storage());
                &&& !create_target_resolves(vms, create_id_bytes(p)) ==> {
                    &&& r == Err::<(), ErrorCode>(ErrorCode::RuntimeSystemError(SystemErrorCode::HandlerNotFound))
                    &&& same_state(old(self).tx, final(self).tx)
                }
                &&& create_target_resolves(vms, create_id_bytes(p)) ==> match counter_value(st.0) {
                    Some(id) if id < u64::MAX => {
                        &&& !TX::accepts_push(old(self).tx.frames(), Frame { account: AccountID::spec_new(id), volatile: true }) ==> r
                            == Err::<(), ErrorCode>(ErrorCode::RuntimeSystemError(SystemErrorCode::HandlerNotFound)) || r == Err::<(), ErrorCode>(ErrorCode::RuntimeSystemError(SystemErrorCode::InvalidHandler))
                        &&& r.is_err() ==> (r == Err::<(), ErrorCode>(ErrorCode::RuntimeSystemError(SystemErrorCode::HandlerNotFound)) && same_state(old(self).tx, final(self).tx))
                            || created_from(st, fin, id, create_id_bytes(p))
                    },
                    _ => {
                        &&& r == Err::<(), ErrorCode>(ErrorCode::RuntimeSystemError(SystemErrorCode::HandlerNotFound)) || r == Err::<(), ErrorCode>(ErrorCode::RuntimeSystemError(SystemErrorCode::FatalExecutionError))
                        &&& same_state(old(self).tx, final(self).tx)
                    },
                }
            },
    {
        if message_packet.header.message_selector != CREATE_SELECTOR {
            return Err(ErrorCode::RuntimeSystemError(SystemErrorCode::HandlerNotFound));
        }
        let handler_id_bytes = message_packet.header.in_pointer1.get(message_packet);
        let init_data = message_packet.header.in_pointer2.get(message_packet);
        let handler_id = match parse_handler_id(handler_id_bytes) {
            Some(h) => h,
            None => return Err(ErrorCode::RuntimeSystemError(SystemErrorCode::HandlerNotFound)),
        };
        let vms = self.vms;
        let idx = match find_vm(vms, &handler_id.vm) {
            Some(i) => i,
            None => return Err(ErrorCode::RuntimeSystemError(SystemErrorCode::HandlerNotFound)),
        };
        let vm = &vms[idx].1;
        let storage_params = match descriptor_params(vm.describe_handler(handler_id.vm_handler_id.as_str())) {
            Ok(p) => p,
            Err(e) => return Err(e),
        };
        let (id, mut on_create_packet) = match create_account(
            &mut self.tx,
            handler_id_bytes,
            storage_params.as_slice(),
            init_data,
        ) {
            Some(c) => c,
            None => return Err(ErrorCode::RuntimeSystemError(SystemErrorCode::FatalExecutionError)),
        };
        let ghost created = self.tx.account_storage();
        proof {
            let k = AccountID::spec_new(id.value());
            assert(created.remove(k) =~= old(self).tx.account_storage().remove(k));
        }
        match enter_frame(&mut self.tx, id, true) {
            Ok(()) => {},
            Err(e) => return Err(e),
        }
        let res = vm.run_handler(handler_id.vm_handler_id.as_str(), &mut on_create_packet, self);
        let res = leave_frame(&mut self.tx, res);
        on_create_outcome(res)
    }

    #[verifier::spinoff_prover]
    #[verifier::rlimit(50)]
    /// Invokes a message: checks that its sender is the active account,
    /// then hands it to the system handler or to the target account's VM
    /// inside a non-volatile frame for that account. A failed call to an
    /// account leaves the transaction as it was.
    pub fn invoke(&mut self, message_packet: &mut MessagePacket) -> (r: Result<(), ErrorCode>)
        requires
            old(self).frame_stack().len() > 0,
        ensures
            final(self).vms_view() == old(self).vms_view(),
            final(self).frame_stack() == old(self).frame_stack(),
            final(self).saved_states() == old(self).saved_states(),
            old(message_packet).header.sender_account != old(self).frame_stack().last().account ==> {
                &&& r == Err::<(), ErrorCode>(ErrorCode::RuntimeSystemError(SystemErrorCode::UnauthorizedCallerAccess))
                &&& same_state(old(self).transaction(), final(self).transaction())
            },
            old(message_packet).header.sender_account == old(self).frame_stack().last().account
                && old(message_packet).header.account.value() == 0 ==> {
                let p = *old(message_packet);
                let vms = old(self).vms_view();
                let st = (old(self).transaction().manager(), old(self).transaction().account_storage());
                let fin = (final(self).transaction().manager(), final(self).transaction().account_storage());
                &&& p.header.message_selector != CREATE_SELECTOR ==> {
                    &&& r == Err::<(), ErrorCode>(ErrorCode::RuntimeSystemError(SystemErrorCode::HandlerNotFound))
                    &&& same_state(old(self).transaction(), final(self).transaction())
                }
                &&& p.header.message_selector == CREATE_SELECTOR ==> {
                    &&& !create_target_resolves(vms, create_id_bytes(p)) ==> {
                        &&& r == Err::<(), ErrorCode>(ErrorCode::RuntimeSystemError(SystemErrorCode::HandlerNotFound))
                        &&& same_state(old(self).transaction(), final(self).transaction())
                    }
                    &&& create_target_resolves(vms, create_id_bytes(p)) ==> match counter_value(st.0) {
                        Some(id) if id < u64::MAX => {
                            &&& !TX::accepts_push(old(self).frame_stack(), Frame { account: AccountID::spec_new(id), volatile: true }) ==> r
                                == Err::<(), ErrorCode>(ErrorCode::RuntimeSystemError(SystemErrorCode::HandlerNotFound)) || r == Err::<(), ErrorCode>(ErrorCode::RuntimeSystemError(SystemErrorCode::InvalidHandler))
                            &&& r.is_err() ==> (r == Err::<(), ErrorCode>(ErrorCode::RuntimeSystemError(SystemErrorCode::HandlerNotFound)) && same_state(old(self).transaction(), final(self).transaction()))
                                || created_from(st, fin, id, create_id_bytes(p))
                        },
                        _ => {
                            &&& r == Err::<(), ErrorCode>(ErrorCode::RuntimeSystemError(SystemErrorCode::HandlerNotFound)) || r == Err::<(), ErrorCode>(ErrorCode::RuntimeSystemError(SystemErrorCode::FatalExecutionError))
                            &&& same_state(old(self).transaction(), final(self).transaction())
                        },
                    }
                }
            },
            old(message_packet).header.sender_account == old(self).frame_stack().last().account
                && old(message_packet).header.account.value() != 0 ==> {
                let target = old(message_packet).header.account;
                &&& !account_resolves(old(self).vms_view(), old(self).transaction().manager(), target) ==> {
                    &&& r == Err::<(), ErrorCode>(ErrorCode::RuntimeSystemError(SystemErrorCode::HandlerNotFound))
                    &&& same_state(old(self).transaction(), final(self).transaction())
                }
                &&& account_resolves(old(self).vms_view(), old(self).transaction().manager(), target)
                    && !TX::accepts_push(old(self).frame_stack(), Frame { account: target, volatile: false }) ==> {
                    &&& r == Err::<(), ErrorCode>(ErrorCode::RuntimeSystemError(SystemErrorCode::InvalidHandler))
                    &&& same_state(old(self).transaction(), final(self).transaction())
                }
                &&& r.is_err() ==> same_state(old(self).transaction(), final(self).transaction())
            },
    {
        let account = self.tx.active_account();
        if message_packet.header.sender_account != account {
            return Err(ErrorCode::RuntimeSystemError(SystemErrorCode::UnauthorizedCallerAccess));
        }
        let target = message_packet.header.account;
        if target.is_null() {
            return self.handle_system_message(message_packet);
        }
        let handler_id = match get_account_handler_id(&mut self.tx, target) {
            Some(h) => h,
            None => return Err(ErrorCode::RuntimeSystemError(SystemErrorCode::HandlerNotFound)),
        };
        let vms = self.vms;
        let idx = match find_vm(vms, &handler_id.vm) {
            Some(i) => i,
            None => return Err(ErrorCode::RuntimeSystemError(SystemErrorCode::HandlerNotFound)),
        };
        let vm = &vms[idx].1;
        enter_frame(&mut self.tx, target, false)?;
        let res = vm.run_handler(handler_id.vm_handler_id.as_str(), message_packet, self);
        leave_frame(&mut self.tx, res)
    }
}

/// The hypervisor: a registry of VMs and the state handler whose
/// transactions every top-level invocation runs in.
pub struct Hypervisor<ST: StateHandler, V: Vm> {
    vms: Vec<(String, V)>,
    state_handler: ST,
}

impl<ST: StateHandler, V: Vm> Hypervisor<ST, V> {
    /// The registered VMs, by name, in order of registration.
    pub closed spec fn registry(&self) -> Seq<(Seq<char>, V)> {
        self.vms@.map_values(|e: (String, V)| (e.0@, e.1))
    }

    /// The registered VMs with their names as strings.
    pub closed spec fn vm_entries(&self) -> Seq<(String, V)> {
        self.vms@
    }

    /// The state handler.
    pub closed spec fn state(&self) -> ST {
        self.state_handler
    }

    /// Create a new hypervisor with the given state handler.
    pub fn new(state_handler: ST) -> (r: Self)
        ensures
            r.registry() == Seq::<(Seq<char>, V)>::empty(),
            names_unique(r.registry()),
            r.state() == state_handler,
    {
        let r = Hypervisor { vms: Vec::new(), state_handler };
        proof {
            assert(r.registry() =~= Seq::<(Seq<char>, V)>::empty());
        }
        r
    }

    /// The state handler.
    pub fn state_handler(&self) -> (r: &ST)
        ensures
            *r == self.state(),
    {
        &self.state_handler
    }

    /// Register a VM with the hypervisor, replacing one of the same name.
    /// The registry is only reachable mutably while no invocation runs, so
    /// registration always succeeds.
    pub fn register_vm(&mut self, name: &str, vm: V) -> (r: Result<(), ()>)
        requires
            names_unique(old(self).registry()),
        ensures
            r == Ok::<(), ()>(()),
            names_unique(final(self).registry()),
            final(self).state() == old(self).state(),
            (exists|i: int|
                0 <= i < old(self).registry().len() && old(self).registry()[i].0 == name@
                    && final(self).registry() == old(self).registry().update(i, (name@, vm)))
                || ((forall|i: int| 0 <= i < old(self).registry().len() ==> old(self).registry()[i].0 != name@)
                    && final(self).registry() == old(self).registry().push((name@, vm))),
    {
        let owned = name.to_owned();
        match find_vm(&self.vms, &owned) {
            Some(i) => {
                self.vms.set(i, (owned, vm));
                proof {
                    assert(self.registry() =~= old(self).registry().update(i as int, (name@, vm)));
                    assert forall|j: int, k: int| 0 <= j < k < self.registry().len() implies self.registry()[j].0
                        != self.registry()[k].0 by {
                        assert(self.registry()[j].0 == old(self).registry()[j].0);
                        assert(self.registry()[k].0 == old(self).registry()[k].0);
                    }
                }
            },
            None => {
                self.vms.push((owned, vm));
                proof {
                    assert(self.registry() =~= old(self).registry().push((name@, vm)));
                    assert forall|j: int, k: int| 0 <= j < k < self.registry().len() implies self.registry()[j].0
                        != self.registry()[k].0 by {
                        if k == old(self).registry().len() {
                            assert(old(self).vms@[j].0@ != name@);
                        }
                    }
                }
            },
        }
        Ok(())
    }

    /// Opens a transaction over the committed state and pushes its root
    /// frame: the sender's, non-volatile. A refused push is an
    /// `InvalidHandler` error.
    pub fn begin_transaction(&self, sender: AccountID) -> (r: Result<ST::Tx, ErrorCode>)
        ensures
            r.is_ok() == <ST::Tx as Transaction>::accepts_push(
                Seq::empty(),
                Frame { account: sender, volatile: false },
            ),
            match r {
                Ok(tx) => {
                    &&& tx.frames() == Seq::<Frame>::empty().push(Frame { account: sender, volatile: false })
                    &&& tx.saved().len() == 1
                    &&& tx.manager() == self.state().committed_manager()
                    &&& tx.account_storage() == self.state().committed_storage()
                },
                Err(e) => e == ErrorCode::RuntimeSystemError(SystemErrorCode::InvalidHandler),
            },
    {
        let mut tx = self.state_handler.new_transaction();
        proof {
            assert(tx.frames() =~= Seq::<Frame>::empty());
        }
        match enter_frame(&mut tx, sender, false) {
            Ok(()) => {
                proof {
                    assert(tx.frames() =~= Seq::<Frame>::empty().push(Frame { account: sender, volatile: false }));
                }
                Ok(tx)
            },
            Err(e) => {
                tx.rollback();
                Err(e)
            },
        }
    }

    /// Concludes a transaction with the dispatcher's result `res`: commits
    /// it on success, rolls it back otherwise, and hands `res` on.
    pub fn conclude(&mut self, tx: ST::Tx, res: Result<(), ErrorCode>) -> (r: Result<(), ErrorCode>)
        ensures
            r == res,
            final(self).registry() == old(self).registry(),
            final(self).vm_entries() == old(self).vm_entries(),
            res.is_ok() ==> final(self).state().committed_manager() == tx.manager(),
            res.is_ok() ==> final(self).state().committed_storage() == tx.account_storage(),
            res.is_err() ==> final(self).state() == old(self).state(),
    {
        if res.is_ok() {
            self.state_handler.commit(tx);
        } else {
            tx.rollback();
        }
        res
    }

    /// Invoke a message packet in a new transaction whose root frame is the
    /// sender's, committed if the invocation succeeds and rolled back
    /// otherwise.
    pub fn invoke(&mut self, message_packet: &mut MessagePacket) -> (r: Result<(), ErrorCode>)
        ensures
            final(self).registry() == old(self).registry(),
            final(self).vm_entries() == old(self).vm_entries(),
            r.is_err() ==> final(self).state() == old(self).state(),
            ({
                let p = *old(message_packet);
                let root = Frame { account: p.header.sender_account, volatile: false };
                let vms = old(self).vm_entries();
                let cm = old(self).state().committed_manager();
                let stack = Seq::<Frame>::empty().push(root);
                &&& !<ST::Tx as Transaction>::accepts_push(Seq::empty(), root) ==> r
                    == Err::<(), ErrorCode>(ErrorCode::RuntimeSystemError(SystemErrorCode::InvalidHandler))
                &&& <ST::Tx as Transaction>::accepts_push(Seq::empty(), root) && p.header.account.value() == 0 ==> {
                    &&& p.header.message_selector != CREATE_SELECTOR || !create_target_resolves(vms, create_id_bytes(p))
                        ==> r == Err::<(), ErrorCode>(ErrorCode::RuntimeSystemError(SystemErrorCode::HandlerNotFound))
                    &&& p.header.message_selector == CREATE_SELECTOR && create_target_resolves(vms, create_id_bytes(p))
                        ==> match counter_value(cm) {
                        Some(id) if id < u64::MAX => !<ST::Tx as Transaction>::accepts_push(
                            stack,
                            Frame { account: AccountID::spec_new(id), volatile: true },
                        ) ==> r == Err::<(), ErrorCode>(ErrorCode::RuntimeSystemError(SystemErrorCode::HandlerNotFound)) || r == Err::<(), ErrorCode>(ErrorCode::RuntimeSystemError(SystemErrorCode::InvalidHandler)),
                        _ => r == Err::<(), ErrorCode>(ErrorCode::RuntimeSystemError(SystemErrorCode::HandlerNotFound)) || r == Err::<(), ErrorCode>(ErrorCode::RuntimeSystemError(SystemErrorCode::FatalExecutionError)),
                    }
                }
                &&& <ST::Tx as Transaction>::accepts_push(Seq::empty(), root) && p.header.account.value() != 0 ==> {
                    &&& !account_resolves(vms, cm, p.header.account) ==> r
                        == Err::<(), ErrorCode>(ErrorCode::RuntimeSystemError(SystemErrorCode::HandlerNotFound))
                    &&& account_resolves(vms, cm, p.header.account) && !<ST::Tx as Transaction>::accepts_push(
                        stack,
                        Frame { account: p.header.account, volatile: false },
                    ) ==> r == Err::<(), ErrorCode>(ErrorCode::RuntimeSystemError(SystemErrorCode::InvalidHandler))
                }
            }),
    {
        let sender = message_packet.header.sender_account;
        let tx = match self.begin_transaction(sender) {
            Ok(tx) => tx,
            Err(e) => return Err(e),
        };
        let mut exec_context = ExecContext { vms: &self.vms, tx };
        let res = exec_context.invoke(message_packet);
        let tx = exec_context.tx;
        self.conclude(tx, res)
    }
}

} // verus!
