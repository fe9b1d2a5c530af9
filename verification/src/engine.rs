//! An engine that keeps its stores in memory.
//!
//! It answers every call as [`crate::model::EngineState::step`] says, so it
//! can stand behind the access layer wherever the native engine is not at
//! hand, and it counts the handles that are open.

use vstd::prelude::*;
use vstd::slice::slice_to_vec;
use crate::call::{Call, Datum, Kind, Payload, Reply, Value};
use crate::codes::{LogSeverity, ModeFlags};
use crate::model::{is_free_slot, live_count, EngineState, Session, StoreState};

verus! {

/// One key of a store and what it holds.
struct Entry {
    key: Vec<u8>,
    value: Value,
}

/// The keys of `entries` are all different.
spec fn distinct_keys(entries: Seq<Entry>) -> bool {
    forall|i: int, j: int| 0 <= i < j < entries.len() ==> entries[i].key@ != entries[j].key@
}

/// `key` is the key of one of `entries`.
spec fn has_key(entries: Seq<Entry>, key: Seq<u8>) -> bool {
    exists|i: int| 0 <= i < entries.len() && entries[i].key@ == key
}

/// The map from each key of `entries` to what it holds.
spec fn entries_map(entries: Seq<Entry>) -> Map<Seq<u8>, Datum> {
    Map::new(
        |key: Seq<u8>| has_key(entries, key),
        |key: Seq<u8>|
            entries[choose|i: int| 0 <= i < entries.len() && entries[i].key@ == key].value@,
    )
}

/// Where the keys are all different, the map holds for each entry its key
/// with its value.
proof fn lemma_entry_in_map(entries: Seq<Entry>, i: int)
    requires
        distinct_keys(entries),
        0 <= i < entries.len(),
    ensures
        entries_map(entries).contains_key(entries[i].key@),
        entries_map(entries)[entries[i].key@] == entries[i].value@,
{
    let key = entries[i].key@;
    let j = choose|j: int| 0 <= j < entries.len() && entries[j].key@ == key;
    assert(i == j) by {
        if i < j {
        } else if j < i {
        }
    }
}

/// Whether two runs of bytes are the same.
fn same_bytes(a: &[u8], b: &[u8]) -> (same: bool)
    ensures
        same == (a@ == b@),
{
    if a.len() != b.len() {
        return false;
    }
    let mut i: usize = 0;
    while i < a.len()
        invariant
            a@.len() == b@.len(),
            i <= a@.len(),
            forall|j: int| 0 <= j < i ==> a@[j] == b@[j],
        decreases a@.len() - i,
    {
        if a[i] != b[i] {
            return false;
        }
        i += 1;
    }
    assert(a@ =~= b@);
    true
}

/// The place of `key` among `entries`, if it is there.
fn find_entry(entries: &Vec<Entry>, key: &[u8]) -> (r: Option<usize>)
    ensures
        match r {
            Some(i) => i < entries@.len() && entries@[i as int].key@ == key@,
            None => !has_key(entries@, key@),
        },
{
    let mut i: usize = 0;
    while i < entries.len()
        invariant
            i <= entries@.len(),
            forall|j: int| 0 <= j < i ==> entries@[j].key@ != key@,
        decreases entries@.len() - i,
    {
        if same_bytes(entries[i].key.as_slice(), key) {
            return Some(i);
        }
        i += 1;
    }
    None
}

/// Puts `value` under `key`, in place of what the key held.
fn put_entry(entries: &mut Vec<Entry>, key: &[u8], value: Value)
    requires
        distinct_keys(old(entries)@),
    ensures
        distinct_keys(final(entries)@),
        entries_map(final(entries)@) == entries_map(old(entries)@).insert(key@, value@),
{
    let ghost before = entries@;
    let ghost datum = value@;
    match find_entry(entries, key) {
        Some(i) => {
            entries[i].value = value;
            proof {
                let after = entries@;
                assert forall|j: int| 0 <= j < after.len() implies #[trigger] after[j].key@
                    == before[j].key@ by {}
                assert forall|k: Seq<u8>| has_key(after, k) == has_key(before, k) by {
                    if has_key(after, k) {
                        let j = choose|j: int| 0 <= j < after.len() && after[j].key@ == k;
                        assert(before[j].key@ == k);
                    }
                    if has_key(before, k) {
                        let j = choose|j: int| 0 <= j < before.len() && before[j].key@ == k;
                        assert(after[j].key@ == k);
                    }
                }
                assert forall|k: Seq<u8>| has_key(after, k) implies #[trigger] entries_map(after)[k]
                    == entries_map(before).insert(key@, datum)[k] by {
                    let j = choose|j: int| 0 <= j < after.len() && after[j].key@ == k;
                    lemma_entry_in_map(after, j);
                    lemma_entry_in_map(before, j);
                    if k == key@ {
                        lemma_entry_in_map(after, i as int);
                    }
                }
            }
        },
        None => {
            entries.push(Entry { key: slice_to_vec(key), value });
            proof {
                let after = entries@;
                let last = before.len() as int;
                assert forall|k: Seq<u8>| has_key(after, k) == (has_key(before, k) || k == key@) by {
                    if has_key(after, k) {
                        let j = choose|j: int| 0 <= j < after.len() && after[j].key@ == k;
                        if j < last {
                            assert(before[j].key@ == k);
                        }
                    }
                    if has_key(before, k) {
                        let j = choose|j: int| 0 <= j < before.len() && before[j].key@ == k;
                        assert(after[j].key@ == k);
                    }
                    if k == key@ {
                        assert(after[last].key@ == k);
                    }
                }
                assert forall|k: Seq<u8>| has_key(after, k) implies #[trigger] entries_map(after)[k]
                    == entries_map(before).insert(key@, datum)[k] by {
                    let j = choose|j: int| 0 <= j < after.len() && after[j].key@ == k;
                    lemma_entry_in_map(after, j);
                    if j < last {
                        lemma_entry_in_map(before, j);
                    }
                }
            }
        },
    }
}

/// Takes the entry at place `i` away.
fn remove_entry(entries: &mut Vec<Entry>, i: usize)
    requires
        distinct_keys(old(entries)@),
        i < old(entries)@.len(),
    ensures
        distinct_keys(final(entries)@),
        entries_map(final(entries)@) == entries_map(old(entries)@).remove(
            old(entries)@[i as int].key@,
        ),
{
    let ghost before = entries@;
    let ghost key = entries@[i as int].key@;
    let _ = entries.remove(i);
    proof {
        let after = entries@;
        // The entry at place `j` was at place `from(j)` before.
        let from = |j: int| if j < i { j } else { j + 1 };
        assert forall|j: int| 0 <= j < after.len() implies #[trigger] after[j] == before[from(j)] by {}
        assert forall|k: Seq<u8>| has_key(after, k) == (has_key(before, k) && k != key) by {
            if has_key(after, k) {
                let j = choose|j: int| 0 <= j < after.len() && after[j].key@ == k;
                assert(before[from(j)].key@ == k);
            }
            if has_key(before, k) && k != key {
                let j = choose|j: int| 0 <= j < before.len() && before[j].key@ == k;
                assert(after[if j < i { j } else { j - 1 }].key@ == k);
            }
        }
        assert forall|k: Seq<u8>| has_key(after, k) implies #[trigger] entries_map(after)[k]
            == entries_map(before).remove(key)[k] by {
            let j = choose|j: int| 0 <= j < after.len() && after[j].key@ == k;
            lemma_entry_in_map(after, j);
            lemma_entry_in_map(before, from(j));
        }
    }
}

/// A store: the identifier it was created under and its entries.
struct StoreSlot {
    id: Option<Vec<u8>>,
    entries: Vec<Entry>,
}

/// An open handle: the place of its store and whether it may write.
#[derive(Clone, Copy)]
struct SessionSlot {
    store: usize,
    read_only: bool,
}

/// The bytes of a buffer that may be missing.
spec fn id_of(id: Option<Vec<u8>>) -> Option<Seq<u8>> {
    match id {
        Some(id) => Some(id@),
        None => None,
    }
}

/// A store as the model sees it.
spec fn store_state(store: StoreSlot) -> StoreState {
    StoreState { id: id_of(store.id), contents: entries_map(store.entries@) }
}

/// A place among the sessions as the model sees it.
spec fn session_state(slot: Option<SessionSlot>) -> Option<Session> {
    match slot {
        Some(s) => Some(Session { store: s.store as int, read_only: s.read_only }),
        None => None,
    }
}

/// An engine in memory.
pub struct MemoryEngine {
    root: Option<Vec<u8>>,
    level: LogSeverity,
    stores: Vec<StoreSlot>,
    sessions: Vec<Option<SessionSlot>>,
}

impl View for MemoryEngine {
    type V = EngineState;

    /// The state of the engine.
    closed spec fn view(&self) -> EngineState {
        EngineState {
            root: id_of(self.root),
            level: self.level,
            stores: Seq::new(self.stores@.len(), |i: int| store_state(self.stores@[i])),
            sessions: Seq::new(self.sessions@.len(), |t: int| session_state(self.sessions@[t])),
        }
    }
}

impl MemoryEngine {
    /// The engine is sound inside, and its state is sound as
    /// [`EngineState::wf`] says.
    pub closed spec fn wf(&self) -> bool {
        &&& forall|i: int|
            0 <= i < self.stores@.len() ==> distinct_keys(#[trigger] self.stores@[i].entries@)
        &&& self@.wf()
    }

    /// An engine that was not set up yet.
    pub fn new() -> (engine: MemoryEngine)
        ensures
            engine.wf(),
            engine@.wf(),
            engine@ == EngineState::start(),
    {
        MemoryEngine {
            root: None,
            level: LogSeverity::Debug,
            stores: Vec::new(),
            sessions: Vec::new(),
        }
    }

    /// The log threshold.
    pub fn log_level(&self) -> (level: LogSeverity)
        ensures
            level == self@.level,
    {
        self.level
    }

    /// Whether the engine was set up.
    pub fn is_initialized(&self) -> (yes: bool)
        ensures
            yes == self@.root is Some,
    {
        self.root.is_some()
    }
}

/// Whether a store was created under `id`.
fn same_id(stored: &Option<Vec<u8>>, id: Option<&[u8]>) -> (same: bool)
    ensures
        same == (id_of(*stored) == crate::call::slice_of(id)),
{
    match (stored, id) {
        (Some(a), Some(b)) => same_bytes(a.as_slice(), b),
        (None, None) => true,
        _ => false,
    }
}

impl MemoryEngine {
    /// The session that a token names, if it names one.
    fn session(&self, handle: usize) -> (r: Option<SessionSlot>)
        ensures
            session_state(r) == self@.session(handle),
    {
        if 1 <= handle && handle <= self.sessions.len() {
            self.sessions[handle - 1]
        } else {
            None
        }
    }

    /// The first empty place among the sessions.
    fn free_slot(&self) -> (slot: usize)
        ensures
            slot == self@.free_slot(),
            is_free_slot(self@.sessions, slot as int),
    {
        let mut i: usize = 0;
        while i < self.sessions.len()
            invariant
                i <= self.sessions@.len(),
                forall|j: int| 0 <= j < i ==> self.sessions@[j] is Some,
            ensures
                is_free_slot(self@.sessions, i as int),
            decreases self.sessions@.len() - i,
        {
            if self.sessions[i].is_none() {
                break ;
            }
            i += 1;
        }
        proof {
            self@.lemma_free_slot();
            crate::model::lemma_free_slot_unique(self@.sessions, i as int, self@.free_slot());
        }
        i
    }

    /// The place of the store created under `id`, if there is one.
    fn store_named(&self, id: Option<&[u8]>) -> (r: Option<usize>)
        requires
            self.wf(),
        ensures
            match r {
                Some(i) => self@.store_named(crate::call::slice_of(id)) == Some(i as int) && i
                    < self.stores@.len(),
                None => self@.store_named(crate::call::slice_of(id)) is None,
            },
    {
        let mut i: usize = 0;
        while i < self.stores.len()
            invariant
                self.wf(),
                i <= self.stores@.len(),
                forall|j: int| 0 <= j < i ==> self@.stores[j].id != crate::call::slice_of(id),
            decreases self.stores@.len() - i,
        {
            if same_id(&self.stores[i].id, id) {
                proof {
                    self@.lemma_store_named(i as int);
                }
                return Some(i);
            }
            i += 1;
        }
        None
    }
}

impl MemoryEngine {
    /// Sets the engine up, where it was not set up before.
    fn initialize(&mut self, root_dir: &[u8], level: i32)
        requires
            old(self).wf(),
        ensures
            final(self).wf(),
            final(self)@ == old(self)@.after_initialize(root_dir@, level),
    {
        match LogSeverity::from_code(level) {
            Some(level) => {
                if self.root.is_none() {
                    self.root = Some(slice_to_vec(root_dir));
                    self.level = level;
                }
            },
            None => {},
        }
    }

    /// Sets the log threshold.
    fn set_log_level(&mut self, level: i32)
        requires
            old(self).wf(),
        ensures
            final(self).wf(),
            final(self)@ == old(self)@.after_set_log_level(level),
    {
        match LogSeverity::from_code(level) {
            Some(level) => {
                self.level = level;
            },
            None => {},
        }
    }

    /// Puts a session in its place and gives its token.
    fn seat_session(&mut self, slot: usize, session: SessionSlot) -> (token: usize)
        requires
            old(self).wf(),
            is_free_slot(old(self)@.sessions, slot as int),
            slot < usize::MAX,
            session.store < old(self).stores@.len(),
        ensures
            final(self).wf(),
            final(self)@ == old(self)@.with_session(slot as int, session_state(Some(session))->0),
            token == slot + 1,
    {
        if slot < self.sessions.len() {
            self.sessions[slot] = Some(session);
        } else {
            self.sessions.push(Some(session));
        }
        proof {
            assert forall|t: int| 0 <= t < self@.sessions.len() implies (
            #[trigger] self@.sessions[t] matches Some(s) ==> 0 <= s.store < self@.stores.len()) by {
                if t != slot {
                    assert(self@.sessions[t] == old(self)@.sessions[t]);
                }
            }
        }
        slot + 1
    }

    /// Opens the store created under `id`, or creates it.
    fn open(&mut self, id: Option<&[u8]>, mode: u32) -> (reply: Reply)
        requires
            old(self).wf(),
        ensures
            final(self).wf(),
            final(self)@ == old(self)@.after_open(crate::call::slice_of(id), mode).0,
            reply@ == old(self)@.after_open(crate::call::slice_of(id), mode).1,
    {
        let slot = self.free_slot();
        let mode = match ModeFlags::from_code(mode) {
            Some(mode) => mode,
            None => {
                return Reply::Handle(0);
            },
        };
        if self.root.is_none() || slot >= usize::MAX {
            return Reply::Handle(0);
        }
        match self.store_named(id) {
            Some(store) => {
                let token = self.seat_session(
                    slot,
                    SessionSlot { store, read_only: mode.read_only },
                );
                Reply::Handle(token)
            },
            None => {
                if mode.read_only {
                    return Reply::Handle(0);
                }
                let store = self.stores.len();
                let owned = match id {
                    Some(id) => Some(slice_to_vec(id)),
                    None => None,
                };
                self.stores.push(StoreSlot { id: owned, entries: Vec::new() });
                proof {
                    assert(entries_map(Seq::<Entry>::empty()) =~= Map::empty());
                    assert forall|i: int, j: int| 0 <= i < j < self@.stores.len() implies
                        self@.stores[i].id != self@.stores[j].id by {
                        if j == store {
                            assert(old(self)@.stores[i].id != crate::call::slice_of(id));
                        } else {
                            assert(old(self)@.stores[i].id != old(self)@.stores[j].id);
                        }
                    }
                    assert forall|t: int| 0 <= t < self@.sessions.len() implies (
                    #[trigger] self@.sessions[t] matches Some(s) ==> 0 <= s.store
                        < self@.stores.len()) by {
                        assert(self@.sessions[t] == old(self)@.sessions[t]);
                    }
                }
                let token = self.seat_session(slot, SessionSlot { store, read_only: false });
                Reply::Handle(token)
            },
        }
    }
}

impl MemoryEngine {
    /// The state after the entries of one store were changed is the state
    /// with the new contents behind every handle on that store.
    proof fn lemma_store_changed(before: &MemoryEngine, after: &MemoryEngine, handle: usize)
        requires
            before.wf(),
            before@.live(handle),
            after.root == before.root,
            after.level == before.level,
            after.sessions == before.sessions,
            after.stores@.len() == before.stores@.len(),
            forall|i: int|
                0 <= i < before.stores@.len() && i != before@.session(handle)->0.store
                    ==> after.stores@[i] == before.stores@[i],
            after.stores@[before@.session(handle)->0.store].id
                == before.stores@[before@.session(handle)->0.store].id,
            distinct_keys(after.stores@[before@.session(handle)->0.store].entries@),
        ensures
            after.wf(),
            after@ == before@.with_contents(
                handle,
                entries_map(after.stores@[before@.session(handle)->0.store].entries@),
            ),
    {
        let store = before@.session(handle)->0.store;
        assert forall|i: int, j: int| 0 <= i < j < after@.stores.len() implies after@.stores[i].id
            != after@.stores[j].id by {
            assert(after@.stores[i].id == before@.stores[i].id);
            assert(after@.stores[j].id == before@.stores[j].id);
        }
        assert forall|i: int| 0 <= i < after.stores@.len() implies distinct_keys(
            #[trigger] after.stores@[i].entries@,
        ) by {
            if i != store {
                assert(after.stores@[i] == before.stores@[i]);
            }
        }
    }

    /// Writes `value` under `key` in the store behind `handle`.
    fn put(&mut self, handle: usize, key: &[u8], value: &Payload<'_>) -> (reply: Reply)
        requires
            old(self).wf(),
        ensures
            final(self).wf(),
            final(self)@ == old(self)@.after_put(handle, key@, value@).0,
            reply@ == old(self)@.after_put(handle, key@, value@).1,
    {
        match self.session(handle) {
            Some(session) => {
                if session.read_only {
                    return Reply::Flag(false);
                }
                put_entry(&mut self.stores[session.store].entries, key, value.to_value());
                proof {
                    Self::lemma_store_changed(old(self), self, handle);
                }
                Reply::Flag(true)
            },
            None => Reply::Flag(false),
        }
    }

    /// Reads what `key` holds in the store behind `handle`.
    fn get(&self, handle: usize, key: &[u8], kind: Kind) -> (reply: Reply)
        requires
            self.wf(),
        ensures
            reply@ == self@.read(handle, key@, kind),
    {
        match self.session(handle) {
            Some(session) => {
                let entries = &self.stores[session.store].entries;
                match find_entry(entries, key) {
                    Some(i) => {
                        proof {
                            lemma_entry_in_map(entries@, i as int);
                        }
                        if entries[i].value.kind() == kind {
                            Reply::Read(Some(entries[i].value.clone()))
                        } else {
                            Reply::Read(None)
                        }
                    },
                    None => Reply::Read(None),
                }
            },
            None => Reply::Read(None),
        }
    }

    /// Whether `key` holds anything in the store behind `handle`.
    fn contains_key(&self, handle: usize, key: &[u8]) -> (reply: Reply)
        requires
            self.wf(),
        ensures
            reply@ == crate::call::ReplyModel::Flag(self@.contents(handle).contains_key(key@)),
    {
        match self.session(handle) {
            Some(session) => {
                match find_entry(&self.stores[session.store].entries, key) {
                    Some(i) => {
                        proof {
                            lemma_entry_in_map(self.stores@[session.store as int].entries@, i as int);
                        }
                        Reply::Flag(true)
                    },
                    None => Reply::Flag(false),
                }
            },
            None => Reply::Flag(false),
        }
    }

    /// Removes `key` from the store behind `handle`.
    fn remove_key(&mut self, handle: usize, key: &[u8]) -> (reply: Reply)
        requires
            old(self).wf(),
        ensures
            final(self).wf(),
            final(self)@ == old(self)@.after_remove(handle, key@).0,
            reply@ == old(self)@.after_remove(handle, key@).1,
    {
        match self.session(handle) {
            Some(session) => {
                if session.read_only {
                    return Reply::Flag(false);
                }
                match find_entry(&self.stores[session.store].entries, key) {
                    Some(i) => {
                        proof {
                            lemma_entry_in_map(self.stores@[session.store as int].entries@, i as int);
                        }
                        remove_entry(&mut self.stores[session.store].entries, i);
                        proof {
                            Self::lemma_store_changed(old(self), self, handle);
                        }
                        Reply::Flag(true)
                    },
                    None => Reply::Flag(false),
                }
            },
            None => Reply::Flag(false),
        }
    }

    /// Removes every key of the store behind `handle`.
    fn clear_all(&mut self, handle: usize)
        requires
            old(self).wf(),
        ensures
            final(self).wf(),
            final(self)@ == old(self)@.after_clear(handle),
    {
        match self.session(handle) {
            Some(session) => {
                if !session.read_only {
                    self.stores[session.store].entries.clear();
                    proof {
                        assert(entries_map(self.stores@[session.store as int].entries@)
                            =~= Map::empty());
                        Self::lemma_store_changed(old(self), self, handle);
                    }
                }
            },
            None => {},
        }
    }

    /// Empties the place of `handle`.
    fn close(&mut self, handle: usize)
        requires
            old(self).wf(),
        ensures
            final(self).wf(),
            final(self)@ == old(self)@.after_close(handle),
    {
        if 1 <= handle && handle <= self.sessions.len() {
            if self.sessions[handle - 1].is_some() {
                self.sessions[handle - 1] = None;
                proof {
                    assert forall|t: int| 0 <= t < self@.sessions.len() implies (
                    #[trigger] self@.sessions[t] matches Some(s) ==> 0 <= s.store
                        < self@.stores.len()) by {
                        if t != handle - 1 {
                            assert(self@.sessions[t] == old(self)@.sessions[t]);
                        }
                    }
                }
            }
        }
    }

    /// The number of handles that are open.
    pub fn live_handles(&self) -> (n: usize)
        ensures
            n == self@.live_handles(),
    {
        let mut n: usize = 0;
        let mut i: usize = 0;
        while i < self.sessions.len()
            invariant
                i <= self.sessions@.len(),
                n <= i,
                n == live_count(self@.sessions.take(i as int)),
            decreases self.sessions@.len() - i,
        {
            proof {
                assert(self@.sessions.take(i + 1).drop_last() =~= self@.sessions.take(i as int));
            }
            if self.sessions[i].is_some() {
                n += 1;
            }
            i += 1;
        }
        proof {
            assert(self@.sessions.take(i as int) =~= self@.sessions);
        }
        n
    }

    /// Answers one call, as [`EngineState::step`] says.
    pub fn perform(&mut self, call: &Call<'_>) -> (reply: Reply)
        requires
            old(self).wf(),
        ensures
            final(self).wf(),
            final(self)@.wf(),
            final(self)@ == old(self)@.step(call@).0,
            reply@ == old(self)@.step(call@).1,
    {
        match call {
            Call::Initialize { root_dir, level } => {
                self.initialize(root_dir.text(), *level);
                Reply::Done
            },
            Call::SetLogLevel { level } => {
                self.set_log_level(*level);
                Reply::Done
            },
            Call::Open { id, mode, .. } => {
                let id = match id {
                    Some(id) => Some(id.text()),
                    None => None,
                };
                self.open(id, *mode)
            },
            Call::Put { handle, key, value } => self.put(*handle, key.as_bytes(), value),
            Call::Get { handle, key, kind } => self.get(*handle, key.as_bytes(), *kind),
            Call::ContainsKey { handle, key } => self.contains_key(*handle, key.as_bytes()),
            Call::RemoveKey { handle, key } => self.remove_key(*handle, key.as_bytes()),
            Call::ClearAll { handle, .. } => {
                self.clear_all(*handle);
                Reply::Done
            },
            Call::Close { handle } => {
                self.close(*handle);
                Reply::Done
            },
        }
    }
}

} // verus!
