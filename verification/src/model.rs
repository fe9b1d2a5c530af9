//! What the access layer expects of the engine behind it, as mathematics:
//! the state of an engine, and for every call the state that follows and
//! the reply that comes back.
//!
//! The layer itself never looks inside the engine. This model is what its
//! promises are measured against, and what [`crate::engine::MemoryEngine`]
//! does in memory.

use vstd::prelude::*;
use crate::call::{CallModel, Datum, Kind, ReplyModel};
use crate::codes::{LogSeverity, ModeFlags};

verus! {

/// One open handle: the store behind it, by its place among the stores, and
/// whether the handle may write.
pub struct Session {
    pub store: int,
    pub read_only: bool,
}

/// One store: the identifier it was created under (none for the default
/// store) and what its keys hold.
#[verifier::ext_equal]
pub struct StoreState {
    pub id: Option<Seq<u8>>,
    pub contents: Map<Seq<u8>, Datum>,
}

/// The state of an engine.
#[verifier::ext_equal]
pub struct EngineState {
    /// The directory under which stores live; none before the engine is set
    /// up.
    pub root: Option<Seq<u8>>,
    /// The log threshold.
    pub level: LogSeverity,
    /// The stores that exist, in the order of their creation.
    pub stores: Seq<StoreState>,
    /// The handles: the token `t` names the session at place `t - 1`, and a
    /// place is empty once its handle was closed.
    pub sessions: Seq<Option<Session>>,
}

/// `i` is the first empty place of `sessions`, or its length where no place
/// is empty.
pub open spec fn is_free_slot(sessions: Seq<Option<Session>>, i: int) -> bool {
    &&& 0 <= i <= sessions.len()
    &&& i < sessions.len() ==> sessions[i] is None
    &&& forall|j: int| 0 <= j < i ==> sessions[j] is Some
}

/// The number of places of `sessions` that hold a session.
pub open spec fn live_count(sessions: Seq<Option<Session>>) -> nat
    decreases sessions.len(),
{
    if sessions.len() == 0 {
        0
    } else {
        live_count(sessions.drop_last()) + if sessions.last() is Some {
            1nat
        } else {
            0nat
        }
    }
}

impl EngineState {
    /// An engine that was not set up yet: no directory, no store, no handle,
    /// and a log that tells everything.
    pub open spec fn start() -> EngineState {
        EngineState {
            root: None,
            level: LogSeverity::Debug,
            stores: Seq::empty(),
            sessions: Seq::empty(),
        }
    }

    /// No two stores share an identifier, every session names a store that
    /// exists, and every token fits a machine word.
    pub open spec fn wf(self) -> bool {
        &&& forall|i: int, j: int|
            0 <= i < j < self.stores.len() ==> self.stores[i].id != self.stores[j].id
        &&& forall|t: int|
            0 <= t < self.sessions.len() ==> (#[trigger] self.sessions[t] matches Some(s) ==> 0
                <= s.store < self.stores.len())
        &&& self.sessions.len() <= usize::MAX
    }

    /// The session that a token names, if it names one.
    pub open spec fn session(self, handle: usize) -> Option<Session> {
        if 1 <= handle <= self.sessions.len() {
            self.sessions[handle - 1]
        } else {
            None
        }
    }

    /// The token names an open handle.
    pub open spec fn live(self, handle: usize) -> bool {
        self.session(handle) is Some
    }

    /// The token names an open handle that may write.
    pub open spec fn writable(self, handle: usize) -> bool {
        self.session(handle) matches Some(s) && !s.read_only
    }

    /// What the store behind a handle holds; nothing where the token names
    /// no open handle.
    pub open spec fn contents(self, handle: usize) -> Map<Seq<u8>, Datum> {
        match self.session(handle) {
            Some(s) => self.stores[s.store].contents,
            None => Map::empty(),
        }
    }

    /// The number of open handles.
    pub open spec fn live_handles(self) -> nat {
        live_count(self.sessions)
    }

    /// The place of the store created under `id`, if there is one.
    pub open spec fn store_named(self, id: Option<Seq<u8>>) -> Option<int> {
        if exists|i: int| 0 <= i < self.stores.len() && self.stores[i].id == id {
            Some(choose|i: int| 0 <= i < self.stores.len() && self.stores[i].id == id)
        } else {
            None
        }
    }

    /// The place that the next handle takes: the first empty one.
    pub open spec fn free_slot(self) -> int {
        choose|i: int| is_free_slot(self.sessions, i)
    }

    /// The state with `contents` in the store behind `handle`.
    pub open spec fn with_contents(self, handle: usize, contents: Map<Seq<u8>, Datum>)
        -> EngineState {
        match self.session(handle) {
            Some(s) => EngineState {
                stores: self.stores.update(
                    s.store,
                    StoreState { id: self.stores[s.store].id, contents },
                ),
                ..self
            },
            None => self,
        }
    }

    /// The state with a new session at `slot`.
    pub open spec fn with_session(self, slot: int, session: Session) -> EngineState {
        EngineState {
            sessions: if slot < self.sessions.len() {
                self.sessions.update(slot, Some(session))
            } else {
                self.sessions.push(Some(session))
            },
            ..self
        }
    }

    /// Setting up takes effect once: on an engine that has no directory yet,
    /// and with a code that names a log threshold. A later call changes
    /// nothing.
    pub open spec fn after_initialize(self, root_dir: Seq<u8>, level: i32) -> EngineState {
        match LogSeverity::spec_from_code(level) {
            Some(level) => if self.root is None {
                EngineState { root: Some(root_dir), level, ..self }
            } else {
                self
            },
            None => self,
        }
    }

    /// A code that names a log threshold sets it.
    pub open spec fn after_set_log_level(self, level: i32) -> EngineState {
        match LogSeverity::spec_from_code(level) {
            Some(level) => EngineState { level, ..self },
            None => self,
        }
    }

    /// Opening gives a new handle on the store created under `id`, and
    /// creates that store, empty, where there is none and the handle may
    /// write. The token is the first free place, counted from one.
    ///
    /// Nothing is opened, and the token is zero, where the mode code names
    /// no mode, the engine was not set up, no token is left, or a store that
    /// does not exist is opened for reading only.
    pub open spec fn after_open(self, id: Option<Seq<u8>>, mode: u32) -> (EngineState, ReplyModel) {
        let slot = self.free_slot();
        match ModeFlags::spec_from_code(mode) {
            Some(mode) => if self.root is None || slot >= usize::MAX {
                (self, ReplyModel::Handle(0))
            } else {
                match self.store_named(id) {
                    Some(store) => (
                        self.with_session(slot, Session { store, read_only: mode.read_only }),
                        ReplyModel::Handle((slot + 1) as usize),
                    ),
                    None => if mode.read_only {
                        (self, ReplyModel::Handle(0))
                    } else {
                        (
                            EngineState {
                                stores: self.stores.push(
                                    StoreState { id, contents: Map::empty() },
                                ),
                                ..self
                            }.with_session(
                                slot,
                                Session { store: self.stores.len() as int, read_only: false },
                            ),
                            ReplyModel::Handle((slot + 1) as usize),
                        )
                    },
                }
            },
            None => (self, ReplyModel::Handle(0)),
        }
    }

    /// A write through a handle that may write puts the value under the key,
    /// in place of what the key held. Through any other handle it fails and
    /// changes nothing.
    pub open spec fn after_put(self, handle: usize, key: Seq<u8>, value: Datum) -> (
        EngineState,
        ReplyModel,
    ) {
        if self.writable(handle) {
            (
                self.with_contents(handle, self.contents(handle).insert(key, value)),
                ReplyModel::Flag(true),
            )
        } else {
            (self, ReplyModel::Flag(false))
        }
    }

    /// A read gives what the key holds, where that is of the type asked
    /// for.
    pub open spec fn read(self, handle: usize, key: Seq<u8>, kind: Kind) -> ReplyModel {
        let contents = self.contents(handle);
        if contents.contains_key(key) && contents[key].kind() == kind {
            ReplyModel::Read(Some(contents[key]))
        } else {
            ReplyModel::Read(None)
        }
    }

    /// A removal through a handle that may write takes the key away, and
    /// says whether there was one to take. Through any other handle it
    /// fails and changes nothing.
    pub open spec fn after_remove(self, handle: usize, key: Seq<u8>) -> (EngineState, ReplyModel) {
        if self.writable(handle) && self.contents(handle).contains_key(key) {
            (
                self.with_contents(handle, self.contents(handle).remove(key)),
                ReplyModel::Flag(true),
            )
        } else {
            (self, ReplyModel::Flag(false))
        }
    }

    /// Clearing through a handle that may write leaves the store without
    /// keys. Through any other handle it changes nothing.
    pub open spec fn after_clear(self, handle: usize) -> EngineState {
        if self.writable(handle) {
            self.with_contents(handle, Map::empty())
        } else {
            self
        }
    }

    /// Closing empties the place of the handle. The store behind it stays
    /// as it is.
    pub open spec fn after_close(self, handle: usize) -> EngineState {
        if self.live(handle) {
            EngineState { sessions: self.sessions.update(handle - 1, None), ..self }
        } else {
            self
        }
    }

    /// The state after a call and the reply to it.
    ///
    /// The encryption key, the path and the capacity of an `Open`, and the
    /// `keep_space` of a `ClearAll`, tell the engine how to keep a store on
    /// disk: they change neither what a store holds nor any reply.
    pub open spec fn step(self, call: CallModel) -> (EngineState, ReplyModel) {
        match call {
            CallModel::Initialize { root_dir, level } => (
                self.after_initialize(root_dir, level),
                ReplyModel::Done,
            ),
            CallModel::SetLogLevel { level } => (self.after_set_log_level(level), ReplyModel::Done),
            CallModel::Open { id, mode, .. } => self.after_open(id, mode),
            CallModel::Put { handle, key, value } => self.after_put(handle, key, value),
            CallModel::Get { handle, key, kind } => (self, self.read(handle, key, kind)),
            CallModel::ContainsKey { handle, key } => (
                self,
                ReplyModel::Flag(self.contents(handle).contains_key(key)),
            ),
            CallModel::RemoveKey { handle, key } => self.after_remove(handle, key),
            CallModel::ClearAll { handle, .. } => (self.after_clear(handle), ReplyModel::Done),
            CallModel::Close { handle } => (self.after_close(handle), ReplyModel::Done),
        }
    }
}

/// A sequence of sessions has one first empty place, and no other.
pub proof fn lemma_free_slot_unique(sessions: Seq<Option<Session>>, i: int, j: int)
    requires
        is_free_slot(sessions, i),
        is_free_slot(sessions, j),
    ensures
        i == j,
{
    if i < j {
        assert(sessions[i] is Some);
    } else if j < i {
        assert(sessions[j] is Some);
    }
}

/// Some place at or behind `from` is the first empty place, where every
/// place before `from` is taken.
proof fn lemma_free_slot_from(sessions: Seq<Option<Session>>, from: int)
    requires
        0 <= from <= sessions.len(),
        forall|j: int| 0 <= j < from ==> sessions[j] is Some,
    ensures
        exists|i: int| is_free_slot(sessions, i),
    decreases sessions.len() - from,
{
    if from == sessions.len() || sessions[from] is None {
        assert(is_free_slot(sessions, from));
    } else {
        lemma_free_slot_from(sessions, from + 1);
    }
}

/// Putting `slot` in the place `i` of `sessions` changes the number of
/// sessions by what the place gains or loses.
pub proof fn lemma_live_count_update(sessions: Seq<Option<Session>>, i: int, slot: Option<Session>)
    requires
        0 <= i < sessions.len(),
    ensures
        live_count(sessions.update(i, slot)) + (if sessions[i] is Some {
            1nat
        } else {
            0nat
        }) == live_count(sessions) + (if slot is Some {
            1nat
        } else {
            0nat
        }),
    decreases sessions.len(),
{
    let updated = sessions.update(i, slot);
    if i == sessions.len() - 1 {
        assert(updated.drop_last() =~= sessions.drop_last());
    } else {
        assert(updated.drop_last() =~= sessions.drop_last().update(i, slot));
        lemma_live_count_update(sessions.drop_last(), i, slot);
    }
}

/// A session put behind the others adds one to their number.
pub proof fn lemma_live_count_push(sessions: Seq<Option<Session>>, slot: Option<Session>)
    ensures
        live_count(sessions.push(slot)) == live_count(sessions) + (if slot is Some {
            1nat
        } else {
            0nat
        }),
{
    assert(sessions.push(slot).drop_last() =~= sessions);
}

impl EngineState {
    /// The place that the next handle takes is the first empty one.
    pub proof fn lemma_free_slot(self)
        ensures
            is_free_slot(self.sessions, self.free_slot()),
    {
        lemma_free_slot_from(self.sessions, 0);
    }

    /// In a sound state the store at place `i` is the one that its
    /// identifier names.
    pub proof fn lemma_store_named(self, i: int)
        requires
            self.wf(),
            0 <= i < self.stores.len(),
        ensures
            self.store_named(self.stores[i].id) == Some(i),
    {
        let id = self.stores[i].id;
        let j = choose|j: int| 0 <= j < self.stores.len() && self.stores[j].id == id;
        if i < j {
            assert(self.stores[i].id != self.stores[j].id);
        } else if j < i {
            assert(self.stores[j].id != self.stores[i].id);
        }
    }

    /// Every call leaves a sound state sound.
    pub proof fn lemma_step_wf(self, call: CallModel)
        requires
            self.wf(),
        ensures
            self.step(call).0.wf(),
    {
        let next = self.step(call).0;
        match call {
            CallModel::Open { id, .. } => {
                self.lemma_free_slot();
                if next != self {
                    let slot = self.free_slot();
                    assert forall|i: int, j: int| 0 <= i < j < next.stores.len() implies
                        next.stores[i].id != next.stores[j].id by {
                        if j == self.stores.len() {
                            assert(self.stores[i].id != id);
                        }
                    }
                    assert forall|t: int| 0 <= t < next.sessions.len() implies (
                    #[trigger] next.sessions[t] matches Some(s) ==> 0 <= s.store
                        < next.stores.len()) by {
                        if t != slot {
                            assert(next.sessions[t] == self.sessions[t]);
                        }
                    }
                }
            },
            CallModel::Close { handle } => {
                if self.live(handle) {
                    assert forall|t: int| 0 <= t < next.sessions.len() implies (
                    #[trigger] next.sessions[t] matches Some(s) ==> 0 <= s.store
                        < next.stores.len()) by {
                        if t != handle - 1 {
                            assert(next.sessions[t] == self.sessions[t]);
                        }
                    }
                }
            },
            _ => {},
        }
    }
}

} // verus!
