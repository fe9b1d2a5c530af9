//! What crosses the boundary: the calls that the engine takes and the
//! replies that it gives.
//!
//! A [`Call`] names one entry point of the engine and carries its arguments
//! in the form in which the engine reads them. A [`Reply`] carries what the
//! entry point handed back. Each has a mathematical model, its view, over
//! which the contracts of this crate are stated.

use vstd::prelude::*;
use vstd::slice::slice_to_vec;
use crate::view::{NulTerminated, StringView};

verus! {

/// The types of value that a store holds. Each has entry points of its own
/// in the engine.
#[derive(Clone, Copy, Debug, PartialEq, Eq, Structural)]
pub enum Kind {
    Bool,
    I32,
    U32,
    I64,
    U64,
    /// A 32-bit float, carried as its bit pattern.
    F32,
    /// A 64-bit float, carried as its bit pattern.
    F64,
    /// A string, carried as its bytes.
    Text,
}

/// A value as the contracts see it.
pub enum Datum {
    Bool(bool),
    I32(i32),
    U32(u32),
    I64(i64),
    U64(u64),
    /// The bit pattern of a 32-bit float.
    F32(u32),
    /// The bit pattern of a 64-bit float.
    F64(u64),
    /// The bytes of a string.
    Text(Seq<u8>),
}

impl Datum {
    /// The type that a value has.
    pub open spec fn kind(self) -> Kind {
        match self {
            Datum::Bool(_) => Kind::Bool,
            Datum::I32(_) => Kind::I32,
            Datum::U32(_) => Kind::U32,
            Datum::I64(_) => Kind::I64,
            Datum::U64(_) => Kind::U64,
            Datum::F32(_) => Kind::F32,
            Datum::F64(_) => Kind::F64,
            Datum::Text(_) => Kind::Text,
        }
    }
}

/// A value on its way into the engine. A string is lent, not copied.
#[derive(Clone, Copy, Debug)]
pub enum Payload<'a> {
    Bool(bool),
    I32(i32),
    U32(u32),
    I64(i64),
    U64(u64),
    F32(u32),
    F64(u64),
    Text(StringView<'a>),
}

impl<'a> View for Payload<'a> {
    type V = Datum;

    open spec fn view(&self) -> Datum {
        match *self {
            Payload::Bool(v) => Datum::Bool(v),
            Payload::I32(v) => Datum::I32(v),
            Payload::U32(v) => Datum::U32(v),
            Payload::I64(v) => Datum::I64(v),
            Payload::U64(v) => Datum::U64(v),
            Payload::F32(v) => Datum::F32(v),
            Payload::F64(v) => Datum::F64(v),
            Payload::Text(v) => Datum::Text(v@),
        }
    }
}

/// A value on its way out of the engine, owned by whoever receives it.
#[derive(Debug, PartialEq, Eq)]
pub enum Value {
    Bool(bool),
    I32(i32),
    U32(u32),
    I64(i64),
    U64(u64),
    F32(u32),
    F64(u64),
    Text(Vec<u8>),
}

impl View for Value {
    type V = Datum;

    open spec fn view(&self) -> Datum {
        match *self {
            Value::Bool(v) => Datum::Bool(v),
            Value::I32(v) => Datum::I32(v),
            Value::U32(v) => Datum::U32(v),
            Value::I64(v) => Datum::I64(v),
            Value::U64(v) => Datum::U64(v),
            Value::F32(v) => Datum::F32(v),
            Value::F64(v) => Datum::F64(v),
            Value::Text(v) => Datum::Text(v@),
        }
    }
}

impl Clone for Value {
    /// A copy that holds the same value.
    fn clone(&self) -> (copy: Value)
        ensures
            copy@ == self@,
    {
        match self {
            Value::Bool(v) => Value::Bool(*v),
            Value::I32(v) => Value::I32(*v),
            Value::U32(v) => Value::U32(*v),
            Value::I64(v) => Value::I64(*v),
            Value::U64(v) => Value::U64(*v),
            Value::F32(v) => Value::F32(*v),
            Value::F64(v) => Value::F64(*v),
            Value::Text(v) => Value::Text(slice_to_vec(v.as_slice())),
        }
    }
}

impl<'a> Payload<'a> {
    /// The same value, with a copy of the string that was lent.
    pub fn to_value(&self) -> (value: Value)
        ensures
            value@ == self@,
    {
        match self {
            Payload::Bool(v) => Value::Bool(*v),
            Payload::I32(v) => Value::I32(*v),
            Payload::U32(v) => Value::U32(*v),
            Payload::I64(v) => Value::I64(*v),
            Payload::U64(v) => Value::U64(*v),
            Payload::F32(v) => Value::F32(*v),
            Payload::F64(v) => Value::F64(*v),
            Payload::Text(v) => Value::Text(v.to_vec()),
        }
    }
}

impl Value {
    /// The type of the value.
    pub fn kind(&self) -> (kind: Kind)
        ensures
            kind == self@.kind(),
    {
        match self {
            Value::Bool(_) => Kind::Bool,
            Value::I32(_) => Kind::I32,
            Value::U32(_) => Kind::U32,
            Value::I64(_) => Kind::I64,
            Value::U64(_) => Kind::U64,
            Value::F32(_) => Kind::F32,
            Value::F64(_) => Kind::F64,
            Value::Text(_) => Kind::Text,
        }
    }
}

/// One call into the engine, with its arguments as the engine reads them:
/// options as their codes, identifiers and paths in terminated buffers, keys
/// and values as borrowed views, a store as the token that the engine gave
/// for it.
#[derive(Debug)]
pub enum Call<'a> {
    /// Sets the directory under which stores live and the log threshold.
    Initialize { root_dir: NulTerminated, level: i32 },
    /// Changes the log threshold.
    SetLogLevel { level: i32 },
    /// Opens a store: the default one where `id` is `None`. A capacity of
    /// zero leaves the first size of a new store to the engine.
    Open {
        id: Option<NulTerminated>,
        mode: u32,
        crypt_key: Option<StringView<'a>>,
        root_path: Option<NulTerminated>,
        expected_capacity: usize,
    },
    /// Writes `value` under `key`, through the entry point of its type.
    Put { handle: usize, key: StringView<'a>, value: Payload<'a> },
    /// Reads what `key` holds, through the entry point of the type `kind`.
    Get { handle: usize, key: StringView<'a>, kind: Kind },
    /// Asks whether `key` holds anything.
    ContainsKey { handle: usize, key: StringView<'a> },
    /// Removes `key` and what it holds.
    RemoveKey { handle: usize, key: StringView<'a> },
    /// Removes every key; `keep_space` leaves the file at its size.
    ClearAll { handle: usize, keep_space: bool },
    /// Gives the token back. It names nothing afterwards.
    Close { handle: usize },
}

/// A call as the contracts see it.
pub enum CallModel {
    Initialize { root_dir: Seq<u8>, level: i32 },
    SetLogLevel { level: i32 },
    Open {
        id: Option<Seq<u8>>,
        mode: u32,
        crypt_key: Option<Seq<u8>>,
        root_path: Option<Seq<u8>>,
        expected_capacity: usize,
    },
    Put { handle: usize, key: Seq<u8>, value: Datum },
    Get { handle: usize, key: Seq<u8>, kind: Kind },
    ContainsKey { handle: usize, key: Seq<u8> },
    RemoveKey { handle: usize, key: Seq<u8> },
    ClearAll { handle: usize, keep_space: bool },
    Close { handle: usize },
}

/// The text of a terminated buffer that may be missing.
pub open spec fn text_of(buffer: Option<NulTerminated>) -> Option<Seq<u8>> {
    match buffer {
        Some(b) => Some(b@),
        None => None,
    }
}

/// The bytes of a borrowed view that may be missing.
pub open spec fn bytes_of(view: Option<StringView<'_>>) -> Option<Seq<u8>> {
    match view {
        Some(v) => Some(v@),
        None => None,
    }
}

/// The bytes of a slice that may be missing.
pub open spec fn slice_of(bytes: Option<&[u8]>) -> Option<Seq<u8>> {
    match bytes {
        Some(b) => Some(b@),
        None => None,
    }
}

impl<'a> View for Call<'a> {
    type V = CallModel;

    open spec fn view(&self) -> CallModel {
        match *self {
            Call::Initialize { root_dir, level } => CallModel::Initialize {
                root_dir: root_dir@,
                level,
            },
            Call::SetLogLevel { level } => CallModel::SetLogLevel { level },
            Call::Open { id, mode, crypt_key, root_path, expected_capacity } => CallModel::Open {
                id: text_of(id),
                mode,
                crypt_key: bytes_of(crypt_key),
                root_path: text_of(root_path),
                expected_capacity,
            },
            Call::Put { handle, key, value } => CallModel::Put { handle, key: key@, value: value@ },
            Call::Get { handle, key, kind } => CallModel::Get { handle, key: key@, kind },
            Call::ContainsKey { handle, key } => CallModel::ContainsKey { handle, key: key@ },
            Call::RemoveKey { handle, key } => CallModel::RemoveKey { handle, key: key@ },
            Call::ClearAll { handle, keep_space } => CallModel::ClearAll { handle, keep_space },
            Call::Close { handle } => CallModel::Close { handle },
        }
    }
}

/// What the engine hands back from one call.
#[derive(Debug, PartialEq, Eq)]
pub enum Reply {
    /// The entry point returns nothing.
    Done,
    /// The token of the store that was opened; zero where none was.
    Handle(usize),
    /// Whether a write or a removal went through, or a key is there.
    Flag(bool),
    /// What a key holds; `None` where the engine found nothing that it
    /// could read as the type asked for.
    Read(Option<Value>),
}

/// A reply as the contracts see it.
pub enum ReplyModel {
    Done,
    Handle(usize),
    Flag(bool),
    Read(Option<Datum>),
}

impl View for Reply {
    type V = ReplyModel;

    open spec fn view(&self) -> ReplyModel {
        match *self {
            Reply::Done => ReplyModel::Done,
            Reply::Handle(token) => ReplyModel::Handle(token),
            Reply::Flag(flag) => ReplyModel::Flag(flag),
            Reply::Read(None) => ReplyModel::Read(None),
            Reply::Read(Some(value)) => ReplyModel::Read(Some(value@)),
        }
    }
}

} // verus!
