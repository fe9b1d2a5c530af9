//! What holds of the access layer over any engine that answers as the model
//! says: the laws that tie the calls of [`crate::accessor`] and
//! [`crate::instance`] to what their replies mean.
//!
//! Each law takes a state of the engine and follows it through one or two
//! calls. The calls are written as their models, as the functions that build
//! them promise them.

use vstd::prelude::*;
use vstd::utf8::{encode_utf8, encode_utf8_decode_utf8, encode_utf8_valid_utf8};
use crate::accessor::{
    spec_flag, spec_read_bool, spec_read_f32, spec_read_f64, spec_read_i32, spec_read_i64,
    spec_read_string, spec_read_u32, spec_read_u64,
};
use crate::call::{CallModel, Datum, Kind, ReplyModel};
use crate::codes::ModeFlags;
use crate::model::{lemma_live_count_push, lemma_live_count_update, EngineState};

verus! {

/// A write through a handle that may write goes through, puts the value
/// under the key and leaves every other key as it was; a read of the same
/// type through the same handle then finds the value.
pub proof fn lemma_put_then_get(s: EngineState, handle: usize, key: Seq<u8>, value: Datum)
    requires
        s.wf(),
        s.writable(handle),
    ensures
        ({
            let (after, written) = s.step(CallModel::Put { handle, key, value });
            &&& written == ReplyModel::Flag(true)
            &&& after.wf()
            &&& after.contents(handle) == s.contents(handle).insert(key, value)
            &&& after.step(CallModel::Get { handle, key, kind: value.kind() }).1
                == ReplyModel::Read(Some(value))
        }),
{
    s.lemma_step_wf(CallModel::Put { handle, key, value });
}

/// A read of a key that the store does not hold finds nothing, whatever
/// the type asked for.
pub proof fn lemma_get_absent(s: EngineState, handle: usize, key: Seq<u8>, kind: Kind)
    requires
        !s.contents(handle).contains_key(key),
    ensures
        s.step(CallModel::Get { handle, key, kind }).1 == ReplyModel::Read(None),
        s.step(CallModel::Get { handle, key, kind }).0 == s,
{
}

/// Writing a boolean and reading it back: after `set_bool` through a
/// handle that may write, `get_bool` on the same key gives the value with
/// `true`, whatever the default.
pub proof fn lemma_set_then_get_bool(
    s: EngineState,
    handle: usize,
    key: Seq<u8>,
    value: bool,
    default: bool,
)
    requires
        s.wf(),
        s.writable(handle),
    ensures
        ({
            let (after, written) = s.step(
                CallModel::Put { handle, key, value: Datum::Bool(value) },
            );
            let read = after.step(CallModel::Get { handle, key, kind: Kind::Bool }).1;
            spec_flag(written) && spec_read_bool(read, default) == (value, true)
        }),
{
    lemma_put_then_get(s, handle, key, Datum::Bool(value));
}

/// Writing a signed 32-bit value and reading it back: after `set_i32` through a
/// handle that may write, `get_i32` on the same key gives the value with
/// `true`, whatever the default.
pub proof fn lemma_set_then_get_i32(
    s: EngineState,
    handle: usize,
    key: Seq<u8>,
    value: i32,
    default: i32,
)
    requires
        s.wf(),
        s.writable(handle),
    ensures
        ({
            let (after, written) = s.step(
                CallModel::Put { handle, key, value: Datum::I32(value) },
            );
            let read = after.step(CallModel::Get { handle, key, kind: Kind::I32 }).1;
            spec_flag(written) && spec_read_i32(read, default) == (value, true)
        }),
{
    lemma_put_then_get(s, handle, key, Datum::I32(value));
}

/// Writing an unsigned 32-bit value and reading it back: after `set_u32` through a
/// handle that may write, `get_u32` on the same key gives the value with
/// `true`, whatever the default.
pub proof fn lemma_set_then_get_u32(
    s: EngineState,
    handle: usize,
    key: Seq<u8>,
    value: u32,
    default: u32,
)
    requires
        s.wf(),
        s.writable(handle),
    ensures
        ({
            let (after, written) = s.step(
                CallModel::Put { handle, key, value: Datum::U32(value) },
            );
            let read = after.step(CallModel::Get { handle, key, kind: Kind::U32 }).1;
            spec_flag(written) && spec_read_u32(read, default) == (value, true)
        }),
{
    lemma_put_then_get(s, handle, key, Datum::U32(value));
}

/// Writing a signed 64-bit value and reading it back: after `set_i64` through a
/// handle that may write, `get_i64` on the same key gives the value with
/// `true`, whatever the default.
pub proof fn lemma_set_then_get_i64(
    s: EngineState,
    handle: usize,
    key: Seq<u8>,
    value: i64,
    default: i64,
)
    requires
        s.wf(),
        s.writable(handle),
    ensures
        ({
            let (after, written) = s.step(
                CallModel::Put { handle, key, value: Datum::I64(value) },
            );
            let read = after.step(CallModel::Get { handle, key, kind: Kind::I64 }).1;
            spec_flag(written) && spec_read_i64(read, default) == (value, true)
        }),
{
    lemma_put_then_get(s, handle, key, Datum::I64(value));
}

/// Writing an unsigned 64-bit value and reading it back: after `set_u64` through a
/// handle that may write, `get_u64` on the same key gives the value with
/// `true`, whatever the default.
pub proof fn lemma_set_then_get_u64(
    s: EngineState,
    handle: usize,
    key: Seq<u8>,
    value: u64,
    default: u64,
)
    requires
        s.wf(),
        s.writable(handle),
    ensures
        ({
            let (after, written) = s.step(
                CallModel::Put { handle, key, value: Datum::U64(value) },
            );
            let read = after.step(CallModel::Get { handle, key, kind: Kind::U64 }).1;
            spec_flag(written) && spec_read_u64(read, default) == (value, true)
        }),
{
    lemma_put_then_get(s, handle, key, Datum::U64(value));
}

/// Writing a 32-bit float, as its bit pattern, and reading it back: after `set_f32` through a
/// handle that may write, `get_f32` on the same key gives the value with
/// `true`, whatever the default.
pub proof fn lemma_set_then_get_f32(
    s: EngineState,
    handle: usize,
    key: Seq<u8>,
    bits: u32,
    default: u32,
)
    requires
        s.wf(),
        s.writable(handle),
    ensures
        ({
            let (after, written) = s.step(
                CallModel::Put { handle, key, value: Datum::F32(bits) },
            );
            let read = after.step(CallModel::Get { handle, key, kind: Kind::F32 }).1;
            spec_flag(written) && spec_read_f32(read, default) == (bits, true)
        }),
{
    lemma_put_then_get(s, handle, key, Datum::F32(bits));
}

/// Writing a 64-bit float, as its bit pattern, and reading it back: after `set_f64` through a
/// handle that may write, `get_f64` on the same key gives the value with
/// `true`, whatever the default.
pub proof fn lemma_set_then_get_f64(
    s: EngineState,
    handle: usize,
    key: Seq<u8>,
    bits: u64,
    default: u64,
)
    requires
        s.wf(),
        s.writable(handle),
    ensures
        ({
            let (after, written) = s.step(
                CallModel::Put { handle, key, value: Datum::F64(bits) },
            );
            let read = after.step(CallModel::Get { handle, key, kind: Kind::F64 }).1;
            spec_flag(written) && spec_read_f64(read, default) == (bits, true)
        }),
{
    lemma_put_then_get(s, handle, key, Datum::F64(bits));
}

/// Writing a string and reading it back: after `set_string` through a
/// handle that may write, `get_string` on the same key gives the text with
/// `true`, whatever the default.
pub proof fn lemma_set_then_get_string(
    s: EngineState,
    handle: usize,
    key: Seq<u8>,
    text: Seq<char>,
    default: Seq<char>,
)
    requires
        s.wf(),
        s.writable(handle),
    ensures
        ({
            let (after, written) = s.step(
                CallModel::Put { handle, key, value: Datum::Text(encode_utf8(text)) },
            );
            let read = after.step(CallModel::Get { handle, key, kind: Kind::Text }).1;
            spec_flag(written) && spec_read_string(read, default) == (text, true)
        }),
{
    lemma_put_then_get(s, handle, key, Datum::Text(encode_utf8(text)));
    encode_utf8_valid_utf8(text);
    encode_utf8_decode_utf8(text);
}

/// Reading a boolean from a key that the store does not hold gives
/// the default with `false`.
pub proof fn lemma_get_absent_bool(s: EngineState, handle: usize, key: Seq<u8>, default: bool)
    requires
        !s.contents(handle).contains_key(key),
    ensures
        spec_read_bool(s.step(CallModel::Get { handle, key, kind: Kind::Bool }).1, default) == (
            default,
            false,
        ),
{
}

/// Reading a signed 32-bit value from a key that the store does not hold gives
/// the default with `false`.
pub proof fn lemma_get_absent_i32(s: EngineState, handle: usize, key: Seq<u8>, default: i32)
    requires
        !s.contents(handle).contains_key(key),
    ensures
        spec_read_i32(s.step(CallModel::Get { handle, key, kind: Kind::I32 }).1, default) == (
            default,
            false,
        ),
{
}

/// Reading an unsigned 32-bit value from a key that the store does not hold gives
/// the default with `false`.
pub proof fn lemma_get_absent_u32(s: EngineState, handle: usize, key: Seq<u8>, default: u32)
    requires
        !s.contents(handle).contains_key(key),
    ensures
        spec_read_u32(s.step(CallModel::Get { handle, key, kind: Kind::U32 }).1, default) == (
            default,
            false,
        ),
{
}

/// Reading a signed 64-bit value from a key that the store does not hold gives
/// the default with `false`.
pub proof fn lemma_get_absent_i64(s: EngineState, handle: usize, key: Seq<u8>, default: i64)
    requires
        !s.contents(handle).contains_key(key),
    ensures
        spec_read_i64(s.step(CallModel::Get { handle, key, kind: Kind::I64 }).1, default) == (
            default,
            false,
        ),
{
}

/// Reading an unsigned 64-bit value from a key that the store does not hold gives
/// the default with `false`.
pub proof fn lemma_get_absent_u64(s: EngineState, handle: usize, key: Seq<u8>, default: u64)
    requires
        !s.contents(handle).contains_key(key),
    ensures
        spec_read_u64(s.step(CallModel::Get { handle, key, kind: Kind::U64 }).1, default) == (
            default,
            false,
        ),
{
}

/// Reading a 32-bit float, as its bit pattern, from a key that the store does not hold gives
/// the default with `false`.
pub proof fn lemma_get_absent_f32(s: EngineState, handle: usize, key: Seq<u8>, default: u32)
    requires
        !s.contents(handle).contains_key(key),
    ensures
        spec_read_f32(s.step(CallModel::Get { handle, key, kind: Kind::F32 }).1, default) == (
            default,
            false,
        ),
{
}

/// Reading a 64-bit float, as its bit pattern, from a key that the store does not hold gives
/// the default with `false`.
pub proof fn lemma_get_absent_f64(s: EngineState, handle: usize, key: Seq<u8>, default: u64)
    requires
        !s.contents(handle).contains_key(key),
    ensures
        spec_read_f64(s.step(CallModel::Get { handle, key, kind: Kind::F64 }).1, default) == (
            default,
            false,
        ),
{
}

/// Reading a string from a key that the store does not hold gives the
/// default with `false`.
pub proof fn lemma_get_absent_string(
    s: EngineState,
    handle: usize,
    key: Seq<u8>,
    default: Seq<char>,
)
    requires
        !s.contents(handle).contains_key(key),
    ensures
        spec_read_string(s.step(CallModel::Get { handle, key, kind: Kind::Text }).1, default) == (
            default,
            false,
        ),
{
}

/// A key holds nothing in a store that was just created: whatever is read
/// from a new store through the handle that created it is the default.
pub proof fn lemma_new_store_is_empty(s: EngineState, id: Option<Seq<u8>>, mode: u32)
    requires
        s.wf(),
        s.store_named(id) is None,
    ensures
        ({
            let (after, reply) = s.after_open(id, mode);
            reply matches ReplyModel::Handle(handle) ==> handle != 0 ==> after.contents(handle)
                == Map::<Seq<u8>, Datum>::empty()
        }),
{
    s.lemma_free_slot();
}

/// After `remove_key` the key is gone: `contains_key` says no, and a read
/// finds nothing. This holds through a handle that may write, and of a key
/// that was not there to begin with.
pub proof fn lemma_remove_then_contains(s: EngineState, handle: usize, key: Seq<u8>)
    requires
        s.wf(),
        s.writable(handle) || !s.contents(handle).contains_key(key),
    ensures
        ({
            let (after, removed) = s.step(CallModel::RemoveKey { handle, key });
            &&& spec_flag(removed) == s.contents(handle).contains_key(key)
            &&& after.wf()
            &&& !after.contents(handle).contains_key(key)
            &&& !spec_flag(after.step(CallModel::ContainsKey { handle, key }).1)
        }),
{
    s.lemma_step_wf(CallModel::RemoveKey { handle, key });
}

/// After `clear_all`, with or without `keep_space`, `contains_key` says no
/// for every key. This holds through a handle that may write, and of a
/// store that held nothing to begin with.
pub proof fn lemma_clear_then_contains(
    s: EngineState,
    handle: usize,
    keep_space: bool,
    key: Seq<u8>,
)
    requires
        s.wf(),
        s.writable(handle) || s.contents(handle) == Map::<Seq<u8>, Datum>::empty(),
    ensures
        ({
            let after = s.step(CallModel::ClearAll { handle, keep_space }).0;
            &&& after.wf()
            &&& after.contents(handle) == Map::<Seq<u8>, Datum>::empty()
            &&& !spec_flag(after.step(CallModel::ContainsKey { handle, key }).1)
        }),
{
    s.lemma_step_wf(CallModel::ClearAll { handle, keep_space });
}

/// An open either fails and leaves the engine as it was, with nothing to
/// release, or gives the token of one handle that was not open before,
/// leaves every other handle as it was, and adds one to the number of open
/// handles.
pub proof fn lemma_open_grants_one(
    s: EngineState,
    id: Option<Seq<u8>>,
    mode: u32,
    crypt_key: Option<Seq<u8>>,
    root_path: Option<Seq<u8>>,
    expected_capacity: usize,
)
    requires
        s.wf(),
    ensures
        ({
            let (after, reply) = s.step(
                CallModel::Open { id, mode, crypt_key, root_path, expected_capacity },
            );
            &&& after.wf()
            &&& reply is Handle
            &&& reply->Handle_0 == 0 ==> after == s
            &&& reply->Handle_0 != 0 ==> {
                &&& !s.live(reply->Handle_0)
                &&& after.live(reply->Handle_0)
                &&& after.live_handles() == s.live_handles() + 1
                &&& forall|other: usize|
                    other != reply->Handle_0 ==> #[trigger] after.session(other) == s.session(
                        other,
                    )
            }
        }),
{
    let call = CallModel::Open { id, mode, crypt_key, root_path, expected_capacity };
    let (after, reply) = s.step(call);
    s.lemma_step_wf(call);
    s.lemma_free_slot();
    let slot = s.free_slot();
    if reply->Handle_0 != 0 {
        let session = after.sessions[slot];
        if slot < s.sessions.len() {
            lemma_live_count_update(s.sessions, slot, session);
        } else {
            lemma_live_count_push(s.sessions, session);
        }
    }
}

/// Closing an open handle releases that handle and no other: its token
/// names nothing afterwards, one handle fewer is open, and every store
/// holds what it held.
pub proof fn lemma_close_releases_one(s: EngineState, handle: usize)
    requires
        s.wf(),
        s.live(handle),
    ensures
        ({
            let after = s.step(CallModel::Close { handle }).0;
            &&& after.wf()
            &&& !after.live(handle)
            &&& after.live_handles() + 1 == s.live_handles()
            &&& after.stores == s.stores
            &&& forall|other: usize|
                other != handle ==> #[trigger] after.session(other) == s.session(other)
        }),
{
    s.lemma_step_wf(CallModel::Close { handle });
    lemma_live_count_update(s.sessions, handle - 1, None);
}

/// Opening and closing leaves as many handles open as there were: nothing
/// leaks, however often it is done.
pub proof fn lemma_open_then_close(
    s: EngineState,
    id: Option<Seq<u8>>,
    mode: u32,
    crypt_key: Option<Seq<u8>>,
    root_path: Option<Seq<u8>>,
    expected_capacity: usize,
)
    requires
        s.wf(),
    ensures
        ({
            let (opened, reply) = s.step(
                CallModel::Open { id, mode, crypt_key, root_path, expected_capacity },
            );
            let closed = opened.step(CallModel::Close { handle: reply->Handle_0 }).0;
            closed.wf() && closed.live_handles() == s.live_handles()
        }),
{
    lemma_open_grants_one(s, id, mode, crypt_key, root_path, expected_capacity);
    let (opened, reply) = s.step(
        CallModel::Open { id, mode, crypt_key, root_path, expected_capacity },
    );
    if reply->Handle_0 != 0 {
        lemma_close_releases_one(opened, reply->Handle_0);
    }
}

/// Two handles on one store see one state: where the same identifier is
/// opened twice for writing and both opens give a handle, what is written
/// through the first is read through the second.
pub proof fn lemma_opened_twice_share(
    s: EngineState,
    id: Option<Seq<u8>>,
    mode: u32,
    crypt_key: Option<Seq<u8>>,
    root_path: Option<Seq<u8>>,
    expected_capacity: usize,
    key: Seq<u8>,
    value: Datum,
)
    requires
        s.wf(),
        ModeFlags::spec_from_code(mode) matches Some(m) && !m.read_only,
        ({
            let open = CallModel::Open { id, mode, crypt_key, root_path, expected_capacity };
            let (once, first) = s.step(open);
            let (twice, second) = once.step(open);
            first->Handle_0 != 0 && second->Handle_0 != 0
        }),
    ensures
        ({
            let open = CallModel::Open { id, mode, crypt_key, root_path, expected_capacity };
            let (once, first) = s.step(open);
            let (twice, second) = once.step(open);
            let (after, written) = twice.step(
                CallModel::Put { handle: first->Handle_0, key, value },
            );
            &&& first->Handle_0 != second->Handle_0
            &&& spec_flag(written)
            &&& after.contents(second->Handle_0) == after.contents(first->Handle_0)
            &&& after.step(
                CallModel::Get { handle: second->Handle_0, key, kind: value.kind() },
            ).1 == ReplyModel::Read(Some(value))
        }),
{
    let open = CallModel::Open { id, mode, crypt_key, root_path, expected_capacity };
    let (once, first) = s.step(open);
    let (twice, second) = once.step(open);
    let h1 = first->Handle_0;
    let h2 = second->Handle_0;
    lemma_open_grants_one(s, id, mode, crypt_key, root_path, expected_capacity);
    lemma_open_grants_one(once, id, mode, crypt_key, root_path, expected_capacity);
    s.lemma_free_slot();
    once.lemma_free_slot();
    // The first handle is on the store named `id`, found or created.
    let store = once.session(h1)->0.store;
    assert(once.stores[store].id == id);
    // The second open finds that store, and leaves the first handle alone.
    once.lemma_store_named(store);
    assert(twice.session(h2)->0.store == store);
    assert(twice.session(h1) == once.session(h1));
    lemma_put_then_get(twice, h1, key, value);
}

} // verus!
