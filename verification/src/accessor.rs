//! Reading and writing what a store holds: for each type of value the call
//! that writes it and the call that reads it, and what the engine's reply to
//! each means.
//!
//! Keys and strings go over as borrowed views; nothing is copied to build a
//! call. A read gives the value together with a flag that says whether the
//! key held one: where it did not, or held something of another type, the
//! caller's default comes back and the flag is `false`.

use vstd::prelude::*;
use vstd::utf8::{decode_utf8, encode_utf8, encode_utf8_decode_utf8, valid_utf8};
use crate::call::{Call, CallModel, Datum, Kind, Payload, Reply, ReplyModel, Value};
use crate::instance::StoreHandle;
use crate::view::StringView;

verus! {

/// `core::str::Utf8Error`, the error of `core::str::from_utf8`: it is passed
/// through and never looked into.
#[verifier::external_type_specification]
#[verifier::external_body]
pub struct ExUtf8Error(core::str::Utf8Error);

/// `core::str::from_utf8` checks that a slice of bytes is well-formed UTF-8
/// and, where it is, hands the same bytes back as a string slice. This is
/// taken on trust from its documentation: success exactly on well-formed
/// input, and a string whose bytes are the input.
pub assume_specification[ core::str::from_utf8 ](v: &[u8]) -> (r: Result<
    &str,
    core::str::Utf8Error,
>)
    ensures
        r is Ok <==> valid_utf8(v@),
        r matches Ok(s) ==> encode_utf8(s@) == v@,
;

/// The call that writes `value` under `key`.
pub fn put<'a>(handle: &StoreHandle, key: &'a str, value: Payload<'a>) -> (call: Call<'a>)
    ensures
        call@ == (CallModel::Put {
            handle: handle.token(),
            key: encode_utf8(key@),
            value: value@,
        }),
{
    Call::Put { handle: handle.raw(), key: StringView::new(key), value }
}

/// The call that reads what `key` holds as a value of type `kind`.
pub fn get<'a>(handle: &StoreHandle, key: &'a str, kind: Kind) -> (call: Call<'a>)
    ensures
        call@ == (CallModel::Get { handle: handle.token(), key: encode_utf8(key@), kind }),
{
    Call::Get { handle: handle.raw(), key: StringView::new(key), kind }
}

/// The call that writes the boolean `value` under `key`.
pub fn set_bool<'a>(handle: &StoreHandle, key: &'a str, value: bool) -> (call: Call<'a>)
    ensures
        call@ == (CallModel::Put {
            handle: handle.token(),
            key: encode_utf8(key@),
            value: Datum::Bool(value),
        }),
{
    put(handle, key, Payload::Bool(value))
}

/// The call that writes the signed 32-bit `value` under `key`.
pub fn set_i32<'a>(handle: &StoreHandle, key: &'a str, value: i32) -> (call: Call<'a>)
    ensures
        call@ == (CallModel::Put {
            handle: handle.token(),
            key: encode_utf8(key@),
            value: Datum::I32(value),
        }),
{
    put(handle, key, Payload::I32(value))
}

/// The call that writes the unsigned 32-bit `value` under `key`.
pub fn set_u32<'a>(handle: &StoreHandle, key: &'a str, value: u32) -> (call: Call<'a>)
    ensures
        call@ == (CallModel::Put {
            handle: handle.token(),
            key: encode_utf8(key@),
            value: Datum::U32(value),
        }),
{
    put(handle, key, Payload::U32(value))
}

/// The call that writes the signed 64-bit `value` under `key`.
pub fn set_i64<'a>(handle: &StoreHandle, key: &'a str, value: i64) -> (call: Call<'a>)
    ensures
        call@ == (CallModel::Put {
            handle: handle.token(),
            key: encode_utf8(key@),
            value: Datum::I64(value),
        }),
{
    put(handle, key, Payload::I64(value))
}

/// The call that writes the unsigned 64-bit `value` under `key`.
pub fn set_u64<'a>(handle: &StoreHandle, key: &'a str, value: u64) -> (call: Call<'a>)
    ensures
        call@ == (CallModel::Put {
            handle: handle.token(),
            key: encode_utf8(key@),
            value: Datum::U64(value),
        }),
{
    put(handle, key, Payload::U64(value))
}

/// The call that writes a 32-bit float, given as its bit pattern, under
/// `key`.
pub fn set_f32<'a>(handle: &StoreHandle, key: &'a str, bits: u32) -> (call: Call<'a>)
    ensures
        call@ == (CallModel::Put {
            handle: handle.token(),
            key: encode_utf8(key@),
            value: Datum::F32(bits),
        }),
{
    put(handle, key, Payload::F32(bits))
}

/// The call that writes a 64-bit float, given as its bit pattern, under
/// `key`.
pub fn set_f64<'a>(handle: &StoreHandle, key: &'a str, bits: u64) -> (call: Call<'a>)
    ensures
        call@ == (CallModel::Put {
            handle: handle.token(),
            key: encode_utf8(key@),
            value: Datum::F64(bits),
        }),
{
    put(handle, key, Payload::F64(bits))
}

/// The call that writes the string `value` under `key`.
pub fn set_string<'a>(handle: &StoreHandle, key: &'a str, value: &'a str) -> (call: Call<'a>)
    ensures
        call@ == (CallModel::Put {
            handle: handle.token(),
            key: encode_utf8(key@),
            value: Datum::Text(encode_utf8(value@)),
        }),
{
    put(handle, key, Payload::Text(StringView::new(value)))
}

/// The call that reads a boolean from `key`.
pub fn get_bool<'a>(handle: &StoreHandle, key: &'a str) -> (call: Call<'a>)
    ensures
        call@ == (CallModel::Get {
            handle: handle.token(),
            key: encode_utf8(key@),
            kind: Kind::Bool,
        }),
{
    get(handle, key, Kind::Bool)
}

/// The call that reads a signed 32-bit value from `key`.
pub fn get_i32<'a>(handle: &StoreHandle, key: &'a str) -> (call: Call<'a>)
    ensures
        call@ == (CallModel::Get {
            handle: handle.token(),
            key: encode_utf8(key@),
            kind: Kind::I32,
        }),
{
    get(handle, key, Kind::I32)
}

/// The call that reads an unsigned 32-bit value from `key`.
pub fn get_u32<'a>(handle: &StoreHandle, key: &'a str) -> (call: Call<'a>)
    ensures
        call@ == (CallModel::Get {
            handle: handle.token(),
            key: encode_utf8(key@),
            kind: Kind::U32,
        }),
{
    get(handle, key, Kind::U32)
}

/// The call that reads a signed 64-bit value from `key`.
pub fn get_i64<'a>(handle: &StoreHandle, key: &'a str) -> (call: Call<'a>)
    ensures
        call@ == (CallModel::Get {
            handle: handle.token(),
            key: encode_utf8(key@),
            kind: Kind::I64,
        }),
{
    get(handle, key, Kind::I64)
}

/// The call that reads an unsigned 64-bit value from `key`.
pub fn get_u64<'a>(handle: &StoreHandle, key: &'a str) -> (call: Call<'a>)
    ensures
        call@ == (CallModel::Get {
            handle: handle.token(),
            key: encode_utf8(key@),
            kind: Kind::U64,
        }),
{
    get(handle, key, Kind::U64)
}

/// The call that reads a 32-bit float from `key`.
pub fn get_f32<'a>(handle: &StoreHandle, key: &'a str) -> (call: Call<'a>)
    ensures
        call@ == (CallModel::Get {
            handle: handle.token(),
            key: encode_utf8(key@),
            kind: Kind::F32,
        }),
{
    get(handle, key, Kind::F32)
}

/// The call that reads a 64-bit float from `key`.
pub fn get_f64<'a>(handle: &StoreHandle, key: &'a str) -> (call: Call<'a>)
    ensures
        call@ == (CallModel::Get {
            handle: handle.token(),
            key: encode_utf8(key@),
            kind: Kind::F64,
        }),
{
    get(handle, key, Kind::F64)
}

/// The call that reads a string from `key`.
pub fn get_string<'a>(handle: &StoreHandle, key: &'a str) -> (call: Call<'a>)
    ensures
        call@ == (CallModel::Get {
            handle: handle.token(),
            key: encode_utf8(key@),
            kind: Kind::Text,
        }),
{
    get(handle, key, Kind::Text)
}

/// The call that asks whether `key` holds anything.
pub fn contains_key<'a>(handle: &StoreHandle, key: &'a str) -> (call: Call<'a>)
    ensures
        call@ == (CallModel::ContainsKey { handle: handle.token(), key: encode_utf8(key@) }),
{
    Call::ContainsKey { handle: handle.raw(), key: StringView::new(key) }
}

/// The call that removes `key` and what it holds.
pub fn remove_key<'a>(handle: &StoreHandle, key: &'a str) -> (call: Call<'a>)
    ensures
        call@ == (CallModel::RemoveKey { handle: handle.token(), key: encode_utf8(key@) }),
{
    Call::RemoveKey { handle: handle.raw(), key: StringView::new(key) }
}

/// The call that removes every key of the store. With `keep_space` the
/// engine leaves the file at its size; without, it may shrink it.
pub fn clear_all(handle: &StoreHandle, keep_space: bool) -> (call: Call<'static>)
    ensures
        call@ == (CallModel::ClearAll { handle: handle.token(), keep_space }),
{
    Call::ClearAll { handle: handle.raw(), keep_space }
}

/// The flag that a reply carries: `true` only where the engine said yes.
pub open spec fn spec_flag(reply: ReplyModel) -> bool {
    reply == ReplyModel::Flag(true)
}

/// What the engine answered to a write, a removal or [`contains_key`]:
/// whether it went through, or the key is there. Any other reply counts as
/// a no.
pub fn flag(reply: &Reply) -> (yes: bool)
    ensures
        yes == spec_flag(reply@),
{
    match reply {
        Reply::Flag(yes) => *yes,
        _ => false,
    }
}

/// The value that a reply carries, where it carries one of type `kind`.
pub open spec fn spec_read(reply: ReplyModel, kind: Kind) -> Option<Datum> {
    match reply {
        ReplyModel::Read(Some(value)) => if value.kind() == kind {
            Some(value)
        } else {
            None
        },
        _ => None,
    }
}

/// What a read of a boolean gives for `reply`.
pub open spec fn spec_read_bool(reply: ReplyModel, default: bool) -> (bool, bool) {
    match spec_read(reply, Kind::Bool) {
        Some(Datum::Bool(value)) => (value, true),
        _ => (default, false),
    }
}

/// What a read of a signed 32-bit value gives for `reply`.
pub open spec fn spec_read_i32(reply: ReplyModel, default: i32) -> (i32, bool) {
    match spec_read(reply, Kind::I32) {
        Some(Datum::I32(value)) => (value, true),
        _ => (default, false),
    }
}

/// What a read of an unsigned 32-bit value gives for `reply`.
pub open spec fn spec_read_u32(reply: ReplyModel, default: u32) -> (u32, bool) {
    match spec_read(reply, Kind::U32) {
        Some(Datum::U32(value)) => (value, true),
        _ => (default, false),
    }
}

/// What a read of a signed 64-bit value gives for `reply`.
pub open spec fn spec_read_i64(reply: ReplyModel, default: i64) -> (i64, bool) {
    match spec_read(reply, Kind::I64) {
        Some(Datum::I64(value)) => (value, true),
        _ => (default, false),
    }
}

/// What a read of an unsigned 64-bit value gives for `reply`.
pub open spec fn spec_read_u64(reply: ReplyModel, default: u64) -> (u64, bool) {
    match spec_read(reply, Kind::U64) {
        Some(Datum::U64(value)) => (value, true),
        _ => (default, false),
    }
}

/// What a read of a 32-bit float gives for `reply`, in bit patterns.
pub open spec fn spec_read_f32(reply: ReplyModel, default: u32) -> (u32, bool) {
    match spec_read(reply, Kind::F32) {
        Some(Datum::F32(bits)) => (bits, true),
        _ => (default, false),
    }
}

/// What a read of a 64-bit float gives for `reply`, in bit patterns.
pub open spec fn spec_read_f64(reply: ReplyModel, default: u64) -> (u64, bool) {
    match spec_read(reply, Kind::F64) {
        Some(Datum::F64(bits)) => (bits, true),
        _ => (default, false),
    }
}

/// What a read of a string gives for `reply`: the text that the bytes
/// spell, where they are well-formed UTF-8.
pub open spec fn spec_read_string(reply: ReplyModel, default: Seq<char>) -> (Seq<char>, bool) {
    match spec_read(reply, Kind::Text) {
        Some(Datum::Text(bytes)) => if valid_utf8(bytes) {
            (decode_utf8(bytes), true)
        } else {
            (default, false)
        },
        _ => (default, false),
    }
}

/// The boolean that the engine found, with `true`; or `default`, with
/// `false`, where the reply holds no boolean.
pub fn read_bool(reply: &Reply, default: bool) -> (r: (bool, bool))
    ensures
        r == spec_read_bool(reply@, default),
{
    match reply {
        Reply::Read(Some(Value::Bool(value))) => (*value, true),
        _ => (default, false),
    }
}

/// The signed 32-bit value that the engine found, with `true`; or
/// `default`, with `false`, where the reply holds no such value.
pub fn read_i32(reply: &Reply, default: i32) -> (r: (i32, bool))
    ensures
        r == spec_read_i32(reply@, default),
{
    match reply {
        Reply::Read(Some(Value::I32(value))) => (*value, true),
        _ => (default, false),
    }
}

/// The unsigned 32-bit value that the engine found, with `true`; or
/// `default`, with `false`, where the reply holds no such value.
pub fn read_u32(reply: &Reply, default: u32) -> (r: (u32, bool))
    ensures
        r == spec_read_u32(reply@, default),
{
    match reply {
        Reply::Read(Some(Value::U32(value))) => (*value, true),
        _ => (default, false),
    }
}

/// The signed 64-bit value that the engine found, with `true`; or
/// `default`, with `false`, where the reply holds no such value.
pub fn read_i64(reply: &Reply, default: i64) -> (r: (i64, bool))
    ensures
        r == spec_read_i64(reply@, default),
{
    match reply {
        Reply::Read(Some(Value::I64(value))) => (*value, true),
        _ => (default, false),
    }
}

/// The unsigned 64-bit value that the engine found, with `true`; or
/// `default`, with `false`, where the reply holds no such value.
pub fn read_u64(reply: &Reply, default: u64) -> (r: (u64, bool))
    ensures
        r == spec_read_u64(reply@, default),
{
    match reply {
        Reply::Read(Some(Value::U64(value))) => (*value, true),
        _ => (default, false),
    }
}

/// The bit pattern of the 32-bit float that the engine found, with `true`;
/// or `default`, with `false`, where the reply holds no such float.
pub fn read_f32(reply: &Reply, default: u32) -> (r: (u32, bool))
    ensures
        r == spec_read_f32(reply@, default),
{
    match reply {
        Reply::Read(Some(Value::F32(bits))) => (*bits, true),
        _ => (default, false),
    }
}

/// The bit pattern of the 64-bit float that the engine found, with `true`;
/// or `default`, with `false`, where the reply holds no such float.
pub fn read_f64(reply: &Reply, default: u64) -> (r: (u64, bool))
    ensures
        r == spec_read_f64(reply@, default),
{
    match reply {
        Reply::Read(Some(Value::F64(bits))) => (*bits, true),
        _ => (default, false),
    }
}

/// The string that the engine found, with `true`; or a copy of `default`,
/// with `false`, where the reply holds no string or bytes that spell none.
/// A missing string is told the same way as a missing number.
pub fn read_string(reply: &Reply, default: &str) -> (r: (String, bool))
    ensures
        (r.0@, r.1) == spec_read_string(reply@, default@),
{
    match reply {
        Reply::Read(Some(Value::Text(bytes))) => {
            match core::str::from_utf8(bytes.as_slice()) {
                Ok(text) => {
                    proof {
                        encode_utf8_decode_utf8(text@);
                    }
                    (text.to_owned(), true)
                },
                Err(_) => (default.to_owned(), false),
            }
        },
        _ => (default.to_owned(), false),
    }
}

} // verus!
