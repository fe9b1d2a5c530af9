//! Getting hold of a store: setting the engine up, opening the default store
//! or a named one, and owning what was opened until it is closed.

use vstd::prelude::*;
use vstd::utf8::encode_utf8;
use crate::call::{Call, CallModel, Reply, ReplyModel};
use crate::codes::{LogSeverity, ModeFlags};
use crate::view::{has_nul, is_first_nul, NulError, NulTerminated, StringView};

verus! {

/// An open store.
///
/// A handle comes into being only in [`opened`], from what the engine
/// answered, and cannot be copied. [`StoreHandle::close`] takes it by value,
/// so the one call that gives the token back can be made once and no call
/// can name the store after it.
#[derive(Debug)]
pub struct StoreHandle {
    raw: usize,
}

impl StoreHandle {
    /// The token under which the engine knows the store.
    pub closed spec fn token(&self) -> usize {
        self.raw
    }

    /// The call that releases the store. The handle is used up.
    pub fn close(self) -> (call: Call<'static>)
        ensures
            call@ == (CallModel::Close { handle: self.token() }),
    {
        Call::Close { handle: self.raw }
    }

    /// The token, for the parts of this crate that build calls.
    pub(crate) fn raw(&self) -> (raw: usize)
        ensures
            raw == self.token(),
    {
        self.raw
    }
}

/// The store that the engine opened, from its reply to [`open_default`] or
/// [`open_named`]. There is none where the engine answered with the token
/// zero, or with anything but a token.
pub fn opened(reply: &Reply) -> (r: Option<StoreHandle>)
    ensures
        match r {
            Some(handle) => handle.token() != 0 && reply@ == ReplyModel::Handle(handle.token()),
            None => reply@ == ReplyModel::Handle(0) || !(reply@ is Handle),
        },
{
    match reply {
        Reply::Handle(raw) => {
            if *raw == 0 {
                None
            } else {
                Some(StoreHandle { raw: *raw })
            }
        },
        _ => None,
    }
}

/// The bytes of a string that may be missing.
pub open spec fn encoded(s: Option<&str>) -> Option<Seq<u8>> {
    match s {
        Some(s) => Some(encode_utf8(s@)),
        None => None,
    }
}

/// A view of a string that may be missing.
fn view_of<'a>(s: Option<&'a str>) -> (v: Option<StringView<'a>>)
    ensures
        crate::call::bytes_of(v) == encoded(s),
{
    match s {
        Some(s) => Some(StringView::new(s)),
        None => None,
    }
}

/// The call that sets the engine up, once, before any store is opened: with
/// the directory under which stores live and the log threshold.
///
/// The directory goes over in a terminated buffer, so one that holds a zero
/// byte is refused here, with the place of the byte.
pub fn initialize(root_dir: &str, level: LogSeverity) -> (r: Result<Call<'static>, NulError>)
    ensures
        match r {
            Ok(call) => !has_nul(encode_utf8(root_dir@)) && call@ == (CallModel::Initialize {
                root_dir: encode_utf8(root_dir@),
                level: level.spec_code(),
            }),
            Err(e) => is_first_nul(encode_utf8(root_dir@), e.position as int),
        },
{
    match NulTerminated::new(root_dir) {
        Ok(root_dir) => Ok(Call::Initialize { root_dir, level: level.code() }),
        Err(e) => Err(e),
    }
}

/// The call that changes the log threshold.
pub fn set_log_level(level: LogSeverity) -> (call: Call<'static>)
    ensures
        call@ == (CallModel::SetLogLevel { level: level.spec_code() }),
{
    Call::SetLogLevel { level: level.code() }
}

/// The call that opens the default store, in the engine's own directory and
/// at the engine's own first size.
pub fn open_default<'a>(mode: ModeFlags, crypt_key: Option<&'a str>) -> (call: Call<'a>)
    ensures
        call@ == (CallModel::Open {
            id: None,
            mode: mode.spec_code(),
            crypt_key: encoded(crypt_key),
            root_path: None,
            expected_capacity: 0,
        }),
{
    Call::Open {
        id: None,
        mode: mode.code(),
        crypt_key: view_of(crypt_key),
        root_path: None,
        expected_capacity: 0,
    }
}

/// Why a named store cannot be asked for.
#[derive(Clone, Copy, Debug, PartialEq, Eq, Structural)]
pub enum OpenError {
    /// The identifier holds a zero byte.
    Identifier(NulError),
    /// The identifier is sound, and the path holds a zero byte.
    RootPath(NulError),
}

/// The call that opens the store named `id`: under `root_path` where one is
/// given, and with `expected_capacity` as a hint for the first size of a
/// new store.
///
/// Identifier and path go over in terminated buffers, so one that holds a
/// zero byte is refused here, the identifier first.
pub fn open_named<'a>(
    id: &str,
    mode: ModeFlags,
    crypt_key: Option<&'a str>,
    root_path: Option<&str>,
    expected_capacity: usize,
) -> (r: Result<Call<'a>, OpenError>)
    ensures
        match r {
            Ok(call) => {
                &&& !has_nul(encode_utf8(id@))
                &&& root_path matches Some(p) ==> !has_nul(encode_utf8(p@))
                &&& call@ == (CallModel::Open {
                    id: Some(encode_utf8(id@)),
                    mode: mode.spec_code(),
                    crypt_key: encoded(crypt_key),
                    root_path: encoded(root_path),
                    expected_capacity,
                })
            },
            Err(OpenError::Identifier(e)) => is_first_nul(encode_utf8(id@), e.position as int),
            Err(OpenError::RootPath(e)) => {
                &&& !has_nul(encode_utf8(id@))
                &&& root_path matches Some(p) && is_first_nul(encode_utf8(p@), e.position as int)
            },
        },
{
    let id = match NulTerminated::new(id) {
        Ok(id) => id,
        Err(e) => {
            return Err(OpenError::Identifier(e));
        },
    };
    let root_path = match root_path {
        Some(p) => match NulTerminated::new(p) {
            Ok(p) => Some(p),
            Err(e) => {
                return Err(OpenError::RootPath(e));
            },
        },
        None => None,
    };
    Ok(
        Call::Open {
            id: Some(id),
            mode: mode.code(),
            crypt_key: view_of(crypt_key),
            root_path,
            expected_capacity,
        },
    )
}

} // verus!
