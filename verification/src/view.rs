//! Bytes on their way to the engine: borrowed views, which cost nothing, and
//! terminated buffers for the arguments that the engine reads up to a zero
//! byte.

use vstd::prelude::*;
use vstd::slice::slice_to_vec;
use vstd::utf8::encode_utf8;

verus! {

/// A borrowed run of bytes: where they start and how many there are.
///
/// The view copies nothing, and the lifetime `'a` keeps it from outliving
/// the buffer it points into.
#[derive(Clone, Copy, Debug)]
pub struct StringView<'a> {
    bytes: &'a [u8],
}

impl<'a> View for StringView<'a> {
    type V = Seq<u8>;

    /// The bytes that the view points at.
    closed spec fn view(&self) -> Seq<u8> {
        self.bytes@
    }
}

impl<'a> StringView<'a> {
    /// A view of the bytes of `s`.
    pub fn new(s: &'a str) -> (v: Self)
        ensures
            v@ == encode_utf8(s@),
    {
        StringView { bytes: s.as_bytes() }
    }

    /// A view of `bytes`.
    pub fn from_bytes(bytes: &'a [u8]) -> (v: Self)
        ensures
            v@ == bytes@,
    {
        StringView { bytes }
    }

    /// The bytes behind the view, for as long as the buffer lives.
    pub fn as_bytes(self) -> (bytes: &'a [u8])
        ensures
            bytes@ == self@,
    {
        self.bytes
    }

    /// The number of bytes in view.
    pub fn len(&self) -> (n: usize)
        ensures
            n == self@.len(),
    {
        self.bytes.len()
    }

    /// A copy of the bytes that is the caller's own.
    pub fn to_vec(&self) -> (bytes: Vec<u8>)
        ensures
            bytes@ == self@,
    {
        slice_to_vec(self.bytes)
    }
}

impl<'a> std::ops::Deref for StringView<'a> {
    type Target = [u8];

    /// The bytes behind the view.
    fn deref(&self) -> (bytes: &[u8])
        ensures
            bytes@ == self@,
    {
        self.bytes
    }
}

/// `i` is the place of the first zero byte of `bytes`.
pub open spec fn is_first_nul(bytes: Seq<u8>, i: int) -> bool {
    &&& 0 <= i < bytes.len()
    &&& bytes[i] == 0
    &&& forall|j: int| 0 <= j < i ==> bytes[j] != 0
}

/// `bytes` holds a zero byte.
pub open spec fn has_nul(bytes: Seq<u8>) -> bool {
    exists|i: int| 0 <= i < bytes.len() && bytes[i] == 0
}

/// The place of the first zero byte of `bytes`, if it holds one.
pub fn find_nul(bytes: &[u8]) -> (r: Option<usize>)
    ensures
        match r {
            Some(i) => is_first_nul(bytes@, i as int),
            None => !has_nul(bytes@),
        },
{
    let mut i: usize = 0;
    while i < bytes.len()
        invariant
            i <= bytes@.len(),
            forall|j: int| 0 <= j < i ==> bytes@[j] != 0,
        decreases bytes@.len() - i,
    {
        if bytes[i] == 0 {
            return Some(i);
        }
        i += 1;
    }
    None
}

/// A string was to be handed over in a terminated buffer and holds a zero
/// byte itself, at `position`: the engine would have read it short.
#[derive(Clone, Copy, Debug, PartialEq, Eq, Structural)]
pub struct NulError {
    pub position: usize,
}

/// An owned buffer that ends in a zero byte and holds no other: the form in
/// which the engine takes identifiers and paths.
#[derive(Debug)]
pub struct NulTerminated {
    buf: Vec<u8>,
}

impl View for NulTerminated {
    type V = Seq<u8>;

    /// The text, without the byte that ends it.
    closed spec fn view(&self) -> Seq<u8> {
        self.buf@.drop_last()
    }
}

impl NulTerminated {
    #[verifier::type_invariant]
    spec fn well_formed(&self) -> bool {
        &&& self.buf@.len() >= 1
        &&& self.buf@.last() == 0
        &&& !has_nul(self.buf@.drop_last())
    }

    /// The bytes of `s` with a zero byte behind them, or the place of the
    /// first zero byte in `s` where it holds one.
    pub fn new(s: &str) -> (r: Result<NulTerminated, NulError>)
        ensures
            match r {
                Ok(buffer) => buffer@ == encode_utf8(s@) && !has_nul(encode_utf8(s@)),
                Err(e) => is_first_nul(encode_utf8(s@), e.position as int),
            },
    {
        let bytes = s.as_bytes();
        match find_nul(bytes) {
            Some(position) => Err(NulError { position }),
            None => {
                let mut buf = slice_to_vec(bytes);
                buf.push(0);
                assert(buf@.drop_last() =~= bytes@);
                Ok(NulTerminated { buf })
            },
        }
    }

    /// The text, without the byte that ends it.
    pub fn text(&self) -> (bytes: &[u8])
        ensures
            bytes@ == self@,
            !has_nul(self@),
    {
        proof {
            use_type_invariant(self);
        }
        vstd::slice::slice_subrange(self.buf.as_slice(), 0, self.buf.len() - 1)
    }

    /// The whole buffer, as the engine reads it: the text, then a zero byte.
    pub fn as_bytes_with_nul(&self) -> (bytes: &[u8])
        ensures
            bytes@ == self@.push(0),
            !has_nul(self@),
    {
        proof {
            use_type_invariant(self);
        }
        self.buf.as_slice()
    }
}

} // verus!
