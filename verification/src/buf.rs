//! Buffer primitives that cross the native/JS boundary.
//!
//! A `deno_buf` stands for a borrowed byte slice handed to or from the
//! engine: it is either null (no buffer at all) or a run of bytes.  Its view
//! is `Option<Seq<u8>>`, `None` for the null buffer.  A `PinnedBuf` stands
//! for a typed-array view into an engine `ArrayBuffer` whose backing store is
//! kept alive while the host holds it; its view is the byte contents.

use vstd::prelude::*;

verus! {

/// A borrowed byte buffer.  The null buffer (`empty`) and a zero-length
/// buffer are distinct: an asynchronous response with a null buffer invokes
/// the JS receiver with no arguments at all.
#[allow(non_camel_case_types)]
pub struct deno_buf {
    present: bool,
    bytes: Vec<u8>,
}

impl View for deno_buf {
    type V = Option<Seq<u8>>;

    closed spec fn view(&self) -> Option<Seq<u8>> {
        if self.present {
            Some(self.bytes@)
        } else {
            None
        }
    }
}

impl deno_buf {
    #[verifier::type_invariant]
    spec fn inv(self) -> bool {
        !self.present ==> self.bytes@.len() == 0
    }

    /// The bytes this buffer denotes: none at all for the null buffer.
    pub open spec fn spec_bytes(&self) -> Seq<u8> {
        match self@ {
            Some(s) => s,
            None => Seq::empty(),
        }
    }

    /// The null buffer.
    pub fn empty() -> (r: Self)
        ensures
            r@ is None,
    {
        deno_buf { present: false, bytes: Vec::new() }
    }

    /// A buffer over the given bytes (never null, even when `bytes` is empty).
    pub fn from_vec(bytes: Vec<u8>) -> (r: Self)
        ensures
            r@ == Some(bytes@),
    {
        deno_buf { present: true, bytes }
    }

    /// Whether this is the null buffer.
    pub fn is_null(&self) -> (r: bool)
        ensures
            r == (self@ is None),
    {
        !self.present
    }

    pub fn len(&self) -> (r: usize)
        ensures
            r == self.spec_bytes().len(),
    {
        if self.present {
            self.bytes.len()
        } else {
            0
        }
    }

    /// The bytes carried: empty for the null buffer.
    pub fn bytes(&self) -> (r: &Vec<u8>)
        ensures
            r@ == self.spec_bytes(),
    {
        proof {
            use_type_invariant(self);
        }
        if !self.present {
            assert(self.bytes@ =~= Seq::<u8>::empty());
        }
        &self.bytes
    }
}

/// A byte buffer lent out of an engine-owned `ArrayBuffer` backing store.
/// While the host holds it, the store cannot be collected and the host has
/// exclusive read/write access; it is single-owner and not cloneable.
pub struct PinnedBuf {
    bytes: Vec<u8>,
}

impl View for PinnedBuf {
    type V = Seq<u8>;

    closed spec fn view(&self) -> Seq<u8> {
        self.bytes@
    }
}

impl PinnedBuf {
    /// Pin the given view contents.
    pub fn new(bytes: Vec<u8>) -> (r: Self)
        ensures
            r@ == bytes@,
    {
        PinnedBuf { bytes }
    }

    /// Read access to the pinned bytes.
    pub fn as_bytes(&self) -> (r: &Vec<u8>)
        ensures
            r@ == self@,
    {
        &self.bytes
    }

    /// Exclusive write access to the pinned bytes.
    pub fn as_bytes_mut(&mut self) -> (r: &mut Vec<u8>)
        ensures
            r@ == old(self)@,
            final(self)@ == final(r)@,
    {
        &mut self.bytes
    }
}

} // verus!
