//! The handle wrapper: owns-or-borrows a heap handle plus a byte length,
//! exposes the referenced bytes, decodes them under two encodings, and
//! releases the underlying block on destruction exactly when it owns it.

use vstd::prelude::*;
use vstd::slice::slice_subrange;
use vstd::utf8::{decode_utf8, valid_utf8};

use crate::codec::{fault_describes, from_utf8_checked, legacy_decode, legacy_decoding, Utf8Fault};
use crate::heap::GlobalHeap;

verus! {

/// A failure while decoding the bytes behind a [`GStr`].
#[derive(Clone, Copy, Debug, PartialEq, Eq)]
pub enum GStrError {
    /// The bytes have no valid reading under the legacy codepage.
    AnsiEncode,
    /// The bytes are not valid UTF-8; the payload locates the first invalid
    /// sequence.
    Utf8Error(Utf8Fault),
}

impl From<Utf8Fault> for GStrError {
    fn from(fault: Utf8Fault) -> (r: GStrError) {
        GStrError::Utf8Error(fault)
    }
}

impl vstd::std_specs::convert::FromSpecImpl<Utf8Fault> for GStrError {
    open spec fn obeys_from_spec() -> bool {
        true
    }

    open spec fn from_spec(fault: Utf8Fault) -> GStrError {
        GStrError::Utf8Error(fault)
    }
}

/// A wrapper over a heap handle and a byte length.
///
/// The wrapper either owns the underlying block (and then [`GStr::release`]
/// frees it) or merely borrows it. It cannot be copied; a second wrapper over
/// fresh memory can only be made by an explicit clone of the bytes, so at most
/// one release per handle ever goes through a given wrapper.
pub struct GStr {
    h: usize,
    len: usize,
    has_free: bool,
}

impl GStr {
    /// The wrapped handle.
    pub closed spec fn spec_handle(&self) -> int {
        self.h as int
    }

    /// The byte length the wrapper was constructed with.
    pub closed spec fn spec_len(&self) -> nat {
        self.len as nat
    }

    /// Whether releasing this wrapper frees the underlying block.
    pub closed spec fn spec_owns(&self) -> bool {
        self.has_free
    }

    /// The wrapper is well formed against `heap` when its handle is live
    /// there and the block carries at least `spec_len` bytes.
    pub open spec fn wf(&self, heap: GlobalHeap) -> bool {
        &&& heap@.contains_key(self.spec_handle())
        &&& self.spec_len() <= heap@[self.spec_handle()].len()
    }

    /// The bytes this wrapper refers to: the first `spec_len` bytes of its
    /// block.
    pub open spec fn contents(&self, heap: GlobalHeap) -> Seq<u8> {
        heap@[self.spec_handle()].subrange(0, self.spec_len() as int)
    }

    /// Wraps an existing handle whose ownership the caller transfers in; the
    /// result owns the block and will free it on release.
    ///
    /// No allocation, copy, or validation happens here. The caller is
    /// responsible for the handle being live with at least `len` bytes before
    /// the bytes are read through the wrapper, and for no other owner
    /// releasing it.
    pub fn capture(h: usize, len: usize) -> (r: GStr)
        ensures
            r.spec_handle() == h as int,
            r.spec_len() == len as nat,
            r.spec_owns(),
    {
        GStr { h, len, has_free: true }
    }

    /// Allocates a fresh block of exactly `bytes.len()` bytes on `heap`,
    /// copies `bytes` into it, and wraps the new handle with the given
    /// ownership flag. No previously live handle is disturbed.
    fn clone_from_slice_impl(heap: &mut GlobalHeap, bytes: &[u8], has_free: bool) -> (r: GStr)
        ensures
            !old(heap)@.contains_key(r.spec_handle()),
            final(heap)@ == old(heap)@.insert(r.spec_handle(), bytes@),
            r.spec_len() == bytes@.len(),
            r.spec_owns() == has_free,
            r.wf(*final(heap)),
            r.contents(*final(heap)) == bytes@,
    {
        let len = bytes.len();
        let h = heap.allocate(len);
        proof {
            assert(Seq::new(len as nat, |j: int| 0u8) =~= Seq::new(
                len as nat,
                |j: int| if j < 0 { bytes@[j] } else { 0u8 },
            ));
        }
        let mut i: usize = 0;
        while i < len
            invariant
                i <= len,
                len == bytes@.len(),
                heap@ == old(heap)@.insert(
                    h as int,
                    (Seq::new(len as nat, |j: int| if j < i { bytes@[j] } else { 0u8 })),
                ),
            decreases len - i,
        {
            let ghost before = heap@[h as int];
            heap.store(h, i, bytes[i]);
            proof {
                assert(before.update(i as int, bytes@[i as int]) =~= Seq::new(
                    len as nat,
                    |j: int| if j < i + 1 { bytes@[j] } else { 0u8 },
                ));
            }
            i += 1;
        }
        proof {
            assert(Seq::new(len as nat, |j: int| if j < len { bytes@[j] } else { 0u8 })
                =~= bytes@);
            assert(heap@[h as int].subrange(0, len as int) =~= bytes@);
        }
        GStr { h, len, has_free }
    }

    /// Clones `bytes` into a fresh block and wraps it without taking
    /// ownership: releasing the result leaves the block alive, for hand-off
    /// to a receiver that frees it through its own protocol.
    pub fn clone_from_slice_nofree(heap: &mut GlobalHeap, bytes: &[u8]) -> (r: GStr)
        ensures
            !old(heap)@.contains_key(r.spec_handle()),
            final(heap)@ == old(heap)@.insert(r.spec_handle(), bytes@),
            r.spec_len() == bytes@.len(),
            !r.spec_owns(),
            r.wf(*final(heap)),
            r.contents(*final(heap)) == bytes@,
    {
        GStr::clone_from_slice_impl(heap, bytes, false)
    }

    /// A read-only view of exactly `spec_len` bytes backed by the block.
    pub fn to_bytes<'a>(&self, heap: &'a GlobalHeap) -> (r: &'a [u8])
        requires
            self.wf(*heap),
        ensures
            r@ == self.contents(*heap),
    {
        let block = heap.block(self.h);
        slice_subrange(block, 0, self.len)
    }

    /// The underlying handle, without transferring ownership.
    pub fn handle(&self) -> (r: usize)
        ensures
            r as int == self.spec_handle(),
    {
        self.h
    }

    /// The byte length the wrapper was constructed with.
    pub fn len(&self) -> (r: usize)
        ensures
            r as nat == self.spec_len(),
    {
        self.len
    }

    /// Reads the bytes as legacy-codepage text and converts them to an owned
    /// string; fails with [`GStrError::AnsiEncode`] exactly when the bytes
    /// have no valid reading under the codepage.
    pub fn to_ansi_str(&self, heap: &GlobalHeap) -> (r: Result<String, GStrError>)
        requires
            self.wf(*heap),
        ensures
            match r {
                Ok(s) => legacy_decoding(self.contents(*heap)) == Some(s@),
                Err(e) => e == GStrError::AnsiEncode && legacy_decoding(
                    self.contents(*heap),
                ) is None,
            },
    {
        let bytes = self.to_bytes(heap);
        match legacy_decode(bytes) {
            Some(s) => Ok(s),
            None => Err(GStrError::AnsiEncode),
        }
    }

    /// Reads the bytes as UTF-8 and returns a borrowed text view of them,
    /// zero-copy; fails with [`GStrError::Utf8Error`] exactly when the bytes
    /// are not valid UTF-8, locating the first invalid sequence.
    pub fn to_utf8_str<'a>(&self, heap: &'a GlobalHeap) -> (r: Result<&'a str, GStrError>)
        requires
            self.wf(*heap),
        ensures
            match r {
                Ok(s) => valid_utf8(self.contents(*heap)) && s@ == decode_utf8(
                    self.contents(*heap),
                ),
                Err(e) => !valid_utf8(self.contents(*heap)) && (e matches GStrError::Utf8Error(f)
                    && fault_describes(f, self.contents(*heap))),
            },
    {
        let bytes = self.to_bytes(heap);
        match from_utf8_checked(bytes) {
            Ok(s) => Ok(s),
            Err(fault) => Err(GStrError::from(fault)),
        }
    }

    /// Destroys the wrapper. An owning wrapper frees its block, exactly once:
    /// the wrapper is consumed, so no second release can go through it. A
    /// non-owning wrapper leaves the heap untouched. Either way every other
    /// live handle keeps its block unchanged.
    pub fn release(self, heap: &mut GlobalHeap)
        requires
            self.spec_owns() ==> old(heap)@.contains_key(self.spec_handle()),
        ensures
            self.spec_owns() ==> final(heap)@ == old(heap)@.remove(self.spec_handle()),
            !self.spec_owns() ==> final(heap)@ == old(heap)@,
    {
        if self.has_free {
            heap.free(self.h);
        }
    }
}

} // verus!
