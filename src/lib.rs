//! A single value of a caller-chosen type, held in a writable memory mapping.
//!
//! The verified part of the library models the mapping as the sequence of bytes
//! it holds: a cell owns exactly `size_of::<T>()` bytes, a fresh anonymous cell
//! holds zeros, and storing a value's image replaces those bytes with it.
use memmap2::MmapMut;
use std::marker::PhantomData;
use vstd::layout::size_of;
use vstd::prelude::*;

mod mapping;

use mapping::{anon_mapping, flush_mapping, mapping_len, mapping_slice, overwrite_mapping};
pub use mapping::{mapped_bytes, zeros};

verus! {

/// A value of type `T` whose bytes live in a writable memory mapping.
///
/// `T` is expected to have a fixed layout (`#[repr(C)]`, or
/// `#[repr(transparent)]` around one field): the mapping is its raw image.
pub struct MmapCell<T> {
    raw: MmapMut,
    _inner: PhantomData<T>,
}

impl<T> MmapCell<T> {
    /// The bytes of the mapping, in address order.
    pub closed spec fn bytes(&self) -> Seq<u8> {
        mapped_bytes(self.raw)
    }

    /// The mapping holds exactly as many bytes as a `T` takes.
    pub open spec fn wf(&self) -> bool {
        self.bytes().len() == size_of::<T>()
    }

    /// Wraps a mapping that is already as long as a `T`.
    pub fn new(m: MmapMut) -> (r: MmapCell<T>)
        requires
            mapped_bytes(m).len() == size_of::<T>(),
        ensures
            r.wf(),
            r.bytes() == mapped_bytes(m),
    {
        MmapCell { raw: m, _inner: PhantomData }
    }

    /// Wraps a mapping when it is exactly as long as a `T`, and hands it back
    /// unchanged otherwise.
    pub fn from_mapping(m: MmapMut) -> (r: Result<MmapCell<T>, MmapMut>)
        ensures
            r is Ok <==> mapped_bytes(m).len() == size_of::<T>(),
            r is Ok ==> r->Ok_0.wf() && r->Ok_0.bytes() == mapped_bytes(m),
            r is Err ==> r->Err_0 == m,
    {
        if mapping_len(&m) == core::mem::size_of::<T>() {
            Ok(MmapCell::new(m))
        } else {
            Err(m)
        }
    }

    /// A fresh anonymous mapping of `size_of::<T>()` bytes, all of them zero.
    pub fn new_anon() -> (r: Result<MmapCell<T>, std::io::Error>)
        ensures
            r is Ok ==> r->Ok_0.wf() && r->Ok_0.bytes() == zeros(size_of::<T>()),
    {
        let m = anon_mapping(core::mem::size_of::<T>())?;
        Ok(MmapCell::new(m))
    }

    /// The bytes of the value, read in place.
    pub fn as_bytes(&self) -> (r: &[u8])
        ensures
            r@ == self.bytes(),
    {
        mapping_slice(&self.raw)
    }

    /// Replaces the value by the one whose image is `v`; reading afterwards
    /// gives back exactly `v`.
    pub fn store(&mut self, v: &[u8])
        requires
            old(self).wf(),
            v@.len() == size_of::<T>(),
        ensures
            final(self).wf(),
            final(self).bytes() == v@,
    {
        overwrite_mapping(&mut self.raw, v);
    }

    /// Writes pending changes back to the file behind the mapping, reporting
    /// the operating system's error; for an anonymous mapping it does nothing
    /// that can be observed.
    pub fn flush(&self) -> (r: Result<(), std::io::Error>)
        opens_invariants none
        no_unwind
    {
        flush_mapping(&self.raw)
    }
}

impl<T> Drop for MmapCell<T> {
    /// Flushes on the way out; an error here has nobody to go to and is
    /// dropped.
    fn drop(&mut self)
        opens_invariants none
        no_unwind
    {
        let _ = self.flush();
    }
}

} // verus!
