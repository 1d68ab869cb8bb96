//! The writable memory mapping of memmap2, seen as a sequence of bytes.
use memmap2::MmapMut;
use vstd::prelude::*;

verus! {

#[verifier::external_type_specification]
#[verifier::external_body]
pub struct ExMmapMut(MmapMut);

#[verifier::external_type_specification]
#[verifier::external_body]
pub struct ExIoError(std::io::Error);

/// The bytes that a writable mapping holds, in address order.
pub uninterp spec fn mapped_bytes(m: MmapMut) -> Seq<u8>;

/// `n` zero bytes.
pub open spec fn zeros(n: nat) -> Seq<u8> {
    Seq::new(n, |i: int| 0u8)
}

/// Relies on MmapMut::map_anon: a private anonymous mapping of `len` bytes,
/// which the operating system hands out zero-filled.
#[verifier::external_body]
pub(crate) fn anon_mapping(len: usize) -> (r: Result<MmapMut, std::io::Error>)
    ensures
        r is Ok ==> mapped_bytes(r->Ok_0) == zeros(len as nat),
{
    MmapMut::map_anon(len)
}

/// Relies on MmapMut::len: the number of bytes mapped.
#[verifier::external_body]
pub(crate) fn mapping_len(m: &MmapMut) -> (r: usize)
    ensures
        r == mapped_bytes(*m).len(),
{
    m.len()
}

/// Relies on MmapMut's `Deref` to `[u8]`: the mapped bytes as a slice.
#[verifier::external_body]
pub(crate) fn mapping_slice(m: &MmapMut) -> (r: &[u8])
    ensures
        r@ == mapped_bytes(*m),
{
    &m[..]
}

/// Relies on MmapMut's `DerefMut` to `[u8]`: copies `src` over the mapped
/// bytes, which must be as many.
#[verifier::external_body]
pub(crate) fn overwrite_mapping(m: &mut MmapMut, src: &[u8])
    requires
        src@.len() == mapped_bytes(*old(m)).len(),
    ensures
        mapped_bytes(*final(m)) == src@,
{
    m.copy_from_slice(src)
}

/// Relies on MmapMut::flush: writes modified pages back to the file behind
/// the mapping; it does not change the mapped bytes.
#[verifier::external_body]
pub(crate) fn flush_mapping(m: &MmapMut) -> (r: Result<(), std::io::Error>)
    opens_invariants none
    no_unwind
{
    m.flush()
}

} // verus!
