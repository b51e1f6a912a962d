//! The parts of the `bytes` and `smallvec` crates that the chunk vector uses.
//!
//! Each item below states what the crate's source shows of the function it
//! calls: what it returns and what it does to the bytes or the handles that a
//! value holds. Nothing here is proved; the chunk vector's proofs rest on it.
use bytes::{Bytes, BytesMut};
use smallvec::SmallVec;
use vstd::prelude::*;

verus! {

/// `bytes::Bytes`, a shared handle to a run of bytes, seen only through
/// `bytes_view` and the functions below.
#[verifier::external_type_specification]
#[verifier::external_body]
pub struct ExBytes(Bytes);

/// `bytes::BytesMut`, a growable byte buffer, seen only through
/// `bytes_mut_view` and the functions below.
#[verifier::external_type_specification]
#[verifier::external_body]
pub struct ExBytesMut(BytesMut);

/// A small vector of `Bytes` handles with room for one inline, kept in a
/// private field (its parameter is bound by the `smallvec::Array` trait) and
/// reached only through `chunks_view` and the functions below.
#[verifier::external_body]
pub struct ByteChunks {
    items: SmallVec<[Bytes; 1]>,
}

impl Clone for ByteChunks {
    /// `SmallVec::clone`: a vector of clones of the same handles, which refer
    /// to the same bytes.
    #[verifier::external_body]
    fn clone(&self) -> (r: Self)
        ensures
            chunks_view(r) == chunks_view(*self),
    {
        ByteChunks { items: self.items.clone() }
    }
}

/// The bytes that a `Bytes` handle refers to.
pub uninterp spec fn bytes_view(b: Bytes) -> Seq<u8>;

/// The bytes written so far into a `BytesMut`.
pub uninterp spec fn bytes_mut_view(b: BytesMut) -> Seq<u8>;

/// What each `Bytes` handle held by the small vector refers to, in order.
pub uninterp spec fn chunks_view(v: ByteChunks) -> Seq<Seq<u8>>;

/// The most handles a small vector is given here: pushing one more may grow
/// its allocation to the next power of two of its length, whose size in bytes
/// must stay within `isize::MAX`.
pub open spec fn max_chunks() -> int {
    isize::MAX / 64
}

/// `Bytes::len`: the number of bytes the handle refers to.
#[verifier::external_body]
pub fn bytes_len(b: &Bytes) -> (r: usize)
    ensures
        r == bytes_view(*b).len(),
{
    b.len()
}

/// `Bytes::slice` over `begin..end`: a handle to those bytes of `b`.
/// The crate panics unless `begin <= end <= b.len()`.
#[verifier::external_body]
pub fn bytes_slice(b: &Bytes, begin: usize, end: usize) -> (r: Bytes)
    requires
        begin <= end <= bytes_view(*b).len(),
    ensures
        bytes_view(r) == bytes_view(*b).subrange(begin as int, end as int),
{
    b.slice(begin..end)
}

/// `Bytes::split_off`: `b` keeps `[0, at)` and the result holds `[at, len)`.
/// The crate panics if `at > len`.
#[verifier::external_body]
pub fn bytes_split_off(b: &mut Bytes, at: usize) -> (r: Bytes)
    requires
        at <= bytes_view(*old(b)).len(),
    ensures
        bytes_view(*final(b)) == bytes_view(*old(b)).subrange(0, at as int),
        bytes_view(r) == bytes_view(*old(b)).subrange(at as int, bytes_view(*old(b)).len() as int),
{
    b.split_off(at)
}

/// `Bytes::split_to`: `b` keeps `[at, len)` and the result holds `[0, at)`.
/// The crate panics if `at > len`.
#[verifier::external_body]
pub fn bytes_split_to(b: &mut Bytes, at: usize) -> (r: Bytes)
    requires
        at <= bytes_view(*old(b)).len(),
    ensures
        bytes_view(*final(b)) == bytes_view(*old(b)).subrange(at as int, bytes_view(*old(b)).len() as int),
        bytes_view(r) == bytes_view(*old(b)).subrange(0, at as int),
{
    b.split_to(at)
}

/// `Bytes::truncate`: keeps the first `len` bytes; no effect when `len` is not
/// below the current length.
#[verifier::external_body]
pub fn bytes_truncate(b: &mut Bytes, len: usize)
    ensures
        bytes_view(*final(b)) == (if len < bytes_view(*old(b)).len() {
            bytes_view(*old(b)).subrange(0, len as int)
        } else {
            bytes_view(*old(b))
        }),
{
    b.truncate(len)
}

/// `Bytes::copy_from_slice`: a new handle to a copy of `data`.
#[verifier::external_body]
pub fn bytes_copy_from_slice(data: &[u8]) -> (r: Bytes)
    ensures
        bytes_view(r) == data@,
{
    Bytes::copy_from_slice(data)
}

/// `Bytes::from_static`: a handle to the static bytes `data`.
#[verifier::external_body]
pub fn bytes_from_static(data: &'static [u8]) -> (r: Bytes)
    ensures
        bytes_view(r) == data@,
{
    Bytes::from_static(data)
}

/// `Bytes::clone`: another handle to the same bytes.
#[verifier::external_body]
pub fn bytes_clone(b: &Bytes) -> (r: Bytes)
    ensures
        bytes_view(r) == bytes_view(*b),
{
    b.clone()
}

/// `Bytes::deref`: the bytes as a slice.
#[verifier::external_body]
pub fn bytes_as_slice(b: &Bytes) -> (r: &[u8])
    ensures
        r@ == bytes_view(*b),
{
    std::ops::Deref::deref(b)
}

/// `BytesMut::with_capacity`: an empty buffer. Its `Vec` panics on a capacity
/// above `isize::MAX`.
#[verifier::external_body]
pub fn bytes_mut_with_capacity(capacity: usize) -> (r: BytesMut)
    requires
        capacity <= isize::MAX,
    ensures
        bytes_mut_view(r) == Seq::<u8>::empty(),
{
    BytesMut::with_capacity(capacity)
}

/// `BytesMut::extend_from_slice`: appends `data`. Growing past `isize::MAX`
/// bytes panics.
#[verifier::external_body]
pub fn bytes_mut_extend_from_slice(b: &mut BytesMut, data: &[u8])
    requires
        bytes_mut_view(*old(b)).len() + data@.len() <= isize::MAX,
    ensures
        bytes_mut_view(*final(b)) == bytes_mut_view(*old(b)) + data@,
{
    b.extend_from_slice(data)
}

/// `BytesMut::freeze`: an immutable handle to the same bytes.
#[verifier::external_body]
pub fn bytes_mut_freeze(b: BytesMut) -> (r: Bytes)
    ensures
        bytes_view(r) == bytes_mut_view(b),
{
    b.freeze()
}

/// `SmallVec::new`: an empty vector.
#[verifier::external_body]
pub fn chunks_new() -> (r: ByteChunks)
    ensures
        chunks_view(r) == Seq::<Seq<u8>>::empty(),
{
    ByteChunks { items: SmallVec::new() }
}

/// `SmallVec::len`: the number of handles held.
#[verifier::external_body]
pub fn chunks_len(v: &ByteChunks) -> (r: usize)
    ensures
        r == chunks_view(*v).len(),
{
    v.items.len()
}

/// `SmallVec::index`: the handle at position `i`; panics when out of bounds.
#[verifier::external_body]
pub fn chunks_index(v: &ByteChunks, i: usize) -> (r: &Bytes)
    requires
        i < chunks_view(*v).len(),
    ensures
        bytes_view(*r) == chunks_view(*v)[i as int],
{
    &v.items[i]
}

/// `SmallVec::index_mut`: a mutable reference to the handle at position `i`;
/// panics when out of bounds. What is written through it lands at `i`.
#[verifier::external_body]
pub fn chunks_index_mut(v: &mut ByteChunks, i: usize) -> (r: &mut Bytes)
    requires
        i < chunks_view(*old(v)).len(),
    ensures
        bytes_view(*r) == chunks_view(*old(v))[i as int],
        chunks_view(*final(v)) == chunks_view(*old(v)).update(i as int, bytes_view(*final(r))),
{
    &mut v.items[i]
}

/// `SmallVec::push`: appends a handle.
#[verifier::external_body]
pub fn chunks_push(v: &mut ByteChunks, b: Bytes)
    requires
        chunks_view(*old(v)).len() < max_chunks(),
    ensures
        chunks_view(*final(v)) == chunks_view(*old(v)).push(bytes_view(b)),
{
    v.items.push(b)
}

/// `SmallVec::clear`: drops every handle.
#[verifier::external_body]
pub fn chunks_clear(v: &mut ByteChunks)
    ensures
        chunks_view(*final(v)) == Seq::<Seq<u8>>::empty(),
{
    v.items.clear()
}

/// `SmallVec::truncate`: keeps the first `len` handles; no effect when `len`
/// is not below the current length.
#[verifier::external_body]
pub fn chunks_truncate(v: &mut ByteChunks, len: usize)
    ensures
        chunks_view(*final(v)) == (if len < chunks_view(*old(v)).len() {
            chunks_view(*old(v)).take(len as int)
        } else {
            chunks_view(*old(v))
        }),
{
    v.items.truncate(len)
}

/// `SmallVec::remove`: takes out the handle at position `i`, shifting the
/// later ones down; panics when out of bounds.
#[verifier::external_body]
pub fn chunks_remove(v: &mut ByteChunks, i: usize) -> (r: Bytes)
    requires
        i < chunks_view(*old(v)).len(),
    ensures
        bytes_view(r) == chunks_view(*old(v))[i as int],
        chunks_view(*final(v)) == chunks_view(*old(v)).remove(i as int),
{
    v.items.remove(i)
}

} // verus!
