//! A disk image held in memory.
//!
//! Reads and writes at an offset are cut short at the end of the image and
//! return how many bytes they covered.
use std::io::Error;
use vstd::prelude::*;

verus! {

/// `std::io::Error`, the error type of the image interface, carried as is.
/// The in-memory image never returns one.
#[verifier::external_type_specification]
#[verifier::external_body]
pub struct ExIoError(Error);

/// How many bytes an access of `len` bytes at `offset` covers in an image of
/// `size` bytes: `len`, cut at the end of the image.
pub open spec fn covered(size: int, offset: int, len: int) -> int {
    if offset + len > size {
        size - offset
    } else {
        len
    }
}

/// The image `contents` after writing the first `n` bytes of `data` at `offset`.
pub open spec fn written(contents: Seq<u8>, offset: int, data: Seq<u8>, n: int) -> Seq<u8> {
    contents.subrange(0, offset) + data.subrange(0, n) + contents.subrange(offset + n, contents.len() as int)
}

/// What is known of an image.
pub struct ImageStat {
    size: usize,
}

impl ImageStat {
    /// The image's size in bytes.
    pub closed spec fn size(self) -> usize {
        self.size
    }
}

/// An image of fixed size held in memory.
pub struct MemImage {
    size: usize,
    buf: Vec<u8>,
}

impl View for MemImage {
    type V = Seq<u8>;

    /// The bytes of the image.
    closed spec fn view(&self) -> Seq<u8> {
        self.buf@
    }
}

impl MemImage {
    /// The image's size in bytes.
    pub closed spec fn size(self) -> usize {
        self.size
    }

    /// The image holds exactly `size` bytes.
    pub open spec fn wf(self) -> bool {
        self@.len() == self.size()
    }

    /// An image of `size` zero bytes. It never fails.
    pub fn new(size: usize) -> (r: Result<Self, Error>)
        requires
            size <= isize::MAX,
        ensures
            r is Ok,
            r matches Ok(img) ==> img.wf() && img.size() == size && img@ == Seq::new(
                size as nat,
                |i: int| 0u8,
            ),
    {
        let mut buf: Vec<u8> = Vec::with_capacity(size);
        let mut i: usize = 0;
        while i < size
            invariant
                i <= size,
                buf@ == Seq::new(i as nat, |j: int| 0u8),
            decreases size - i,
        {
            buf.push(0);
            i = i + 1;
        }
        Ok(Self { size, buf })
    }

    /// The image's size.
    pub fn stat(&self) -> (r: ImageStat)
        ensures
            r.size() == self.size(),
    {
        ImageStat { size: self.size }
    }

    /// Reads into `buf` from `offset`, up to the end of the image; returns how
    /// many bytes were read, which fill the start of `buf`.
    pub fn read(&self, offset: usize, buf: &mut [u8]) -> (r: Result<usize, Error>)
        requires
            self.wf(),
            offset <= self.size(),
            offset + old(buf)@.len() <= usize::MAX,
        ensures
            r matches Ok(n) && n == covered(self.size() as int, offset as int, old(buf)@.len() as int),
            r matches Ok(n) && (offset + old(buf)@.len() <= self.size() ==> n == old(buf)@.len()),
            r matches Ok(n) && (offset + old(buf)@.len() > self.size() ==> n == self.size() - offset),
            final(buf)@.len() == old(buf)@.len(),
            ({
                let n = covered(self.size() as int, offset as int, old(buf)@.len() as int);
                &&& final(buf)@.subrange(0, n) == self@.subrange(offset as int, offset + n)
                &&& final(buf)@.subrange(n, old(buf)@.len() as int) == old(buf)@.subrange(n, old(buf)@.len() as int)
            }),
    {
        let mut length = buf.len();
        if offset + length > self.size {
            length = self.size - offset;
        }
        let mut i: usize = 0;
        while i < length
            invariant
                self.wf(),
                i <= length,
                offset + length <= self.size(),
                length <= old(buf)@.len(),
                buf@.len() == old(buf)@.len(),
                forall|j: int| 0 <= j < i ==> buf@[j] == self@[offset + j],
                forall|j: int| length <= j < buf@.len() ==> buf@[j] == old(buf)@[j],
            decreases length - i,
        {
            buf[i] = self.buf[offset + i];
            i = i + 1;
        }
        assert(buf@.subrange(0, length as int) =~= self@.subrange(offset as int, offset + length));
        assert(buf@.subrange(length as int, buf@.len() as int) =~= old(buf)@.subrange(length as int, old(buf)@.len() as int));
        Ok(length)
    }

    /// Writes `buf` at `offset`, up to the end of the image; returns how many
    /// bytes were written.
    pub fn write(&mut self, offset: usize, buf: &[u8]) -> (r: Result<usize, Error>)
        requires
            old(self).wf(),
            offset <= old(self).size(),
            offset + buf@.len() <= usize::MAX,
        ensures
            final(self).wf(),
            final(self).size() == old(self).size(),
            r matches Ok(n) && n == covered(old(self).size() as int, offset as int, buf@.len() as int),
            r matches Ok(n) && (offset + buf@.len() <= old(self).size() ==> n == buf@.len()),
            r matches Ok(n) && (offset + buf@.len() > old(self).size() ==> n == old(self).size() - offset),
            final(self)@ == written(
                old(self)@,
                offset as int,
                buf@,
                covered(old(self).size() as int, offset as int, buf@.len() as int),
            ),
    {
        let mut length = buf.len();
        if offset + length > self.size {
            length = self.size - offset;
        }
        let mut i: usize = 0;
        while i < length
            invariant
                self.wf(),
                self.size() == old(self).size(),
                i <= length,
                offset + length <= self.size(),
                length <= buf@.len(),
                self@.len() == old(self)@.len(),
                forall|j: int| offset <= j < offset + i ==> self@[j] == buf@[j - offset],
                forall|j: int| 0 <= j < offset || offset + i <= j < self@.len() ==> self@[j] == old(self)@[j],
            decreases length - i,
        {
            self.buf.set(offset + i, buf[i]);
            i = i + 1;
        }
        assert(self@ =~= written(old(self)@, offset as int, buf@, length as int));
        Ok(length)
    }

    /// Zeroes `length` bytes at `offset`, up to the end of the image; returns
    /// how many bytes were zeroed.
    pub fn write_zero(&mut self, offset: usize, length: usize) -> (r: Result<usize, Error>)
        requires
            old(self).wf(),
            offset <= old(self).size(),
            offset + length <= usize::MAX,
        ensures
            final(self).wf(),
            final(self).size() == old(self).size(),
            r matches Ok(n) && n == covered(old(self).size() as int, offset as int, length as int),
            r matches Ok(n) && (offset + length <= old(self).size() ==> n == length),
            r matches Ok(n) && (offset + length > old(self).size() ==> n == old(self).size() - offset),
            final(self)@ == written(
                old(self)@,
                offset as int,
                Seq::new(length as nat, |i: int| 0u8),
                covered(old(self).size() as int, offset as int, length as int),
            ),
    {
        let mut length = length;
        if offset + length > self.size {
            length = self.size - offset;
        }
        let mut i: usize = 0;
        while i < length
            invariant
                self.wf(),
                self.size() == old(self).size(),
                i <= length,
                offset + length <= self.size(),
                self@.len() == old(self)@.len(),
                forall|j: int| offset <= j < offset + i ==> self@[j] == 0u8,
                forall|j: int| 0 <= j < offset || offset + i <= j < self@.len() ==> self@[j] == old(self)@[j],
            decreases length - i,
        {
            self.buf.set(offset + i, 0);
            i = i + 1;
        }
        assert(self@ =~= written(old(self)@, offset as int, Seq::new(length as nat, |i: int| 0u8), length as int));
        Ok(length)
    }

    /// Nothing is buffered: always succeeds.
    pub fn flush(&self) -> (r: Result<(), Error>)
        ensures
            r is Ok,
    {
        Ok(())
    }

    /// Discards `length` bytes at `offset`, up to the end of the image: they
    /// read back as zeroes.
    pub fn trim(&mut self, offset: usize, length: usize) -> (r: Result<(), Error>)
        requires
            old(self).wf(),
            offset <= old(self).size(),
            offset + length <= usize::MAX,
        ensures
            final(self).wf(),
            final(self).size() == old(self).size(),
            r is Ok,
            offset + length <= old(self).size() ==> final(self)@ == written(
                old(self)@,
                offset as int,
                Seq::new(length as nat, |i: int| 0u8),
                length as int,
            ),
            final(self)@ == written(
                old(self)@,
                offset as int,
                Seq::new(length as nat, |i: int| 0u8),
                covered(old(self).size() as int, offset as int, length as int),
            ),
    {
        let _ = self.write_zero(offset, length)?;
        Ok(())
    }
}

/// An access covers all its bytes when it lies inside the image, and runs
/// exactly to the image's end otherwise: the smaller of `len` and
/// `size - offset`.
pub proof fn lemma_covered_is_min(size: int, offset: int, len: int)
    requires
        0 <= offset <= size,
        0 <= len,
    ensures
        0 <= covered(size, offset, len) <= len,
        offset + covered(size, offset, len) <= size,
        covered(size, offset, len) == len || offset + covered(size, offset, len) == size,
        offset + len <= size ==> covered(size, offset, len) == len,
        offset + len > size ==> covered(size, offset, len) == size - offset,
{
}

/// Reading back what was written at an offset gives the bytes written, and
/// the rest of the image is untouched.
pub proof fn lemma_read_after_write(contents: Seq<u8>, offset: int, data: Seq<u8>)
    requires
        0 <= offset <= contents.len(),
    ensures
        ({
            let n = covered(contents.len() as int, offset, data.len() as int);
            let after = written(contents, offset, data, n);
            &&& 0 <= n <= data.len()
            &&& after.len() == contents.len()
            &&& after.subrange(offset, offset + n) == data.subrange(0, n)
            &&& after.subrange(0, offset) == contents.subrange(0, offset)
            &&& after.subrange(offset + n, after.len() as int) == contents.subrange(offset + n, contents.len() as int)
        }),
{
    let n = covered(contents.len() as int, offset, data.len() as int);
    let after = written(contents, offset, data, n);
    assert(after.subrange(offset, offset + n) =~= data.subrange(0, n));
    assert(after.subrange(0, offset) =~= contents.subrange(0, offset));
    assert(after.subrange(offset + n, after.len() as int) =~= contents.subrange(offset + n, contents.len() as int));
}

} // verus!
