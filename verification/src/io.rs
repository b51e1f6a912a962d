//! A byte buffer kept as a list of shared `Bytes` chunks.
//!
//! The data of a `BytesVec` is its chunks laid end to end. Splitting,
//! truncating and slicing work on the chunk handles and copy no bytes.
use crate::buffers::{
    bytes_as_slice, bytes_clone, bytes_copy_from_slice, bytes_from_static, bytes_len,
    bytes_mut_extend_from_slice, bytes_mut_freeze, bytes_mut_view, bytes_mut_with_capacity,
    bytes_slice, bytes_split_off, bytes_split_to, bytes_truncate, bytes_view, chunks_clear,
    chunks_index, chunks_index_mut, chunks_len, chunks_new, chunks_push, chunks_remove,
    chunks_truncate, chunks_view, max_chunks, ByteChunks,
};
use bytes::Bytes;
use vstd::prelude::*;

verus! {

/// The chunks of `chunks` laid end to end.
pub open spec fn flatten(chunks: Seq<Seq<u8>>) -> Seq<u8>
    decreases chunks.len(),
{
    if chunks.len() == 0 {
        Seq::empty()
    } else {
        flatten(chunks.drop_last()) + chunks.last()
    }
}

/// Where chunk `i` of `chunks` starts in the data.
pub open spec fn chunk_start(chunks: Seq<Seq<u8>>, i: int) -> int {
    flatten(chunks.take(i)).len() as int
}

/// Appending a chunk appends its bytes to the data.
pub proof fn lemma_flatten_push(s: Seq<Seq<u8>>, c: Seq<u8>)
    ensures
        flatten(s.push(c)) == flatten(s) + c,
{
    assert(s.push(c).drop_last() =~= s);
}

/// The data of two chunk lists one after the other is their data one after the other.
pub proof fn lemma_flatten_concat(a: Seq<Seq<u8>>, b: Seq<Seq<u8>>)
    ensures
        flatten(a + b) == flatten(a) + flatten(b),
    decreases b.len(),
{
    if b.len() == 0 {
        assert(a + b =~= a);
        assert(flatten(a) + flatten(b) =~= flatten(a));
    } else {
        lemma_flatten_concat(a, b.drop_last());
        assert((a + b).drop_last() =~= a + b.drop_last());
        assert((a + b).last() == b.last());
        assert(flatten(a) + flatten(b) =~= flatten(a) + flatten(b.drop_last()) + b.last());
    }
}

/// The data of a single chunk is that chunk.
pub proof fn lemma_flatten_single(c: Seq<u8>)
    ensures
        flatten(seq![c]) == c,
{
    assert(seq![c].drop_last() =~= Seq::<Seq<u8>>::empty());
    assert(flatten(Seq::<Seq<u8>>::empty()) == Seq::<u8>::empty());
    assert(Seq::<u8>::empty() + c =~= c);
}

/// The data splits at the start of chunk `i` into the chunks before and after.
pub proof fn lemma_flatten_split(s: Seq<Seq<u8>>, i: int)
    requires
        0 <= i <= s.len(),
    ensures
        flatten(s) == flatten(s.take(i)) + flatten(s.skip(i)),
{
    lemma_flatten_concat(s.take(i), s.skip(i));
    assert(s.take(i) + s.skip(i) =~= s);
}

/// Around chunk `i`: the chunks before it, the chunk, and the chunks after it.
pub proof fn lemma_flatten_around(s: Seq<Seq<u8>>, i: int)
    requires
        0 <= i < s.len(),
    ensures
        flatten(s.take(i + 1)) == flatten(s.take(i)) + s[i],
        flatten(s.skip(i)) == s[i] + flatten(s.skip(i + 1)),
        flatten(s) == flatten(s.take(i)) + s[i] + flatten(s.skip(i + 1)),
{
    assert(s.take(i + 1) =~= s.take(i).push(s[i]));
    lemma_flatten_push(s.take(i), s[i]);
    assert(s.skip(i) =~= seq![s[i]] + s.skip(i + 1));
    lemma_flatten_concat(seq![s[i]], s.skip(i + 1));
    lemma_flatten_single(s[i]);
    lemma_flatten_split(s, i);
    assert(flatten(s.take(i)) + s[i] + flatten(s.skip(i + 1)) =~= flatten(s.take(i)) + (s[i]
        + flatten(s.skip(i + 1))));
}

/// Chunk `i` is the first chunk of `chunks` that ends after position `at`:
/// the chunk that `at` falls in, empty chunks before it passed over.
pub open spec fn is_cut_chunk(chunks: Seq<Seq<u8>>, at: int, i: int) -> bool {
    &&& 0 <= i < chunks.len()
    &&& chunk_start(chunks, i) + chunks[i].len() > at
    &&& forall|j: int| 0 <= j < i ==> #[trigger] chunk_start(chunks, j) + chunks[j].len() <= at
}

/// The chunks before position `at`, where `at` falls in chunk `i`: the
/// chunks before `i` and the part of chunk `i` before `at`.
pub open spec fn head_chunks(chunks: Seq<Seq<u8>>, at: int, i: int) -> Seq<Seq<u8>> {
    chunks.take(i).push(chunks[i].subrange(0, at - chunk_start(chunks, i)))
}

/// The chunks from position `at` on, where `at` falls in chunk `i`: the part
/// of chunk `i` from `at`, and the chunks after `i`.
pub open spec fn tail_chunks(chunks: Seq<Seq<u8>>, at: int, i: int) -> Seq<Seq<u8>> {
    seq![chunks[i].subrange(at - chunk_start(chunks, i), chunks[i].len() as int)] + chunks.skip(i + 1)
}

/// The cut chunk of a position, where there is one, is unique.
pub proof fn lemma_cut_chunk_unique(chunks: Seq<Seq<u8>>, at: int, i: int)
    requires
        is_cut_chunk(chunks, at, i),
    ensures
        forall|k: int| #[trigger] is_cut_chunk(chunks, at, k) ==> k == i,
{
    assert forall|k: int| #[trigger] is_cut_chunk(chunks, at, k) implies k == i by {
        if k < i {
            assert(chunk_start(chunks, k) + chunks[k].len() <= at);
        } else if k > i {
            assert(chunk_start(chunks, i) + chunks[i].len() <= at);
        }
    }
}

/// One end of a range of positions, as `std::ops::Bound` gives it.
#[derive(Debug, Clone, Copy, PartialEq, Eq)]
pub enum Bound {
    Included(usize),
    Excluded(usize),
    Unbounded,
}

/// The first position a range with start `b` takes in.
pub open spec fn start_of(b: Bound) -> int {
    match b {
        Bound::Included(n) => n as int,
        Bound::Excluded(n) => n + 1,
        Bound::Unbounded => 0,
    }
}

/// The position just after the last one a range with end `b` takes in, over
/// data of length `len`.
pub open spec fn end_of(b: Bound, len: int) -> int {
    match b {
        Bound::Included(n) => n + 1,
        Bound::Excluded(n) => n as int,
        Bound::Unbounded => len,
    }
}

/// What `slice(begin..end)` keeps of the chunk `c`, which starts at `start` in
/// the data: nothing when it lies outside the range; when the chunk starts
/// before `begin`, the chunk from `begin` to its own end or to `end`,
/// whichever comes first; when it runs past `end`, the chunk up to `end`;
/// else the whole chunk.
pub open spec fn slice_piece(c: Seq<u8>, start: int, begin: int, end: int) -> Seq<Seq<u8>> {
    if start + c.len() <= begin || start >= end {
        Seq::empty()
    } else if start < begin {
        seq![c.subrange(begin - start, if start + c.len() > end { end - start } else { c.len() as int })]
    } else if start + c.len() > end {
        seq![c.subrange(0, end - start)]
    } else {
        seq![c]
    }
}

/// The chunks that `slice(begin..end)` builds from `chunks`, in order.
pub open spec fn slice_chunks(chunks: Seq<Seq<u8>>, begin: int, end: int) -> Seq<Seq<u8>>
    decreases chunks.len(),
{
    if chunks.len() == 0 {
        Seq::empty()
    } else {
        slice_chunks(chunks.drop_last(), begin, end) + slice_piece(
            chunks.last(),
            flatten(chunks.drop_last()).len() as int,
            begin,
            end,
        )
    }
}

/// The pieces `slice` keeps are no more, and hold no more bytes, than the chunks.
pub proof fn lemma_slice_chunks_bounded(chunks: Seq<Seq<u8>>, begin: int, end: int)
    requires
        0 <= begin <= end,
    ensures
        slice_chunks(chunks, begin, end).len() <= chunks.len(),
        flatten(slice_chunks(chunks, begin, end)).len() <= flatten(chunks).len(),
    decreases chunks.len(),
{
    if chunks.len() > 0 {
        let p = chunks.drop_last();
        let c = chunks.last();
        let start = flatten(p).len() as int;
        lemma_slice_chunks_bounded(p, begin, end);
        let piece = slice_piece(c, start, begin, end);
        lemma_flatten_concat(slice_chunks(p, begin, end), piece);
        if piece.len() == 1 {
            lemma_flatten_single(piece[0]);
        } else {
            assert(flatten(piece) == Seq::<u8>::empty());
        }
    }
}

/// The pieces `slice` keeps hold exactly the bytes of the range (cut to the
/// data's length).
pub proof fn lemma_slice_chunks_data(chunks: Seq<Seq<u8>>, begin: int, end: int)
    requires
        0 <= begin < end,
    ensures
        ({
            let t = flatten(chunks).len() as int;
            flatten(slice_chunks(chunks, begin, end)) == flatten(chunks).subrange(
                if begin < t { begin } else { t },
                if end < t { end } else { t },
            )
        }),
    decreases chunks.len(),
{
    let t = flatten(chunks).len() as int;
    if chunks.len() == 0 {
        assert(flatten(chunks).subrange(0, 0) =~= Seq::<u8>::empty());
    } else {
        let p = chunks.drop_last();
        let c = chunks.last();
        let start = flatten(p).len() as int;
        lemma_slice_chunks_data(p, begin, end);
        let piece = slice_piece(c, start, begin, end);
        lemma_flatten_concat(slice_chunks(p, begin, end), piece);
        if piece.len() == 1 {
            lemma_flatten_single(piece[0]);
        } else {
            assert(flatten(piece) == Seq::<u8>::empty());
        }
        let fp = flatten(p);
        assert(flatten(chunks) == fp + c);
        let lo = if begin < t { begin } else { t };
        let hi = if end < t { end } else { t };
        let plo = if begin < start { begin } else { start };
        let phi = if end < start { end } else { start };
        if start + c.len() <= begin {
            assert(fp.subrange(plo, phi) =~= Seq::<u8>::empty());
            assert(flatten(chunks).subrange(lo, hi) =~= Seq::<u8>::empty());
        } else if start >= end {
            assert(flatten(chunks).subrange(lo, hi) =~= fp.subrange(plo, phi));
        } else if start < begin {
            assert(fp.subrange(plo, phi) =~= Seq::<u8>::empty());
            if start + c.len() > end {
                assert(flatten(chunks).subrange(lo, hi) =~= c.subrange(begin - start, end - start));
            } else {
                assert(flatten(chunks).subrange(lo, hi) =~= c.subrange(begin - start, c.len() as int));
            }
        } else if start + c.len() > end {
            assert(flatten(chunks).subrange(lo, hi) =~= fp.subrange(plo, phi) + c.subrange(0, end - start));
        } else {
            assert(flatten(chunks).subrange(lo, hi) =~= fp.subrange(plo, phi) + c);
        }
    }
}

/// A byte buffer made of shared chunks.
#[derive(Clone)]
pub struct BytesVec {
    bytes_vec: ByteChunks,
}

impl View for BytesVec {
    type V = Seq<u8>;

    /// The data: the chunks laid end to end.
    open spec fn view(&self) -> Seq<u8> {
        flatten(self.chunks())
    }
}

impl BytesVec {
    /// The bytes of each chunk, in order.
    pub closed spec fn chunks(self) -> Seq<Seq<u8>> {
        chunks_view(self.bytes_vec)
    }

    /// The length of the data fits in a `usize`, and the number of chunks
    /// within what the chunk list is given.
    pub open spec fn wf(self) -> bool {
        &&& self@.len() <= usize::MAX
        &&& self.chunks().len() <= max_chunks()
    }

    /// An empty buffer with no chunks.
    pub fn new() -> (r: Self)
        ensures
            r.wf(),
            r.chunks() == Seq::<Seq<u8>>::empty(),
            r@ == Seq::<u8>::empty(),
    {
        BytesVec { bytes_vec: chunks_new() }
    }

    /// The number of bytes held.
    pub fn len(&self) -> (r: usize)
        requires
            self.wf(),
        ensures
            r == self@.len(),
    {
        let ghost chunks = self.chunks();
        let n = chunks_len(&self.bytes_vec);
        let mut total: usize = 0;
        let mut i: usize = 0;
        while i < n
            invariant
                chunks == self.chunks(),
                self.wf(),
                n == chunks.len(),
                i <= n,
                total == flatten(chunks.take(i as int)).len(),
            decreases n - i,
        {
            proof {
                lemma_flatten_around(chunks, i as int);
                lemma_flatten_split(chunks, i as int + 1);
            }
            total = total + bytes_len(chunks_index(&self.bytes_vec, i));
            i = i + 1;
        }
        assert(chunks.take(n as int) =~= chunks);
        total
    }

    /// The chunk at position `i`.
    pub fn chunk_at(&self, i: usize) -> (r: &Bytes)
        requires
            i < self.chunks().len(),
        ensures
            bytes_view(*r) == self.chunks()[i as int],
    {
        chunks_index(&self.bytes_vec, i)
    }

    /// The number of chunks.
    pub fn vec_count(&self) -> (r: usize)
        ensures
            r == self.chunks().len(),
    {
        chunks_len(&self.bytes_vec)
    }

    /// Drops every chunk.
    pub fn clear(&mut self)
        ensures
            final(self).wf(),
            final(self).chunks() == Seq::<Seq<u8>>::empty(),
            final(self)@ == Seq::<u8>::empty(),
    {
        chunks_clear(&mut self.bytes_vec);
    }

    /// Appends a copy of `data` as a new chunk.
    pub fn push(&mut self, data: &[u8])
        requires
            old(self).wf(),
            old(self)@.len() + data@.len() <= usize::MAX,
            old(self).chunks().len() < max_chunks(),
        ensures
            final(self).wf(),
            final(self).chunks() == old(self).chunks().push(data@),
            final(self)@ == old(self)@ + data@,
    {
        let bytes = bytes_copy_from_slice(data);
        chunks_push(&mut self.bytes_vec, bytes);
        proof {
            lemma_flatten_push(old(self).chunks(), data@);
        }
    }

    /// Appends the static bytes `data` as a new chunk, without copying them.
    pub fn push_static(&mut self, data: &'static [u8])
        requires
            old(self).wf(),
            old(self)@.len() + data@.len() <= usize::MAX,
            old(self).chunks().len() < max_chunks(),
        ensures
            final(self).wf(),
            final(self).chunks() == old(self).chunks().push(data@),
            final(self)@ == old(self)@ + data@,
    {
        let bytes = bytes_from_static(data);
        chunks_push(&mut self.bytes_vec, bytes);
        proof {
            lemma_flatten_push(old(self).chunks(), data@);
        }
    }

    /// Appends the chunk `data`.
    pub fn push_bytes(&mut self, data: Bytes)
        requires
            old(self).wf(),
            old(self)@.len() + bytes_view(data).len() <= usize::MAX,
            old(self).chunks().len() < max_chunks(),
        ensures
            final(self).wf(),
            final(self).chunks() == old(self).chunks().push(bytes_view(data)),
            final(self)@ == old(self)@ + bytes_view(data),
    {
        let ghost d = bytes_view(data);
        chunks_push(&mut self.bytes_vec, data);
        proof {
            lemma_flatten_push(old(self).chunks(), d);
        }
    }

    /// Joins all chunks into one chunk holding the same data.
    pub fn merge(&mut self)
        requires
            old(self).wf(),
            old(self)@.len() <= isize::MAX,
        ensures
            final(self).wf(),
            final(self).chunks() == seq![old(self)@],
            final(self)@ == old(self)@,
    {
        let ghost chunks = self.chunks();
        let total = self.len();
        let mut bytes_mut = bytes_mut_with_capacity(total);
        let n = chunks_len(&self.bytes_vec);
        let mut i: usize = 0;
        while i < n
            invariant
                chunks == self.chunks(),
                n == chunks.len(),
                i <= n,
                total == flatten(chunks).len(),
                total <= isize::MAX,
                bytes_mut_view(bytes_mut) == flatten(chunks.take(i as int)),
            decreases n - i,
        {
            proof {
                lemma_flatten_around(chunks, i as int);
                lemma_flatten_split(chunks, i as int + 1);
            }
            bytes_mut_extend_from_slice(&mut bytes_mut, bytes_as_slice(chunks_index(&self.bytes_vec, i)));
            i = i + 1;
        }
        assert(chunks.take(n as int) =~= chunks);
        let bytes = bytes_mut_freeze(bytes_mut);
        chunks_clear(&mut self.bytes_vec);
        chunks_push(&mut self.bytes_vec, bytes);
        proof {
            assert(Seq::<Seq<u8>>::empty().push(flatten(chunks)) =~= seq![flatten(chunks)]);
            lemma_flatten_single(flatten(chunks));
        }
    }

    /// Keeps the first `len` bytes and drops the rest.
    pub fn truncate(&mut self, len: usize)
        requires
            old(self).wf(),
            len <= old(self)@.len(),
        ensures
            final(self).wf(),
            final(self)@ == old(self)@.subrange(0, len as int),
            forall|i: int|
                #[trigger] is_cut_chunk(old(self).chunks(), len as int, i) ==> final(self).chunks()
                    == head_chunks(old(self).chunks(), len as int, i),
            (forall|i: int| !is_cut_chunk(old(self).chunks(), len as int, i)) ==> final(self).chunks()
                == old(self).chunks(),
    {
        let ghost chunks = self.chunks();
        let n = chunks_len(&self.bytes_vec);
        let mut cur_len: usize = 0;
        let mut cur_pos: usize = 0;
        while cur_pos < n
            invariant
                chunks == self.chunks(),
                chunks == old(self).chunks(),
                old(self).wf(),
                n == chunks.len(),
                cur_pos <= n,
                cur_len == chunk_start(chunks, cur_pos as int),
                cur_len <= len,
                len <= flatten(chunks).len(),
                forall|j: int| 0 <= j < cur_pos ==> #[trigger] chunk_start(chunks, j) + chunks[j].len() <= len,
            decreases n - cur_pos,
        {
            proof {
                lemma_flatten_around(chunks, cur_pos as int);
                lemma_flatten_split(chunks, cur_pos as int + 1);
            }
            let item_len = bytes_len(chunks_index(&self.bytes_vec, cur_pos));
            if cur_len + item_len > len {
                let item = chunks_index_mut(&mut self.bytes_vec, cur_pos);
                bytes_truncate(item, len - cur_len);
                chunks_truncate(&mut self.bytes_vec, cur_pos + 1);
                proof {
                    let c = chunks[cur_pos as int];
                    let kept = c.subrange(0, len - cur_len);
                    assert(self.chunks() =~= chunks.take(cur_pos as int).push(kept));
                    lemma_flatten_push(chunks.take(cur_pos as int), kept);
                    assert(flatten(chunks).subrange(0, len as int) =~= flatten(chunks.take(cur_pos as int)) + kept);
                    assert(is_cut_chunk(chunks, len as int, cur_pos as int));
                    lemma_cut_chunk_unique(chunks, len as int, cur_pos as int);
                }
                return;
            }
            cur_len = cur_len + item_len;
            cur_pos = cur_pos + 1;
        }
        assert(chunks.take(n as int) =~= chunks);
        assert(flatten(chunks).subrange(0, len as int) =~= flatten(chunks));
    }

    /// Splits the data at `at`: `self` keeps `[0, at)` and the result holds
    /// `[at, len)`.
    pub fn split_off(&mut self, at: usize) -> (r: Self)
        requires
            old(self).wf(),
            at <= old(self)@.len(),
        ensures
            final(self).wf(),
            r.wf(),
            final(self)@ == old(self)@.subrange(0, at as int),
            r@ == old(self)@.subrange(at as int, old(self)@.len() as int),
            forall|i: int|
                #[trigger] is_cut_chunk(old(self).chunks(), at as int, i) ==> final(self).chunks()
                    == head_chunks(old(self).chunks(), at as int, i) && r.chunks() == tail_chunks(
                    old(self).chunks(),
                    at as int,
                    i,
                ),
            (forall|i: int| !is_cut_chunk(old(self).chunks(), at as int, i)) ==> final(self).chunks()
                == old(self).chunks() && r.chunks() == Seq::<Seq<u8>>::empty(),
    {
        let mut new_vec = BytesVec::new();
        self.split_off_impl(at, &mut new_vec);
        new_vec
    }

    fn split_off_impl(&mut self, at: usize, remain: &mut BytesVec)
        requires
            old(self).wf(),
            at <= old(self)@.len(),
            old(remain).chunks().len() == 0,
        ensures
            final(self).wf(),
            final(remain).wf(),
            final(self)@ == old(self)@.subrange(0, at as int),
            final(remain)@ == old(self)@.subrange(at as int, old(self)@.len() as int),
            forall|i: int|
                #[trigger] is_cut_chunk(old(self).chunks(), at as int, i) ==> final(self).chunks()
                    == head_chunks(old(self).chunks(), at as int, i) && final(remain).chunks()
                    == tail_chunks(old(self).chunks(), at as int, i),
            (forall|i: int| !is_cut_chunk(old(self).chunks(), at as int, i)) ==> final(self).chunks()
                == old(self).chunks() && final(remain).chunks() == Seq::<Seq<u8>>::empty(),
    {
        let ghost chunks = self.chunks();
        let ghost total = flatten(chunks).len();
        let n = chunks_len(&self.bytes_vec);
        let mut cur_len: usize = 0;
        let mut cur_pos: usize = 0;
        while cur_pos < n
            invariant
                chunks == self.chunks(),
                chunks == old(self).chunks(),
                old(self).wf(),
                total == flatten(chunks).len(),
                n == chunks.len(),
                cur_pos <= n,
                cur_len == chunk_start(chunks, cur_pos as int),
                cur_len <= at,
                at <= total,
                remain.chunks().len() == 0,
                forall|j: int| 0 <= j < cur_pos ==> #[trigger] chunk_start(chunks, j) + chunks[j].len() <= at,
            decreases n - cur_pos,
        {
            proof {
                lemma_flatten_around(chunks, cur_pos as int);
                lemma_flatten_split(chunks, cur_pos as int + 1);
            }
            let item_len = bytes_len(chunks_index(&self.bytes_vec, cur_pos));
            if cur_len <= at && cur_len + item_len > at {
                let ghost c = chunks[cur_pos as int];
                let ghost k = at - cur_len;
                let item = chunks_index_mut(&mut self.bytes_vec, cur_pos);
                let new_item = bytes_split_off(item, at - cur_len);
                chunks_push(&mut remain.bytes_vec, new_item);
                let ghost u = self.chunks();
                assert(u == chunks.update(cur_pos as int, c.subrange(0, k)));
                assert(remain.chunks() =~= seq![c.subrange(k, c.len() as int)]);
                let ghost mut moved: int = 0;
                while cur_pos + 1 < chunks_len(&self.bytes_vec)
                    invariant
                        cur_pos < n,
                        n == chunks.len(),
                        u.len() == n,
                        0 <= moved <= n - cur_pos - 1,
                        self.chunks() == u.take(cur_pos + 1) + u.skip(cur_pos + 1 + moved),
                        remain.chunks() == seq![c.subrange(k, c.len() as int)] + u.subrange(
                            cur_pos + 1,
                            cur_pos + 1 + moved,
                        ),
                        n <= max_chunks(),
                    decreases n - cur_pos - 1 - moved,
                {
                    let ghost before = self.chunks();
                    let next = chunks_remove(&mut self.bytes_vec, cur_pos + 1);
                    chunks_push(&mut remain.bytes_vec, next);
                    proof {
                        assert(before[cur_pos + 1] == u[cur_pos + 1 + moved]);
                        assert(self.chunks() =~= u.take(cur_pos + 1) + u.skip(cur_pos + 1 + moved + 1));
                        assert(remain.chunks() =~= seq![c.subrange(k, c.len() as int)] + u.subrange(
                            cur_pos + 1,
                            cur_pos + 1 + moved + 1,
                        ));
                        moved = moved + 1;
                    }
                }
                proof {
                    assert(moved == n - cur_pos - 1);
                    assert(self.chunks() =~= chunks.take(cur_pos as int).push(c.subrange(0, k)));
                    lemma_flatten_push(chunks.take(cur_pos as int), c.subrange(0, k));
                    assert(u.subrange(cur_pos + 1, n as int) =~= chunks.skip(cur_pos + 1));
                    lemma_flatten_concat(seq![c.subrange(k, c.len() as int)], chunks.skip(cur_pos + 1));
                    lemma_flatten_single(c.subrange(k, c.len() as int));
                    assert(flatten(chunks).subrange(0, at as int) =~= flatten(chunks.take(cur_pos as int)) + c.subrange(0, k));
                    assert(flatten(chunks).subrange(at as int, total as int) =~= c.subrange(k, c.len() as int) + flatten(chunks.skip(cur_pos + 1)));
                    assert(is_cut_chunk(chunks, at as int, cur_pos as int));
                    lemma_cut_chunk_unique(chunks, at as int, cur_pos as int);
                    assert(remain.chunks() =~= tail_chunks(chunks, at as int, cur_pos as int));
                }
                return;
            }
            cur_len = cur_len + item_len;
            cur_pos = cur_pos + 1;
        }
        proof {
            assert(chunks.take(n as int) =~= chunks);
            assert(flatten(chunks).subrange(0, at as int) =~= flatten(chunks));
            assert(flatten(chunks).subrange(at as int, total as int) =~= Seq::<u8>::empty());
            assert(flatten(remain.chunks()) == Seq::<u8>::empty());
        }
    }

    /// Splits the data at `at`: `self` keeps `[at, len)` and the result holds
    /// `[0, at)`.
    pub fn split_to(&mut self, at: usize) -> (r: Self)
        requires
            old(self).wf(),
            at <= old(self)@.len(),
        ensures
            final(self).wf(),
            r.wf(),
            final(self)@ == old(self)@.subrange(at as int, old(self)@.len() as int),
            r@ == old(self)@.subrange(0, at as int),
            forall|i: int|
                #[trigger] is_cut_chunk(old(self).chunks(), at as int, i) ==> final(self).chunks()
                    == tail_chunks(old(self).chunks(), at as int, i) && r.chunks() == head_chunks(
                    old(self).chunks(),
                    at as int,
                    i,
                ),
            (forall|i: int| !is_cut_chunk(old(self).chunks(), at as int, i)) ==> final(self).chunks()
                == Seq::<Seq<u8>>::empty() && r.chunks() == old(self).chunks(),
    {
        let mut new_vec = BytesVec::new();
        self.split_to_impl(at, &mut new_vec);
        new_vec
    }

    fn split_to_impl(&mut self, at: usize, remain: &mut BytesVec)
        requires
            old(self).wf(),
            at <= old(self)@.len(),
            old(remain).chunks().len() == 0,
        ensures
            final(self).wf(),
            final(remain).wf(),
            final(self)@ == old(self)@.subrange(at as int, old(self)@.len() as int),
            final(remain)@ == old(self)@.subrange(0, at as int),
            forall|i: int|
                #[trigger] is_cut_chunk(old(self).chunks(), at as int, i) ==> final(self).chunks()
                    == tail_chunks(old(self).chunks(), at as int, i) && final(remain).chunks()
                    == head_chunks(old(self).chunks(), at as int, i),
            (forall|i: int| !is_cut_chunk(old(self).chunks(), at as int, i)) ==> final(self).chunks()
                == Seq::<Seq<u8>>::empty() && final(remain).chunks() == old(self).chunks(),
    {
        let ghost chunks = self.chunks();
        let ghost total = flatten(chunks).len();
        let ghost n = chunks.len();
        let mut cur_len: usize = 0;
        let ghost mut moved: int = 0;
        assert(chunks.skip(0) =~= chunks);
        assert(remain.chunks() =~= chunks.take(0));
        while chunks_len(&self.bytes_vec) != 0
            invariant
                old(self).wf(),
                chunks == old(self).chunks(),
                total == flatten(chunks).len(),
                n == chunks.len(),
                0 <= moved <= n,
                self.chunks() == chunks.skip(moved),
                remain.chunks() == chunks.take(moved),
                cur_len == chunk_start(chunks, moved),
                cur_len <= at,
                at <= total,
                forall|j: int| 0 <= j < moved ==> #[trigger] chunk_start(chunks, j) + chunks[j].len() <= at,
            decreases n - moved,
        {
            proof {
                lemma_flatten_around(chunks, moved);
                lemma_flatten_split(chunks, moved + 1);
            }
            let item_len = bytes_len(chunks_index(&self.bytes_vec, 0));
            if cur_len <= at && cur_len + item_len > at {
                let ghost c = chunks[moved];
                let ghost k = at - cur_len;
                let item = chunks_index_mut(&mut self.bytes_vec, 0);
                let new_item = bytes_split_to(item, at - cur_len);
                chunks_push(&mut remain.bytes_vec, new_item);
                proof {
                    let rest = c.subrange(k, c.len() as int);
                    assert(self.chunks() =~= seq![rest] + chunks.skip(moved + 1));
                    lemma_flatten_concat(seq![rest], chunks.skip(moved + 1));
                    lemma_flatten_single(rest);
                    lemma_flatten_push(chunks.take(moved), c.subrange(0, k));
                    assert(flatten(chunks).subrange(at as int, total as int) =~= rest + flatten(chunks.skip(moved + 1)));
                    assert(flatten(chunks).subrange(0, at as int) =~= flatten(chunks.take(moved)) + c.subrange(0, k));
                    assert(is_cut_chunk(chunks, at as int, moved));
                    lemma_cut_chunk_unique(chunks, at as int, moved);
                    assert(self.chunks() =~= tail_chunks(chunks, at as int, moved));
                }
                return;
            }
            cur_len = cur_len + item_len;
            let item = chunks_remove(&mut self.bytes_vec, 0);
            chunks_push(&mut remain.bytes_vec, item);
            proof {
                assert(self.chunks() =~= chunks.skip(moved + 1));
                assert(remain.chunks() =~= chunks.take(moved + 1));
                moved = moved + 1;
            }
        }
        proof {
            assert(moved == n);
            assert(chunks.take(n as int) =~= chunks);
            lemma_flatten_split(chunks, n as int);
            assert(chunks.skip(n as int) =~= Seq::<Seq<u8>>::empty());
            assert(flatten(chunks).subrange(0, at as int) =~= flatten(chunks));
            assert(flatten(chunks).subrange(at as int, total as int) =~= Seq::<u8>::empty());
        }
    }

    /// Drops the first `cnt` bytes.
    pub fn advance(&mut self, cnt: usize)
        requires
            old(self).wf(),
            cnt <= old(self)@.len(),
        ensures
            final(self).wf(),
            final(self)@ == old(self)@.subrange(cnt as int, old(self)@.len() as int),
            forall|i: int|
                #[trigger] is_cut_chunk(old(self).chunks(), cnt as int, i) ==> final(self).chunks()
                    == tail_chunks(old(self).chunks(), cnt as int, i),
            (forall|i: int| !is_cut_chunk(old(self).chunks(), cnt as int, i)) ==> final(self).chunks()
                == Seq::<Seq<u8>>::empty(),
    {
        let _ = self.split_to(cnt);
    }

    /// The first chunk, or nothing when there is none: the bytes at the
    /// start of the data that can be read without crossing a chunk.
    pub fn chunk(&self) -> (r: &[u8])
        ensures
            r@ == (if self.chunks().len() == 0 {
                Seq::<u8>::empty()
            } else {
                self.chunks()[0]
            }),
            r@.len() <= self@.len(),
            self@.subrange(0, r@.len() as int) == r@,
    {
        proof {
            let cs = self.chunks();
            if cs.len() > 0 {
                lemma_flatten_around(cs, 0);
                assert(cs.take(0) =~= Seq::<Seq<u8>>::empty());
                assert(flatten(cs).subrange(0, cs[0].len() as int) =~= cs[0]);
            }
        }
        if self.vec_count() == 0 {
            &[]
        } else {
            bytes_as_slice(chunks_index(&self.bytes_vec, 0))
        }
    }

    /// The number of bytes left to read: all of them.
    pub fn remaining(&self) -> (r: usize)
        requires
            self.wf(),
        ensures
            r == self@.len(),
    {
        self.len()
    }

    /// A copy of the data in one vector.
    pub fn into_vec(&self) -> (r: Vec<u8>)
        requires
            self.wf(),
        ensures
            r@ == self@,
    {
        let ghost chunks = self.chunks();
        let mut res: Vec<u8> = Vec::with_capacity(self.len());
        let n = chunks_len(&self.bytes_vec);
        let mut i: usize = 0;
        while i < n
            invariant
                chunks == self.chunks(),
                n == chunks.len(),
                i <= n,
                res@ == flatten(chunks.take(i as int)),
            decreases n - i,
        {
            proof {
                lemma_flatten_around(chunks, i as int);
            }
            let buf = bytes_as_slice(chunks_index(&self.bytes_vec, i));
            let ghost before = res@;
            res.extend_from_slice(buf);
            assert(res@ =~= before + buf@);
            i = i + 1;
        }
        assert(chunks.take(n as int) =~= chunks);
        res
    }

    /// A buffer holding exactly the range `start..end` of the data, sharing
    /// its chunks: the chunks the range touches, the first and last cut to
    /// the range.
    pub fn slice(&self, start: Bound, end: Bound) -> (r: Self)
        requires
            self.wf(),
            0 <= start_of(start) <= end_of(end, self@.len() as int) <= self@.len(),
        ensures
            r.wf(),
            r.chunks() == (if start_of(start) == end_of(end, self@.len() as int) {
                Seq::<Seq<u8>>::empty()
            } else {
                slice_chunks(self.chunks(), start_of(start), end_of(end, self@.len() as int))
            }),
            r@ == self@.subrange(start_of(start), end_of(end, self@.len() as int)),
    {
        let len = self.len();
        let begin = match start {
            Bound::Included(n) => n,
            Bound::Excluded(n) => n + 1,
            Bound::Unbounded => 0,
        };
        let end = match end {
            Bound::Included(n) => n + 1,
            Bound::Excluded(n) => n,
            Bound::Unbounded => len,
        };
        if begin == end {
            let r = BytesVec::new();
            assert(r@ =~= self@.subrange(begin as int, end as int));
            return r;
        }
        let ghost chunks = self.chunks();
        let mut new_vec = BytesVec::new();
        let mut cur_len: usize = 0;
        let n = chunks_len(&self.bytes_vec);
        let mut i: usize = 0;
        while i < n
            invariant
                chunks == self.chunks(),
                self.wf(),
                n == chunks.len(),
                i <= n,
                begin < end <= len,
                len == flatten(chunks).len(),
                cur_len == chunk_start(chunks, i as int),
                new_vec.chunks() == slice_chunks(chunks.take(i as int), begin as int, end as int),
            decreases n - i,
        {
            proof {
                lemma_flatten_around(chunks, i as int);
                lemma_flatten_split(chunks, i as int + 1);
                assert(chunks.take(i + 1).drop_last() =~= chunks.take(i as int));
                lemma_slice_chunks_bounded(chunks.take(i as int), begin as int, end as int);
            }
            let item = chunks_index(&self.bytes_vec, i);
            let item_len = bytes_len(item);
            if cur_len + item_len <= begin || cur_len >= end {
                cur_len = cur_len + item_len;
                i = i + 1;
                continue;
            }
            if cur_len < begin {
                let piece_end = if cur_len + item_len > end {
                    end - cur_len
                } else {
                    item_len
                };
                chunks_push(&mut new_vec.bytes_vec, bytes_slice(item, begin - cur_len, piece_end));
            } else if cur_len + item_len > end {
                chunks_push(&mut new_vec.bytes_vec, bytes_slice(item, 0, end - cur_len));
            } else {
                chunks_push(&mut new_vec.bytes_vec, bytes_clone(item));
            }
            cur_len = cur_len + item_len;
            i = i + 1;
        }
        proof {
            assert(chunks.take(n as int) =~= chunks);
            lemma_slice_chunks_bounded(chunks, begin as int, end as int);
            lemma_slice_chunks_data(chunks, begin as int, end as int);
        }
        new_vec
    }

    /// An iterator over the chunks, as slices.
    pub fn buf_iter(&self) -> (r: BufIter<'_>)
        ensures
            r.source() == self.chunks(),
            r.remaining_chunks() == self.chunks(),
    {
        let r = BufIter { bytes_vec: self, cur_item: 0 };
        assert(self.chunks().skip(0) =~= self.chunks());
        r
    }

    /// An iterator over the bytes of the data, in order.
    pub fn data_iter(&self) -> (r: DataIter<'_>)
        ensures
            r.wf(),
            r.remaining() == self@,
    {
        let mut buf_iter = self.buf_iter();
        let cur_buf = buf_iter.next();
        let r = DataIter { buf_iter, cur_buf, cur_pos: 0 };
        proof {
            let cs = self.chunks();
            if cs.len() > 0 {
                lemma_flatten_around(cs, 0);
                assert(cs.skip(0) =~= cs);
                assert(cs.skip(1) =~= cs.drop_first());
                assert(r.cur_buf.unwrap()@.subrange(0, r.cur_buf.unwrap()@.len() as int) =~= cs[0]);
            } else {
                assert(cs =~= Seq::<Seq<u8>>::empty());
            }
        }
        r
    }
}

/// The chunks of a `BytesVec`, one by one.
pub struct BufIter<'a> {
    bytes_vec: &'a BytesVec,
    cur_item: usize,
}

impl<'a> BufIter<'a> {
    /// All the chunks of the buffer walked over.
    pub closed spec fn source(self) -> Seq<Seq<u8>> {
        self.bytes_vec.chunks()
    }

    /// How many chunks have been handed out.
    pub closed spec fn position(self) -> int {
        self.cur_item as int
    }

    /// The chunks not yet handed out.
    pub open spec fn remaining_chunks(self) -> Seq<Seq<u8>> {
        if self.position() <= self.source().len() {
            self.source().skip(self.position())
        } else {
            Seq::empty()
        }
    }

    /// The next chunk, or nothing once all were handed out.
    pub fn next(&mut self) -> (r: Option<&'a [u8]>)
        ensures
            final(self).source() == old(self).source(),
            match r {
                None => {
                    &&& old(self).remaining_chunks().len() == 0
                    &&& final(self).remaining_chunks().len() == 0
                },
                Some(s) => {
                    &&& old(self).remaining_chunks().len() > 0
                    &&& s@ == old(self).remaining_chunks()[0]
                    &&& final(self).remaining_chunks() == old(self).remaining_chunks().drop_first()
                },
            },
    {
        if self.cur_item >= self.bytes_vec.vec_count() {
            None
        } else {
            let res = bytes_as_slice(chunks_index(&self.bytes_vec.bytes_vec, self.cur_item));
            self.cur_item = self.cur_item + 1;
            assert(self.source().skip(self.position()) =~= old(self).remaining_chunks().drop_first());
            Some(res)
        }
    }
}

/// The bytes of a `BytesVec`, one by one.
pub struct DataIter<'a> {
    buf_iter: BufIter<'a>,
    cur_buf: Option<&'a [u8]>,
    cur_pos: usize,
}

impl<'a> DataIter<'a> {
    /// The chunk being read is only absent once no chunk is left, and the
    /// position in it is within it.
    pub closed spec fn wf(self) -> bool {
        match self.cur_buf {
            None => self.buf_iter.remaining_chunks().len() == 0,
            Some(b) => self.cur_pos <= b@.len(),
        }
    }

    /// The bytes not yet handed out.
    pub closed spec fn remaining(self) -> Seq<u8> {
        match self.cur_buf {
            None => Seq::empty(),
            Some(b) => b@.subrange(self.cur_pos as int, b@.len() as int) + flatten(
                self.buf_iter.remaining_chunks(),
            ),
        }
    }

    /// The next byte of the data, or nothing at its end.
    pub fn next(&mut self) -> (r: Option<u8>)
        requires
            old(self).wf(),
        ensures
            final(self).wf(),
            match r {
                None => {
                    &&& old(self).remaining().len() == 0
                    &&& final(self).remaining().len() == 0
                },
                Some(x) => {
                    &&& old(self).remaining().len() > 0
                    &&& x == old(self).remaining()[0]
                    &&& final(self).remaining() == old(self).remaining().drop_first()
                },
            },
    {
        loop
            invariant
                self.wf(),
                self.remaining() == old(self).remaining(),
            decreases self.buf_iter.remaining_chunks().len() + (if self.cur_buf is Some {
                1int
            } else {
                0int
            }),
        {
            if self.cur_buf.is_none() {
                return None;
            }
            let cur_buf = self.cur_buf.unwrap();
            if self.cur_pos < cur_buf.len() {
                let res = cur_buf[self.cur_pos];
                self.cur_pos = self.cur_pos + 1;
                proof {
                    let rest = flatten(self.buf_iter.remaining_chunks());
                    assert(cur_buf@.subrange(self.cur_pos as int, cur_buf@.len() as int) + rest
                        =~= (cur_buf@.subrange(self.cur_pos - 1, cur_buf@.len() as int)
                        + rest).drop_first());
                }
                return Some(res);
            }
            let ghost before = self.buf_iter.remaining_chunks();
            self.cur_pos = 0;
            self.cur_buf = self.buf_iter.next();
            proof {
                assert(cur_buf@.subrange(cur_buf@.len() as int, cur_buf@.len() as int) + flatten(before)
                    =~= flatten(before));
                if before.len() > 0 {
                    lemma_flatten_around(before, 0);
                    assert(before.skip(0) =~= before);
                    assert(before.skip(1) =~= before.drop_first());
                    let b = self.cur_buf.unwrap();
                    assert(b@.subrange(0, b@.len() as int) =~= b@);
                } else {
                    assert(before =~= Seq::<Seq<u8>>::empty());
                }
            }
        }
    }
}

} // verus!
