use bytes::Bytes;
use ganzhe::io::{Bound, BytesVec};

const STR: &[u8] = b"hello world!";

fn create_bytes_vec() -> BytesVec {
    let mut bytes_vec = BytesVec::new();
    bytes_vec.push("hello ".as_bytes());
    bytes_vec.push_static(b"world");
    bytes_vec.push_bytes(Bytes::copy_from_slice(b"!"));
    bytes_vec
}

fn collect_data(bytes_vec: &BytesVec) -> Vec<u8> {
    let mut out = Vec::new();
    let mut it = bytes_vec.data_iter();
    while let Some(b) = it.next() {
        out.push(b);
    }
    out
}

#[test]
fn test_bytes_vec() {
    let mut bytes_vec = create_bytes_vec();

    assert_eq!(bytes_vec.vec_count(), 3);
    assert_eq!(bytes_vec.len(), STR.len());

    let mut buf_iter = bytes_vec.buf_iter();
    assert_eq!(buf_iter.next(), Some(b"hello ".as_slice()));
    assert_eq!(buf_iter.next(), Some(b"world".as_slice()));
    assert_eq!(buf_iter.next(), Some(b"!".as_slice()));
    assert_eq!(buf_iter.next(), None);

    let buf: Vec<_> = collect_data(&bytes_vec);
    assert_eq!(buf.as_slice(), STR);

    bytes_vec.merge();
    assert_eq!(bytes_vec.vec_count(), 1);
    assert_eq!(bytes_vec.len(), STR.len());
    let mut buf_iter = bytes_vec.buf_iter();
    assert_eq!(buf_iter.next(), Some(STR));
    assert_eq!(buf_iter.next(), None);

    bytes_vec.clear();
    assert_eq!(bytes_vec.vec_count(), 0);
    assert_eq!(bytes_vec.len(), 0);
}

#[test]
fn test_bytes_vec_slice() {
    let mut bytes_vec = create_bytes_vec();

    assert_eq!(
        bytes_vec.slice(Bound::Included(6), Bound::Unbounded).into_vec(),
        Vec::from("world!")
    );
    assert_eq!(
        bytes_vec.slice(Bound::Unbounded, Bound::Excluded(5)).into_vec(),
        Vec::from("hello")
    );
    assert_eq!(
        bytes_vec.slice(Bound::Included(1), Bound::Excluded(9)).into_vec(),
        Vec::from("ello wor")
    );

    bytes_vec.truncate(9);
    assert_eq!(bytes_vec.into_vec(), Vec::from("hello wor"));
}

#[test]
fn test_bytes_vec_split_off() {
    let mut bytes_vec = create_bytes_vec();
    let other = bytes_vec.split_off(8);

    assert_eq!(bytes_vec.into_vec(), Vec::from("hello wo"));
    assert_eq!(other.into_vec(), Vec::from("rld!"));
}

#[test]
fn test_bytes_vec_split_to() {
    let mut bytes_vec = create_bytes_vec();
    let other = bytes_vec.split_to(8);

    assert_eq!(bytes_vec.into_vec(), Vec::from("rld!"));
    assert_eq!(other.into_vec(), Vec::from("hello wo"));
}

#[test]
fn slice_within_one_chunk_is_cut_at_both_ends() {
    // Both ends fall inside "hello ": the chunk is cut to the range.
    let bytes_vec = create_bytes_vec();
    let s = bytes_vec.slice(Bound::Included(1), Bound::Excluded(3));
    assert_eq!(s.into_vec(), Vec::from("el"));
    assert_eq!(s.len(), 2);
    assert_eq!(s.vec_count(), 1);
    // A range that starts on a chunk's first byte is cut exactly.
    assert_eq!(
        bytes_vec.slice(Bound::Included(6), Bound::Included(7)).into_vec(),
        Vec::from("wo")
    );
    assert_eq!(
        bytes_vec.slice(Bound::Excluded(5), Bound::Excluded(11)).into_vec(),
        Vec::from("world")
    );
}

#[test]
fn slice_empty_and_whole() {
    let bytes_vec = create_bytes_vec();
    let empty = bytes_vec.slice(Bound::Included(4), Bound::Excluded(4));
    assert_eq!(empty.vec_count(), 0);
    assert_eq!(empty.len(), 0);
    let whole = bytes_vec.slice(Bound::Unbounded, Bound::Unbounded);
    assert_eq!(whole.vec_count(), 3);
    assert_eq!(whole.into_vec(), STR.to_vec());
}

#[test]
fn split_at_the_ends() {
    let mut a = create_bytes_vec();
    let rest = a.split_off(12);
    assert_eq!(rest.len(), 0);
    assert_eq!(a.into_vec(), STR.to_vec());

    let mut b = create_bytes_vec();
    let all = b.split_off(0);
    assert_eq!(b.len(), 0);
    assert_eq!(all.into_vec(), STR.to_vec());

    let mut c = create_bytes_vec();
    let front = c.split_to(0);
    assert_eq!(front.len(), 0);
    assert_eq!(c.into_vec(), STR.to_vec());

    let mut d = create_bytes_vec();
    let front = d.split_to(12);
    assert_eq!(d.len(), 0);
    assert_eq!(front.into_vec(), STR.to_vec());
}

#[test]
fn split_at_a_chunk_boundary() {
    let mut a = create_bytes_vec();
    let rest = a.split_off(6);
    assert_eq!(a.into_vec(), Vec::from("hello "));
    assert_eq!(rest.into_vec(), Vec::from("world!"));
    assert_eq!(rest.vec_count(), 2);

    let mut b = create_bytes_vec();
    let front = b.split_to(11);
    assert_eq!(front.into_vec(), Vec::from("hello world"));
    assert_eq!(b.into_vec(), Vec::from("!"));
}

#[test]
fn truncate_to_zero_and_full() {
    let mut a = create_bytes_vec();
    a.truncate(12);
    assert_eq!(a.into_vec(), STR.to_vec());
    a.truncate(0);
    assert_eq!(a.len(), 0);
}

#[test]
fn buf_methods_advance_chunk_remaining() {
    let mut a = create_bytes_vec();
    assert_eq!(a.remaining(), 12);
    assert_eq!(a.chunk(), b"hello ");
    a.advance(3);
    assert_eq!(a.remaining(), 9);
    assert_eq!(a.chunk(), b"lo ");
    a.advance(9);
    assert_eq!(a.remaining(), 0);
    assert_eq!(a.chunk(), b"");
}

#[test]
fn merge_of_nothing_gives_one_empty_chunk() {
    let mut a = BytesVec::new();
    a.merge();
    assert_eq!(a.vec_count(), 1);
    assert_eq!(a.len(), 0);
    assert_eq!(a.chunk(), b"");
}

#[test]
fn data_iter_skips_empty_chunks() {
    let mut a = BytesVec::new();
    a.push(b"");
    a.push(b"ab");
    a.push(b"");
    a.push(b"c");
    a.push(b"");
    assert_eq!(collect_data(&a), b"abc".to_vec());
    let mut it = a.data_iter();
    for _ in 0..3 {
        assert!(it.next().is_some());
    }
    assert_eq!(it.next(), None);
    assert_eq!(it.next(), None);
}

#[test]
fn clone_shares_the_data() {
    let a = create_bytes_vec();
    let b = a.clone();
    assert_eq!(b.vec_count(), 3);
    assert_eq!(b.into_vec(), a.into_vec());
}

#[test]
fn chunk_at_gives_each_chunk() {
    let a = create_bytes_vec();
    assert_eq!(&a.chunk_at(0)[..], b"hello ");
    assert_eq!(&a.chunk_at(1)[..], b"world");
    assert_eq!(&a.chunk_at(2)[..], b"!");
}
