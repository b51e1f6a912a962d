//! Integers kept in a fixed byte order, whatever the byte order of the host.
//!
//! `BeX` holds a value whose in-memory bytes are in big-endian order and `LeX`
//! one whose bytes are in little-endian order; `NeX` is the network (big-endian)
//! form. The host's byte order is vstd's `endianness()`: the stored integer is
//! the value itself where the host already uses that order, and the value with
//! its bytes reversed where it does not.
use vstd::endian::endianness;
use vstd::prelude::*;

verus! {

/// Whether the host stores integers most significant byte first.
pub open spec fn host_is_big_endian() -> bool {
    endianness() is Big
}

/// `x` with the order of its bytes reversed.
pub open spec fn swap_u8(x: u8) -> u8 {
    x
}

/// Converts between the host's byte order and big-endian order (the same map both ways).
pub open spec fn u8_be(x: u8) -> u8 {
    if host_is_big_endian() {
        x
    } else {
        swap_u8(x)
    }
}

/// Converts between the host's byte order and little-endian order (the same map both ways).
pub open spec fn u8_le(x: u8) -> u8 {
    if host_is_big_endian() {
        swap_u8(x)
    } else {
        x
    }
}

/// `x` with the order of its bytes reversed.
pub open spec fn swap_i8(x: i8) -> i8 {
    swap_u8(x as u8) as i8
}

/// Converts between the host's byte order and big-endian order (the same map both ways).
pub open spec fn i8_be(x: i8) -> i8 {
    if host_is_big_endian() {
        x
    } else {
        swap_i8(x)
    }
}

/// Converts between the host's byte order and little-endian order (the same map both ways).
pub open spec fn i8_le(x: i8) -> i8 {
    if host_is_big_endian() {
        swap_i8(x)
    } else {
        x
    }
}

/// `x` with the order of its bytes reversed.
pub open spec fn swap_u16(x: u16) -> u16 {
    (((x & 0xff) << 8) | (x >> 8)) as u16
}

/// Converts between the host's byte order and big-endian order (the same map both ways).
pub open spec fn u16_be(x: u16) -> u16 {
    if host_is_big_endian() {
        x
    } else {
        swap_u16(x)
    }
}

/// Converts between the host's byte order and little-endian order (the same map both ways).
pub open spec fn u16_le(x: u16) -> u16 {
    if host_is_big_endian() {
        swap_u16(x)
    } else {
        x
    }
}

/// `x` with the order of its bytes reversed.
pub open spec fn swap_i16(x: i16) -> i16 {
    swap_u16(x as u16) as i16
}

/// Converts between the host's byte order and big-endian order (the same map both ways).
pub open spec fn i16_be(x: i16) -> i16 {
    if host_is_big_endian() {
        x
    } else {
        swap_i16(x)
    }
}

/// Converts between the host's byte order and little-endian order (the same map both ways).
pub open spec fn i16_le(x: i16) -> i16 {
    if host_is_big_endian() {
        swap_i16(x)
    } else {
        x
    }
}

/// `x` with the order of its bytes reversed.
pub open spec fn swap_u32(x: u32) -> u32 {
    (((x & 0xff) << 24) | (((x >> 8) & 0xff) << 16) | (((x >> 16) & 0xff) << 8) | (x >> 24)) as u32
}

/// Converts between the host's byte order and big-endian order (the same map both ways).
pub open spec fn u32_be(x: u32) -> u32 {
    if host_is_big_endian() {
        x
    } else {
        swap_u32(x)
    }
}

/// Converts between the host's byte order and little-endian order (the same map both ways).
pub open spec fn u32_le(x: u32) -> u32 {
    if host_is_big_endian() {
        swap_u32(x)
    } else {
        x
    }
}

/// `x` with the order of its bytes reversed.
pub open spec fn swap_i32(x: i32) -> i32 {
    swap_u32(x as u32) as i32
}

/// Converts between the host's byte order and big-endian order (the same map both ways).
pub open spec fn i32_be(x: i32) -> i32 {
    if host_is_big_endian() {
        x
    } else {
        swap_i32(x)
    }
}

/// Converts between the host's byte order and little-endian order (the same map both ways).
pub open spec fn i32_le(x: i32) -> i32 {
    if host_is_big_endian() {
        swap_i32(x)
    } else {
        x
    }
}

/// `x` with the order of its bytes reversed.
pub open spec fn swap_u64(x: u64) -> u64 {
    (((x & 0xff) << 56) | (((x >> 8) & 0xff) << 48) | (((x >> 16) & 0xff) << 40) | (((x >> 24) & 0xff) << 32) | (((x >> 32) & 0xff) << 24) | (((x >> 40) & 0xff) << 16) | (((x >> 48) & 0xff) << 8) | (x >> 56)) as u64
}

/// Converts between the host's byte order and big-endian order (the same map both ways).
pub open spec fn u64_be(x: u64) -> u64 {
    if host_is_big_endian() {
        x
    } else {
        swap_u64(x)
    }
}

/// Converts between the host's byte order and little-endian order (the same map both ways).
pub open spec fn u64_le(x: u64) -> u64 {
    if host_is_big_endian() {
        swap_u64(x)
    } else {
        x
    }
}

/// `x` with the order of its bytes reversed.
pub open spec fn swap_i64(x: i64) -> i64 {
    swap_u64(x as u64) as i64
}

/// Converts between the host's byte order and big-endian order (the same map both ways).
pub open spec fn i64_be(x: i64) -> i64 {
    if host_is_big_endian() {
        x
    } else {
        swap_i64(x)
    }
}

/// Converts between the host's byte order and little-endian order (the same map both ways).
pub open spec fn i64_le(x: i64) -> i64 {
    if host_is_big_endian() {
        swap_i64(x)
    } else {
        x
    }
}

/// `x` with the order of its bytes reversed.
pub open spec fn swap_usize(x: usize) -> usize {
    if usize::BITS == 64 { swap_u64(x as u64) as usize } else { swap_u32(x as u32) as usize }
}

/// Converts between the host's byte order and big-endian order (the same map both ways).
pub open spec fn usize_be(x: usize) -> usize {
    if host_is_big_endian() {
        x
    } else {
        swap_usize(x)
    }
}

/// Converts between the host's byte order and little-endian order (the same map both ways).
pub open spec fn usize_le(x: usize) -> usize {
    if host_is_big_endian() {
        swap_usize(x)
    } else {
        x
    }
}

/// `x` with the order of its bytes reversed.
pub open spec fn swap_isize(x: isize) -> isize {
    swap_usize(x as usize) as isize
}

/// Converts between the host's byte order and big-endian order (the same map both ways).
pub open spec fn isize_be(x: isize) -> isize {
    if host_is_big_endian() {
        x
    } else {
        swap_isize(x)
    }
}

/// Converts between the host's byte order and little-endian order (the same map both ways).
pub open spec fn isize_le(x: isize) -> isize {
    if host_is_big_endian() {
        swap_isize(x)
    } else {
        x
    }
}

/// Reversing the bytes of `x` twice gives `x` back.
pub proof fn lemma_swap_u8_involutive(x: u8)
    ensures
        swap_u8(swap_u8(x)) == x,
{
}

/// A value converted to big-endian (or little-endian) order and back is unchanged,
/// and on every host one of the two orders is the host's own.
pub proof fn lemma_u8_order_roundtrip(x: u8)
    ensures
        u8_be(u8_be(x)) == x,
        u8_le(u8_le(x)) == x,
        u8_be(x) == x || u8_le(x) == x,
{
    lemma_swap_u8_involutive(x);
}

/// Reversing the bytes of `x` twice gives `x` back.
pub proof fn lemma_swap_i8_involutive(x: i8)
    ensures
        swap_i8(swap_i8(x)) == x,
{
    lemma_swap_u8_involutive(x as u8);
    let y = swap_u8(x as u8);
    assert((y as i8) as u8 == y) by (bit_vector);
    assert((x as u8) as i8 == x) by (bit_vector);
}

/// A value converted to big-endian (or little-endian) order and back is unchanged,
/// and on every host one of the two orders is the host's own.
pub proof fn lemma_i8_order_roundtrip(x: i8)
    ensures
        i8_be(i8_be(x)) == x,
        i8_le(i8_le(x)) == x,
        i8_be(x) == x || i8_le(x) == x,
{
    lemma_swap_i8_involutive(x);
}

/// Reversing the bytes of `x` twice gives `x` back.
pub proof fn lemma_swap_u16_involutive(x: u16)
    ensures
        swap_u16(swap_u16(x)) == x,
{
    assert(swap_u16(swap_u16(x)) == x) by (bit_vector);
}

/// A value converted to big-endian (or little-endian) order and back is unchanged,
/// and on every host one of the two orders is the host's own.
pub proof fn lemma_u16_order_roundtrip(x: u16)
    ensures
        u16_be(u16_be(x)) == x,
        u16_le(u16_le(x)) == x,
        u16_be(x) == x || u16_le(x) == x,
{
    lemma_swap_u16_involutive(x);
}

/// Reversing the bytes of `x` twice gives `x` back.
pub proof fn lemma_swap_i16_involutive(x: i16)
    ensures
        swap_i16(swap_i16(x)) == x,
{
    lemma_swap_u16_involutive(x as u16);
    let y = swap_u16(x as u16);
    assert((y as i16) as u16 == y) by (bit_vector);
    assert((x as u16) as i16 == x) by (bit_vector);
}

/// A value converted to big-endian (or little-endian) order and back is unchanged,
/// and on every host one of the two orders is the host's own.
pub proof fn lemma_i16_order_roundtrip(x: i16)
    ensures
        i16_be(i16_be(x)) == x,
        i16_le(i16_le(x)) == x,
        i16_be(x) == x || i16_le(x) == x,
{
    lemma_swap_i16_involutive(x);
}

/// Reversing the bytes of `x` twice gives `x` back.
pub proof fn lemma_swap_u32_involutive(x: u32)
    ensures
        swap_u32(swap_u32(x)) == x,
{
    assert(swap_u32(swap_u32(x)) == x) by (bit_vector);
}

/// A value converted to big-endian (or little-endian) order and back is unchanged,
/// and on every host one of the two orders is the host's own.
pub proof fn lemma_u32_order_roundtrip(x: u32)
    ensures
        u32_be(u32_be(x)) == x,
        u32_le(u32_le(x)) == x,
        u32_be(x) == x || u32_le(x) == x,
{
    lemma_swap_u32_involutive(x);
}

/// Reversing the bytes of `x` twice gives `x` back.
pub proof fn lemma_swap_i32_involutive(x: i32)
    ensures
        swap_i32(swap_i32(x)) == x,
{
    lemma_swap_u32_involutive(x as u32);
    let y = swap_u32(x as u32);
    assert((y as i32) as u32 == y) by (bit_vector);
    assert((x as u32) as i32 == x) by (bit_vector);
}

/// A value converted to big-endian (or little-endian) order and back is unchanged,
/// and on every host one of the two orders is the host's own.
pub proof fn lemma_i32_order_roundtrip(x: i32)
    ensures
        i32_be(i32_be(x)) == x,
        i32_le(i32_le(x)) == x,
        i32_be(x) == x || i32_le(x) == x,
{
    lemma_swap_i32_involutive(x);
}

/// Reversing the bytes of `x` twice gives `x` back.
pub proof fn lemma_swap_u64_involutive(x: u64)
    ensures
        swap_u64(swap_u64(x)) == x,
{
    assert(swap_u64(swap_u64(x)) == x) by (bit_vector);
}

/// A value converted to big-endian (or little-endian) order and back is unchanged,
/// and on every host one of the two orders is the host's own.
pub proof fn lemma_u64_order_roundtrip(x: u64)
    ensures
        u64_be(u64_be(x)) == x,
        u64_le(u64_le(x)) == x,
        u64_be(x) == x || u64_le(x) == x,
{
    lemma_swap_u64_involutive(x);
}

/// Reversing the bytes of `x` twice gives `x` back.
pub proof fn lemma_swap_i64_involutive(x: i64)
    ensures
        swap_i64(swap_i64(x)) == x,
{
    lemma_swap_u64_involutive(x as u64);
    let y = swap_u64(x as u64);
    assert((y as i64) as u64 == y) by (bit_vector);
    assert((x as u64) as i64 == x) by (bit_vector);
}

/// A value converted to big-endian (or little-endian) order and back is unchanged,
/// and on every host one of the two orders is the host's own.
pub proof fn lemma_i64_order_roundtrip(x: i64)
    ensures
        i64_be(i64_be(x)) == x,
        i64_le(i64_le(x)) == x,
        i64_be(x) == x || i64_le(x) == x,
{
    lemma_swap_i64_involutive(x);
}

/// Reversing the bytes of `x` twice gives `x` back.
pub proof fn lemma_swap_usize_involutive(x: usize)
    ensures
        swap_usize(swap_usize(x)) == x,
{
    if usize::BITS == 64 {
        lemma_swap_u64_involutive(x as u64);
        assert((x as u64) as usize == x) by (bit_vector) requires usize::BITS == 64;
        assert(((swap_u64(x as u64) as usize) as u64) == swap_u64(x as u64)) by (bit_vector) requires usize::BITS == 64;
    } else {
        lemma_swap_u32_involutive(x as u32);
        assert((x as u32) as usize == x) by (bit_vector) requires usize::BITS == 32;
        assert(((swap_u32(x as u32) as usize) as u32) == swap_u32(x as u32)) by (bit_vector) requires usize::BITS == 32;
    }
}

/// A value converted to big-endian (or little-endian) order and back is unchanged,
/// and on every host one of the two orders is the host's own.
pub proof fn lemma_usize_order_roundtrip(x: usize)
    ensures
        usize_be(usize_be(x)) == x,
        usize_le(usize_le(x)) == x,
        usize_be(x) == x || usize_le(x) == x,
{
    lemma_swap_usize_involutive(x);
}

/// Reversing the bytes of `x` twice gives `x` back.
pub proof fn lemma_swap_isize_involutive(x: isize)
    ensures
        swap_isize(swap_isize(x)) == x,
{
    lemma_swap_usize_involutive(x as usize);
    let y = swap_usize(x as usize);
    assert((y as isize) as usize == y) by (bit_vector);
    assert((x as usize) as isize == x) by (bit_vector);
}

/// A value converted to big-endian (or little-endian) order and back is unchanged,
/// and on every host one of the two orders is the host's own.
pub proof fn lemma_isize_order_roundtrip(x: isize)
    ensures
        isize_be(isize_be(x)) == x,
        isize_le(isize_le(x)) == x,
        isize_be(x) == x || isize_le(x) == x,
{
    lemma_swap_isize_involutive(x);
}

/// Specification of `u8::to_be`: the identity where the host's order is
/// big-endian, the byte-reversed value otherwise.
pub assume_specification[ u8::to_be ](x: u8) -> (r: u8)
    ensures
        r == u8_be(x),
;

/// Specification of `u8::from_be`: the same map as `u8::to_be`.
pub assume_specification[ u8::from_be ](x: u8) -> (r: u8)
    ensures
        r == u8_be(x),
;

/// Specification of `u8::to_le`: the identity where the host's order is
/// little-endian, the byte-reversed value otherwise.
pub assume_specification[ u8::to_le ](x: u8) -> (r: u8)
    ensures
        r == u8_le(x),
;

/// Specification of `u8::from_le`: the same map as `u8::to_le`.
pub assume_specification[ u8::from_le ](x: u8) -> (r: u8)
    ensures
        r == u8_le(x),
;

/// Specification of `i8::to_be`: the identity where the host's order is
/// big-endian, the byte-reversed value otherwise.
pub assume_specification[ i8::to_be ](x: i8) -> (r: i8)
    ensures
        r == i8_be(x),
;

/// Specification of `i8::from_be`: the same map as `i8::to_be`.
pub assume_specification[ i8::from_be ](x: i8) -> (r: i8)
    ensures
        r == i8_be(x),
;

/// Specification of `i8::to_le`: the identity where the host's order is
/// little-endian, the byte-reversed value otherwise.
pub assume_specification[ i8::to_le ](x: i8) -> (r: i8)
    ensures
        r == i8_le(x),
;

/// Specification of `i8::from_le`: the same map as `i8::to_le`.
pub assume_specification[ i8::from_le ](x: i8) -> (r: i8)
    ensures
        r == i8_le(x),
;

/// Specification of `u16::to_be`: the identity where the host's order is
/// big-endian, the byte-reversed value otherwise.
pub assume_specification[ u16::to_be ](x: u16) -> (r: u16)
    ensures
        r == u16_be(x),
;

/// Specification of `u16::from_be`: the same map as `u16::to_be`.
pub assume_specification[ u16::from_be ](x: u16) -> (r: u16)
    ensures
        r == u16_be(x),
;

/// Specification of `u16::to_le`: the identity where the host's order is
/// little-endian, the byte-reversed value otherwise.
pub assume_specification[ u16::to_le ](x: u16) -> (r: u16)
    ensures
        r == u16_le(x),
;

/// Specification of `u16::from_le`: the same map as `u16::to_le`.
pub assume_specification[ u16::from_le ](x: u16) -> (r: u16)
    ensures
        r == u16_le(x),
;

/// Specification of `i16::to_be`: the identity where the host's order is
/// big-endian, the byte-reversed value otherwise.
pub assume_specification[ i16::to_be ](x: i16) -> (r: i16)
    ensures
        r == i16_be(x),
;

/// Specification of `i16::from_be`: the same map as `i16::to_be`.
pub assume_specification[ i16::from_be ](x: i16) -> (r: i16)
    ensures
        r == i16_be(x),
;

/// Specification of `i16::to_le`: the identity where the host's order is
/// little-endian, the byte-reversed value otherwise.
pub assume_specification[ i16::to_le ](x: i16) -> (r: i16)
    ensures
        r == i16_le(x),
;

/// Specification of `i16::from_le`: the same map as `i16::to_le`.
pub assume_specification[ i16::from_le ](x: i16) -> (r: i16)
    ensures
        r == i16_le(x),
;

/// Specification of `u32::to_be`: the identity where the host's order is
/// big-endian, the byte-reversed value otherwise.
pub assume_specification[ u32::to_be ](x: u32) -> (r: u32)
    ensures
        r == u32_be(x),
;

/// Specification of `u32::from_be`: the same map as `u32::to_be`.
pub assume_specification[ u32::from_be ](x: u32) -> (r: u32)
    ensures
        r == u32_be(x),
;

/// Specification of `u32::to_le`: the identity where the host's order is
/// little-endian, the byte-reversed value otherwise.
pub assume_specification[ u32::to_le ](x: u32) -> (r: u32)
    ensures
        r == u32_le(x),
;

/// Specification of `u32::from_le`: the same map as `u32::to_le`.
pub assume_specification[ u32::from_le ](x: u32) -> (r: u32)
    ensures
        r == u32_le(x),
;

/// Specification of `i32::to_be`: the identity where the host's order is
/// big-endian, the byte-reversed value otherwise.
pub assume_specification[ i32::to_be ](x: i32) -> (r: i32)
    ensures
        r == i32_be(x),
;

/// Specification of `i32::from_be`: the same map as `i32::to_be`.
pub assume_specification[ i32::from_be ](x: i32) -> (r: i32)
    ensures
        r == i32_be(x),
;

/// Specification of `i32::to_le`: the identity where the host's order is
/// little-endian, the byte-reversed value otherwise.
pub assume_specification[ i32::to_le ](x: i32) -> (r: i32)
    ensures
        r == i32_le(x),
;

/// Specification of `i32::from_le`: the same map as `i32::to_le`.
pub assume_specification[ i32::from_le ](x: i32) -> (r: i32)
    ensures
        r == i32_le(x),
;

/// Specification of `u64::to_be`: the identity where the host's order is
/// big-endian, the byte-reversed value otherwise.
pub assume_specification[ u64::to_be ](x: u64) -> (r: u64)
    ensures
        r == u64_be(x),
;

/// Specification of `u64::from_be`: the same map as `u64::to_be`.
pub assume_specification[ u64::from_be ](x: u64) -> (r: u64)
    ensures
        r == u64_be(x),
;

/// Specification of `u64::to_le`: the identity where the host's order is
/// little-endian, the byte-reversed value otherwise.
pub assume_specification[ u64::to_le ](x: u64) -> (r: u64)
    ensures
        r == u64_le(x),
;

/// Specification of `u64::from_le`: the same map as `u64::to_le`.
pub assume_specification[ u64::from_le ](x: u64) -> (r: u64)
    ensures
        r == u64_le(x),
;

/// Specification of `i64::to_be`: the identity where the host's order is
/// big-endian, the byte-reversed value otherwise.
pub assume_specification[ i64::to_be ](x: i64) -> (r: i64)
    ensures
        r == i64_be(x),
;

/// Specification of `i64::from_be`: the same map as `i64::to_be`.
pub assume_specification[ i64::from_be ](x: i64) -> (r: i64)
    ensures
        r == i64_be(x),
;

/// Specification of `i64::to_le`: the identity where the host's order is
/// little-endian, the byte-reversed value otherwise.
pub assume_specification[ i64::to_le ](x: i64) -> (r: i64)
    ensures
        r == i64_le(x),
;

/// Specification of `i64::from_le`: the same map as `i64::to_le`.
pub assume_specification[ i64::from_le ](x: i64) -> (r: i64)
    ensures
        r == i64_le(x),
;

/// Specification of `usize::to_be`: the identity where the host's order is
/// big-endian, the byte-reversed value otherwise.
pub assume_specification[ usize::to_be ](x: usize) -> (r: usize)
    ensures
        r == usize_be(x),
;

/// Specification of `usize::from_be`: the same map as `usize::to_be`.
pub assume_specification[ usize::from_be ](x: usize) -> (r: usize)
    ensures
        r == usize_be(x),
;

/// Specification of `usize::to_le`: the identity where the host's order is
/// little-endian, the byte-reversed value otherwise.
pub assume_specification[ usize::to_le ](x: usize) -> (r: usize)
    ensures
        r == usize_le(x),
;

/// Specification of `usize::from_le`: the same map as `usize::to_le`.
pub assume_specification[ usize::from_le ](x: usize) -> (r: usize)
    ensures
        r == usize_le(x),
;

/// Specification of `isize::to_be`: the identity where the host's order is
/// big-endian, the byte-reversed value otherwise.
pub assume_specification[ isize::to_be ](x: isize) -> (r: isize)
    ensures
        r == isize_be(x),
;

/// Specification of `isize::from_be`: the same map as `isize::to_be`.
pub assume_specification[ isize::from_be ](x: isize) -> (r: isize)
    ensures
        r == isize_be(x),
;

/// Specification of `isize::to_le`: the identity where the host's order is
/// little-endian, the byte-reversed value otherwise.
pub assume_specification[ isize::to_le ](x: isize) -> (r: isize)
    ensures
        r == isize_le(x),
;

/// Specification of `isize::from_le`: the same map as `isize::to_le`.
pub assume_specification[ isize::from_le ](x: isize) -> (r: isize)
    ensures
        r == isize_le(x),
;

/// A `u8` stored in big-endian byte order.
#[derive(Debug, Clone, Copy, Default, Eq, PartialEq, Hash, Structural)]
pub struct BeU8(u8);

impl BeU8 {
    /// The stored integer, in big-endian byte order.
    pub closed spec fn raw(self) -> u8 {
        self.0
    }

    /// The value that the stored bytes stand for.
    pub open spec fn value(self) -> u8 {
        u8_be(self.raw())
    }

    /// Stores `value` in big-endian byte order.
    pub fn new(value: u8) -> (r: Self)
        ensures
            r.raw() == u8_be(value),
            r.value() == value,
    {
        proof {
            lemma_u8_order_roundtrip(value);
        }
        value.into()
    }

    /// The stored integer, in big-endian byte order.
    pub fn inner(&self) -> (r: &u8)
        ensures
            *r == self.raw(),
    {
        &self.0
    }

    /// A mutable reference to the stored integer.
    pub fn inner_mut(&mut self) -> (r: &mut u8)
        ensures
            *r == old(self).raw(),
            final(self).raw() == *final(r),
    {
        &mut self.0
    }
}

impl From<BeU8> for u8 {
    fn from(value: BeU8) -> (r: u8)
        ensures
            r == value.value(),
    {
        u8::from_be(value.0)
    }
}

impl vstd::std_specs::convert::FromSpecImpl<BeU8> for u8 {
    open spec fn obeys_from_spec() -> bool {
        true
    }

    open spec fn from_spec(v: BeU8) -> u8 {
        v.value()
    }
}

impl From<u8> for BeU8 {
    fn from(value: u8) -> (r: BeU8)
        ensures
            r.raw() == u8_be(value),
    {
        BeU8(u8::to_be(value))
    }
}

impl vstd::std_specs::convert::FromSpecImpl<u8> for BeU8 {
    open spec fn obeys_from_spec() -> bool {
        true
    }

    closed spec fn from_spec(v: u8) -> BeU8 {
        BeU8(u8_be(v))
    }
}

/// A `u8` stored in little-endian byte order.
#[derive(Debug, Clone, Copy, Default, Eq, PartialEq, Hash, Structural)]
pub struct LeU8(u8);

impl LeU8 {
    /// The stored integer, in little-endian byte order.
    pub closed spec fn raw(self) -> u8 {
        self.0
    }

    /// The value that the stored bytes stand for.
    pub open spec fn value(self) -> u8 {
        u8_le(self.raw())
    }

    /// Stores `value` in little-endian byte order.
    pub fn new(value: u8) -> (r: Self)
        ensures
            r.raw() == u8_le(value),
            r.value() == value,
    {
        proof {
            lemma_u8_order_roundtrip(value);
        }
        value.into()
    }

    /// The stored integer, in little-endian byte order.
    pub fn inner(&self) -> (r: &u8)
        ensures
            *r == self.raw(),
    {
        &self.0
    }

    /// A mutable reference to the stored integer.
    pub fn inner_mut(&mut self) -> (r: &mut u8)
        ensures
            *r == old(self).raw(),
            final(self).raw() == *final(r),
    {
        &mut self.0
    }
}

impl From<LeU8> for u8 {
    fn from(value: LeU8) -> (r: u8)
        ensures
            r == value.value(),
    {
        u8::from_le(value.0)
    }
}

impl vstd::std_specs::convert::FromSpecImpl<LeU8> for u8 {
    open spec fn obeys_from_spec() -> bool {
        true
    }

    open spec fn from_spec(v: LeU8) -> u8 {
        v.value()
    }
}

impl From<u8> for LeU8 {
    fn from(value: u8) -> (r: LeU8)
        ensures
            r.raw() == u8_le(value),
    {
        LeU8(u8::to_le(value))
    }
}

impl vstd::std_specs::convert::FromSpecImpl<u8> for LeU8 {
    open spec fn obeys_from_spec() -> bool {
        true
    }

    closed spec fn from_spec(v: u8) -> LeU8 {
        LeU8(u8_le(v))
    }
}

/// A `u8` in network byte order.
pub type NeU8 = BeU8;

/// A `i8` stored in big-endian byte order.
#[derive(Debug, Clone, Copy, Default, Eq, PartialEq, Hash, Structural)]
pub struct BeI8(i8);

impl BeI8 {
    /// The stored integer, in big-endian byte order.
    pub closed spec fn raw(self) -> i8 {
        self.0
    }

    /// The value that the stored bytes stand for.
    pub open spec fn value(self) -> i8 {
        i8_be(self.raw())
    }

    /// Stores `value` in big-endian byte order.
    pub fn new(value: i8) -> (r: Self)
        ensures
            r.raw() == i8_be(value),
            r.value() == value,
    {
        proof {
            lemma_i8_order_roundtrip(value);
        }
        value.into()
    }

    /// The stored integer, in big-endian byte order.
    pub fn inner(&self) -> (r: &i8)
        ensures
            *r == self.raw(),
    {
        &self.0
    }

    /// A mutable reference to the stored integer.
    pub fn inner_mut(&mut self) -> (r: &mut i8)
        ensures
            *r == old(self).raw(),
            final(self).raw() == *final(r),
    {
        &mut self.0
    }
}

impl From<BeI8> for i8 {
    fn from(value: BeI8) -> (r: i8)
        ensures
            r == value.value(),
    {
        i8::from_be(value.0)
    }
}

impl vstd::std_specs::convert::FromSpecImpl<BeI8> for i8 {
    open spec fn obeys_from_spec() -> bool {
        true
    }

    open spec fn from_spec(v: BeI8) -> i8 {
        v.value()
    }
}

impl From<i8> for BeI8 {
    fn from(value: i8) -> (r: BeI8)
        ensures
            r.raw() == i8_be(value),
    {
        BeI8(i8::to_be(value))
    }
}

impl vstd::std_specs::convert::FromSpecImpl<i8> for BeI8 {
    open spec fn obeys_from_spec() -> bool {
        true
    }

    closed spec fn from_spec(v: i8) -> BeI8 {
        BeI8(i8_be(v))
    }
}

/// A `i8` stored in little-endian byte order.
#[derive(Debug, Clone, Copy, Default, Eq, PartialEq, Hash, Structural)]
pub struct LeI8(i8);

impl LeI8 {
    /// The stored integer, in little-endian byte order.
    pub closed spec fn raw(self) -> i8 {
        self.0
    }

    /// The value that the stored bytes stand for.
    pub open spec fn value(self) -> i8 {
        i8_le(self.raw())
    }

    /// Stores `value` in little-endian byte order.
    pub fn new(value: i8) -> (r: Self)
        ensures
            r.raw() == i8_le(value),
            r.value() == value,
    {
        proof {
            lemma_i8_order_roundtrip(value);
        }
        value.into()
    }

    /// The stored integer, in little-endian byte order.
    pub fn inner(&self) -> (r: &i8)
        ensures
            *r == self.raw(),
    {
        &self.0
    }

    /// A mutable reference to the stored integer.
    pub fn inner_mut(&mut self) -> (r: &mut i8)
        ensures
            *r == old(self).raw(),
            final(self).raw() == *final(r),
    {
        &mut self.0
    }
}

impl From<LeI8> for i8 {
    fn from(value: LeI8) -> (r: i8)
        ensures
            r == value.value(),
    {
        i8::from_le(value.0)
    }
}

impl vstd::std_specs::convert::FromSpecImpl<LeI8> for i8 {
    open spec fn obeys_from_spec() -> bool {
        true
    }

    open spec fn from_spec(v: LeI8) -> i8 {
        v.value()
    }
}

impl From<i8> for LeI8 {
    fn from(value: i8) -> (r: LeI8)
        ensures
            r.raw() == i8_le(value),
    {
        LeI8(i8::to_le(value))
    }
}

impl vstd::std_specs::convert::FromSpecImpl<i8> for LeI8 {
    open spec fn obeys_from_spec() -> bool {
        true
    }

    closed spec fn from_spec(v: i8) -> LeI8 {
        LeI8(i8_le(v))
    }
}

/// A `i8` in network byte order.
pub type NeI8 = BeI8;

/// A `u16` stored in big-endian byte order.
#[derive(Debug, Clone, Copy, Default, Eq, PartialEq, Hash, Structural)]
pub struct BeU16(u16);

impl BeU16 {
    /// The stored integer, in big-endian byte order.
    pub closed spec fn raw(self) -> u16 {
        self.0
    }

    /// The value that the stored bytes stand for.
    pub open spec fn value(self) -> u16 {
        u16_be(self.raw())
    }

    /// Stores `value` in big-endian byte order.
    pub fn new(value: u16) -> (r: Self)
        ensures
            r.raw() == u16_be(value),
            r.value() == value,
    {
        proof {
            lemma_u16_order_roundtrip(value);
        }
        value.into()
    }

    /// The stored integer, in big-endian byte order.
    pub fn inner(&self) -> (r: &u16)
        ensures
            *r == self.raw(),
    {
        &self.0
    }

    /// A mutable reference to the stored integer.
    pub fn inner_mut(&mut self) -> (r: &mut u16)
        ensures
            *r == old(self).raw(),
            final(self).raw() == *final(r),
    {
        &mut self.0
    }
}

impl From<BeU16> for u16 {
    fn from(value: BeU16) -> (r: u16)
        ensures
            r == value.value(),
    {
        u16::from_be(value.0)
    }
}

impl vstd::std_specs::convert::FromSpecImpl<BeU16> for u16 {
    open spec fn obeys_from_spec() -> bool {
        true
    }

    open spec fn from_spec(v: BeU16) -> u16 {
        v.value()
    }
}

impl From<u16> for BeU16 {
    fn from(value: u16) -> (r: BeU16)
        ensures
            r.raw() == u16_be(value),
    {
        BeU16(u16::to_be(value))
    }
}

impl vstd::std_specs::convert::FromSpecImpl<u16> for BeU16 {
    open spec fn obeys_from_spec() -> bool {
        true
    }

    closed spec fn from_spec(v: u16) -> BeU16 {
        BeU16(u16_be(v))
    }
}

/// A `u16` stored in little-endian byte order.
#[derive(Debug, Clone, Copy, Default, Eq, PartialEq, Hash, Structural)]
pub struct LeU16(u16);

impl LeU16 {
    /// The stored integer, in little-endian byte order.
    pub closed spec fn raw(self) -> u16 {
        self.0
    }

    /// The value that the stored bytes stand for.
    pub open spec fn value(self) -> u16 {
        u16_le(self.raw())
    }

    /// Stores `value` in little-endian byte order.
    pub fn new(value: u16) -> (r: Self)
        ensures
            r.raw() == u16_le(value),
            r.value() == value,
    {
        proof {
            lemma_u16_order_roundtrip(value);
        }
        value.into()
    }

    /// The stored integer, in little-endian byte order.
    pub fn inner(&self) -> (r: &u16)
        ensures
            *r == self.raw(),
    {
        &self.0
    }

    /// A mutable reference to the stored integer.
    pub fn inner_mut(&mut self) -> (r: &mut u16)
        ensures
            *r == old(self).raw(),
            final(self).raw() == *final(r),
    {
        &mut self.0
    }
}

impl From<LeU16> for u16 {
    fn from(value: LeU16) -> (r: u16)
        ensures
            r == value.value(),
    {
        u16::from_le(value.0)
    }
}

impl vstd::std_specs::convert::FromSpecImpl<LeU16> for u16 {
    open spec fn obeys_from_spec() -> bool {
        true
    }

    open spec fn from_spec(v: LeU16) -> u16 {
        v.value()
    }
}

impl From<u16> for LeU16 {
    fn from(value: u16) -> (r: LeU16)
        ensures
            r.raw() == u16_le(value),
    {
        LeU16(u16::to_le(value))
    }
}

impl vstd::std_specs::convert::FromSpecImpl<u16> for LeU16 {
    open spec fn obeys_from_spec() -> bool {
        true
    }

    closed spec fn from_spec(v: u16) -> LeU16 {
        LeU16(u16_le(v))
    }
}

/// A `u16` in network byte order.
pub type NeU16 = BeU16;

/// A `i16` stored in big-endian byte order.
#[derive(Debug, Clone, Copy, Default, Eq, PartialEq, Hash, Structural)]
pub struct BeI16(i16);

impl BeI16 {
    /// The stored integer, in big-endian byte order.
    pub closed spec fn raw(self) -> i16 {
        self.0
    }

    /// The value that the stored bytes stand for.
    pub open spec fn value(self) -> i16 {
        i16_be(self.raw())
    }

    /// Stores `value` in big-endian byte order.
    pub fn new(value: i16) -> (r: Self)
        ensures
            r.raw() == i16_be(value),
            r.value() == value,
    {
        proof {
            lemma_i16_order_roundtrip(value);
        }
        value.into()
    }

    /// The stored integer, in big-endian byte order.
    pub fn inner(&self) -> (r: &i16)
        ensures
            *r == self.raw(),
    {
        &self.0
    }

    /// A mutable reference to the stored integer.
    pub fn inner_mut(&mut self) -> (r: &mut i16)
        ensures
            *r == old(self).raw(),
            final(self).raw() == *final(r),
    {
        &mut self.0
    }
}

impl From<BeI16> for i16 {
    fn from(value: BeI16) -> (r: i16)
        ensures
            r == value.value(),
    {
        i16::from_be(value.0)
    }
}

impl vstd::std_specs::convert::FromSpecImpl<BeI16> for i16 {
    open spec fn obeys_from_spec() -> bool {
        true
    }

    open spec fn from_spec(v: BeI16) -> i16 {
        v.value()
    }
}

impl From<i16> for BeI16 {
    fn from(value: i16) -> (r: BeI16)
        ensures
            r.raw() == i16_be(value),
    {
        BeI16(i16::to_be(value))
    }
}

impl vstd::std_specs::convert::FromSpecImpl<i16> for BeI16 {
    open spec fn obeys_from_spec() -> bool {
        true
    }

    closed spec fn from_spec(v: i16) -> BeI16 {
        BeI16(i16_be(v))
    }
}

/// A `i16` stored in little-endian byte order.
#[derive(Debug, Clone, Copy, Default, Eq, PartialEq, Hash, Structural)]
pub struct LeI16(i16);

impl LeI16 {
    /// The stored integer, in little-endian byte order.
    pub closed spec fn raw(self) -> i16 {
        self.0
    }

    /// The value that the stored bytes stand for.
    pub open spec fn value(self) -> i16 {
        i16_le(self.raw())
    }

    /// Stores `value` in little-endian byte order.
    pub fn new(value: i16) -> (r: Self)
        ensures
            r.raw() == i16_le(value),
            r.value() == value,
    {
        proof {
            lemma_i16_order_roundtrip(value);
        }
        value.into()
    }

    /// The stored integer, in little-endian byte order.
    pub fn inner(&self) -> (r: &i16)
        ensures
            *r == self.raw(),
    {
        &self.0
    }

    /// A mutable reference to the stored integer.
    pub fn inner_mut(&mut self) -> (r: &mut i16)
        ensures
            *r == old(self).raw(),
            final(self).raw() == *final(r),
    {
        &mut self.0
    }
}

impl From<LeI16> for i16 {
    fn from(value: LeI16) -> (r: i16)
        ensures
            r == value.value(),
    {
        i16::from_le(value.0)
    }
}

impl vstd::std_specs::convert::FromSpecImpl<LeI16> for i16 {
    open spec fn obeys_from_spec() -> bool {
        true
    }

    open spec fn from_spec(v: LeI16) -> i16 {
        v.value()
    }
}

impl From<i16> for LeI16 {
    fn from(value: i16) -> (r: LeI16)
        ensures
            r.raw() == i16_le(value),
    {
        LeI16(i16::to_le(value))
    }
}

impl vstd::std_specs::convert::FromSpecImpl<i16> for LeI16 {
    open spec fn obeys_from_spec() -> bool {
        true
    }

    closed spec fn from_spec(v: i16) -> LeI16 {
        LeI16(i16_le(v))
    }
}

/// A `i16` in network byte order.
pub type NeI16 = BeI16;

/// A `u32` stored in big-endian byte order.
#[derive(Debug, Clone, Copy, Default, Eq, PartialEq, Hash, Structural)]
pub struct BeU32(u32);

impl BeU32 {
    /// The stored integer, in big-endian byte order.
    pub closed spec fn raw(self) -> u32 {
        self.0
    }

    /// The value that the stored bytes stand for.
    pub open spec fn value(self) -> u32 {
        u32_be(self.raw())
    }

    /// Stores `value` in big-endian byte order.
    pub fn new(value: u32) -> (r: Self)
        ensures
            r.raw() == u32_be(value),
            r.value() == value,
    {
        proof {
            lemma_u32_order_roundtrip(value);
        }
        value.into()
    }

    /// The stored integer, in big-endian byte order.
    pub fn inner(&self) -> (r: &u32)
        ensures
            *r == self.raw(),
    {
        &self.0
    }

    /// A mutable reference to the stored integer.
    pub fn inner_mut(&mut self) -> (r: &mut u32)
        ensures
            *r == old(self).raw(),
            final(self).raw() == *final(r),
    {
        &mut self.0
    }
}

impl From<BeU32> for u32 {
    fn from(value: BeU32) -> (r: u32)
        ensures
            r == value.value(),
    {
        u32::from_be(value.0)
    }
}

impl vstd::std_specs::convert::FromSpecImpl<BeU32> for u32 {
    open spec fn obeys_from_spec() -> bool {
        true
    }

    open spec fn from_spec(v: BeU32) -> u32 {
        v.value()
    }
}

impl From<u32> for BeU32 {
    fn from(value: u32) -> (r: BeU32)
        ensures
            r.raw() == u32_be(value),
    {
        BeU32(u32::to_be(value))
    }
}

impl vstd::std_specs::convert::FromSpecImpl<u32> for BeU32 {
    open spec fn obeys_from_spec() -> bool {
        true
    }

    closed spec fn from_spec(v: u32) -> BeU32 {
        BeU32(u32_be(v))
    }
}

/// A `u32` stored in little-endian byte order.
#[derive(Debug, Clone, Copy, Default, Eq, PartialEq, Hash, Structural)]
pub struct LeU32(u32);

impl LeU32 {
    /// The stored integer, in little-endian byte order.
    pub closed spec fn raw(self) -> u32 {
        self.0
    }

    /// The value that the stored bytes stand for.
    pub open spec fn value(self) -> u32 {
        u32_le(self.raw())
    }

    /// Stores `value` in little-endian byte order.
    pub fn new(value: u32) -> (r: Self)
        ensures
            r.raw() == u32_le(value),
            r.value() == value,
    {
        proof {
            lemma_u32_order_roundtrip(value);
        }
        value.into()
    }

    /// The stored integer, in little-endian byte order.
    pub fn inner(&self) -> (r: &u32)
        ensures
            *r == self.raw(),
    {
        &self.0
    }

    /// A mutable reference to the stored integer.
    pub fn inner_mut(&mut self) -> (r: &mut u32)
        ensures
            *r == old(self).raw(),
            final(self).raw() == *final(r),
    {
        &mut self.0
    }
}

impl From<LeU32> for u32 {
    fn from(value: LeU32) -> (r: u32)
        ensures
            r == value.value(),
    {
        u32::from_le(value.0)
    }
}

impl vstd::std_specs::convert::FromSpecImpl<LeU32> for u32 {
    open spec fn obeys_from_spec() -> bool {
        true
    }

    open spec fn from_spec(v: LeU32) -> u32 {
        v.value()
    }
}

impl From<u32> for LeU32 {
    fn from(value: u32) -> (r: LeU32)
        ensures
            r.raw() == u32_le(value),
    {
        LeU32(u32::to_le(value))
    }
}

impl vstd::std_specs::convert::FromSpecImpl<u32> for LeU32 {
    open spec fn obeys_from_spec() -> bool {
        true
    }

    closed spec fn from_spec(v: u32) -> LeU32 {
        LeU32(u32_le(v))
    }
}

/// A `u32` in network byte order.
pub type NeU32 = BeU32;

/// A `i32` stored in big-endian byte order.
#[derive(Debug, Clone, Copy, Default, Eq, PartialEq, Hash, Structural)]
pub struct BeI32(i32);

impl BeI32 {
    /// The stored integer, in big-endian byte order.
    pub closed spec fn raw(self) -> i32 {
        self.0
    }

    /// The value that the stored bytes stand for.
    pub open spec fn value(self) -> i32 {
        i32_be(self.raw())
    }

    /// Stores `value` in big-endian byte order.
    pub fn new(value: i32) -> (r: Self)
        ensures
            r.raw() == i32_be(value),
            r.value() == value,
    {
        proof {
            lemma_i32_order_roundtrip(value);
        }
        value.into()
    }

    /// The stored integer, in big-endian byte order.
    pub fn inner(&self) -> (r: &i32)
        ensures
            *r == self.raw(),
    {
        &self.0
    }

    /// A mutable reference to the stored integer.
    pub fn inner_mut(&mut self) -> (r: &mut i32)
        ensures
            *r == old(self).raw(),
            final(self).raw() == *final(r),
    {
        &mut self.0
    }
}

impl From<BeI32> for i32 {
    fn from(value: BeI32) -> (r: i32)
        ensures
            r == value.value(),
    {
        i32::from_be(value.0)
    }
}

impl vstd::std_specs::convert::FromSpecImpl<BeI32> for i32 {
    open spec fn obeys_from_spec() -> bool {
        true
    }

    open spec fn from_spec(v: BeI32) -> i32 {
        v.value()
    }
}

impl From<i32> for BeI32 {
    fn from(value: i32) -> (r: BeI32)
        ensures
            r.raw() == i32_be(value),
    {
        BeI32(i32::to_be(value))
    }
}

impl vstd::std_specs::convert::FromSpecImpl<i32> for BeI32 {
    open spec fn obeys_from_spec() -> bool {
        true
    }

    closed spec fn from_spec(v: i32) -> BeI32 {
        BeI32(i32_be(v))
    }
}

/// A `i32` stored in little-endian byte order.
#[derive(Debug, Clone, Copy, Default, Eq, PartialEq, Hash, Structural)]
pub struct LeI32(i32);

impl LeI32 {
    /// The stored integer, in little-endian byte order.
    pub closed spec fn raw(self) -> i32 {
        self.0
    }

    /// The value that the stored bytes stand for.
    pub open spec fn value(self) -> i32 {
        i32_le(self.raw())
    }

    /// Stores `value` in little-endian byte order.
    pub fn new(value: i32) -> (r: Self)
        ensures
            r.raw() == i32_le(value),
            r.value() == value,
    {
        proof {
            lemma_i32_order_roundtrip(value);
        }
        value.into()
    }

    /// The stored integer, in little-endian byte order.
    pub fn inner(&self) -> (r: &i32)
        ensures
            *r == self.raw(),
    {
        &self.0
    }

    /// A mutable reference to the stored integer.
    pub fn inner_mut(&mut self) -> (r: &mut i32)
        ensures
            *r == old(self).raw(),
            final(self).raw() == *final(r),
    {
        &mut self.0
    }
}

impl From<LeI32> for i32 {
    fn from(value: LeI32) -> (r: i32)
        ensures
            r == value.value(),
    {
        i32::from_le(value.0)
    }
}

impl vstd::std_specs::convert::FromSpecImpl<LeI32> for i32 {
    open spec fn obeys_from_spec() -> bool {
        true
    }

    open spec fn from_spec(v: LeI32) -> i32 {
        v.value()
    }
}

impl From<i32> for LeI32 {
    fn from(value: i32) -> (r: LeI32)
        ensures
            r.raw() == i32_le(value),
    {
        LeI32(i32::to_le(value))
    }
}

impl vstd::std_specs::convert::FromSpecImpl<i32> for LeI32 {
    open spec fn obeys_from_spec() -> bool {
        true
    }

    closed spec fn from_spec(v: i32) -> LeI32 {
        LeI32(i32_le(v))
    }
}

/// A `i32` in network byte order.
pub type NeI32 = BeI32;

/// A `u64` stored in big-endian byte order.
#[derive(Debug, Clone, Copy, Default, Eq, PartialEq, Hash, Structural)]
pub struct BeU64(u64);

impl BeU64 {
    /// The stored integer, in big-endian byte order.
    pub closed spec fn raw(self) -> u64 {
        self.0
    }

    /// The value that the stored bytes stand for.
    pub open spec fn value(self) -> u64 {
        u64_be(self.raw())
    }

    /// Stores `value` in big-endian byte order.
    pub fn new(value: u64) -> (r: Self)
        ensures
            r.raw() == u64_be(value),
            r.value() == value,
    {
        proof {
            lemma_u64_order_roundtrip(value);
        }
        value.into()
    }

    /// The stored integer, in big-endian byte order.
    pub fn inner(&self) -> (r: &u64)
        ensures
            *r == self.raw(),
    {
        &self.0
    }

    /// A mutable reference to the stored integer.
    pub fn inner_mut(&mut self) -> (r: &mut u64)
        ensures
            *r == old(self).raw(),
            final(self).raw() == *final(r),
    {
        &mut self.0
    }
}

impl From<BeU64> for u64 {
    fn from(value: BeU64) -> (r: u64)
        ensures
            r == value.value(),
    {
        u64::from_be(value.0)
    }
}

impl vstd::std_specs::convert::FromSpecImpl<BeU64> for u64 {
    open spec fn obeys_from_spec() -> bool {
        true
    }

    open spec fn from_spec(v: BeU64) -> u64 {
        v.value()
    }
}

impl From<u64> for BeU64 {
    fn from(value: u64) -> (r: BeU64)
        ensures
            r.raw() == u64_be(value),
    {
        BeU64(u64::to_be(value))
    }
}

impl vstd::std_specs::convert::FromSpecImpl<u64> for BeU64 {
    open spec fn obeys_from_spec() -> bool {
        true
    }

    closed spec fn from_spec(v: u64) -> BeU64 {
        BeU64(u64_be(v))
    }
}

/// A `u64` stored in little-endian byte order.
#[derive(Debug, Clone, Copy, Default, Eq, PartialEq, Hash, Structural)]
pub struct LeU64(u64);

impl LeU64 {
    /// The stored integer, in little-endian byte order.
    pub closed spec fn raw(self) -> u64 {
        self.0
    }

    /// The value that the stored bytes stand for.
    pub open spec fn value(self) -> u64 {
        u64_le(self.raw())
    }

    /// Stores `value` in little-endian byte order.
    pub fn new(value: u64) -> (r: Self)
        ensures
            r.raw() == u64_le(value),
            r.value() == value,
    {
        proof {
            lemma_u64_order_roundtrip(value);
        }
        value.into()
    }

    /// The stored integer, in little-endian byte order.
    pub fn inner(&self) -> (r: &u64)
        ensures
            *r == self.raw(),
    {
        &self.0
    }

    /// A mutable reference to the stored integer.
    pub fn inner_mut(&mut self) -> (r: &mut u64)
        ensures
            *r == old(self).raw(),
            final(self).raw() == *final(r),
    {
        &mut self.0
    }
}

impl From<LeU64> for u64 {
    fn from(value: LeU64) -> (r: u64)
        ensures
            r == value.value(),
    {
        u64::from_le(value.0)
    }
}

impl vstd::std_specs::convert::FromSpecImpl<LeU64> for u64 {
    open spec fn obeys_from_spec() -> bool {
        true
    }

    open spec fn from_spec(v: LeU64) -> u64 {
        v.value()
    }
}

impl From<u64> for LeU64 {
    fn from(value: u64) -> (r: LeU64)
        ensures
            r.raw() == u64_le(value),
    {
        LeU64(u64::to_le(value))
    }
}

impl vstd::std_specs::convert::FromSpecImpl<u64> for LeU64 {
    open spec fn obeys_from_spec() -> bool {
        true
    }

    closed spec fn from_spec(v: u64) -> LeU64 {
        LeU64(u64_le(v))
    }
}

/// A `u64` in network byte order.
pub type NeU64 = BeU64;

/// A `i64` stored in big-endian byte order.
#[derive(Debug, Clone, Copy, Default, Eq, PartialEq, Hash, Structural)]
pub struct BeI64(i64);

impl BeI64 {
    /// The stored integer, in big-endian byte order.
    pub closed spec fn raw(self) -> i64 {
        self.0
    }

    /// The value that the stored bytes stand for.
    pub open spec fn value(self) -> i64 {
        i64_be(self.raw())
    }

    /// Stores `value` in big-endian byte order.
    pub fn new(value: i64) -> (r: Self)
        ensures
            r.raw() == i64_be(value),
            r.value() == value,
    {
        proof {
            lemma_i64_order_roundtrip(value);
        }
        value.into()
    }

    /// The stored integer, in big-endian byte order.
    pub fn inner(&self) -> (r: &i64)
        ensures
            *r == self.raw(),
    {
        &self.0
    }

    /// A mutable reference to the stored integer.
    pub fn inner_mut(&mut self) -> (r: &mut i64)
        ensures
            *r == old(self).raw(),
            final(self).raw() == *final(r),
    {
        &mut self.0
    }
}

impl From<BeI64> for i64 {
    fn from(value: BeI64) -> (r: i64)
        ensures
            r == value.value(),
    {
        i64::from_be(value.0)
    }
}

impl vstd::std_specs::convert::FromSpecImpl<BeI64> for i64 {
    open spec fn obeys_from_spec() -> bool {
        true
    }

    open spec fn from_spec(v: BeI64) -> i64 {
        v.value()
    }
}

impl From<i64> for BeI64 {
    fn from(value: i64) -> (r: BeI64)
        ensures
            r.raw() == i64_be(value),
    {
        BeI64(i64::to_be(value))
    }
}

impl vstd::std_specs::convert::FromSpecImpl<i64> for BeI64 {
    open spec fn obeys_from_spec() -> bool {
        true
    }

    closed spec fn from_spec(v: i64) -> BeI64 {
        BeI64(i64_be(v))
    }
}

/// A `i64` stored in little-endian byte order.
#[derive(Debug, Clone, Copy, Default, Eq, PartialEq, Hash, Structural)]
pub struct LeI64(i64);

impl LeI64 {
    /// The stored integer, in little-endian byte order.
    pub closed spec fn raw(self) -> i64 {
        self.0
    }

    /// The value that the stored bytes stand for.
    pub open spec fn value(self) -> i64 {
        i64_le(self.raw())
    }

    /// Stores `value` in little-endian byte order.
    pub fn new(value: i64) -> (r: Self)
        ensures
            r.raw() == i64_le(value),
            r.value() == value,
    {
        proof {
            lemma_i64_order_roundtrip(value);
        }
        value.into()
    }

    /// The stored integer, in little-endian byte order.
    pub fn inner(&self) -> (r: &i64)
        ensures
            *r == self.raw(),
    {
        &self.0
    }

    /// A mutable reference to the stored integer.
    pub fn inner_mut(&mut self) -> (r: &mut i64)
        ensures
            *r == old(self).raw(),
            final(self).raw() == *final(r),
    {
        &mut self.0
    }
}

impl From<LeI64> for i64 {
    fn from(value: LeI64) -> (r: i64)
        ensures
            r == value.value(),
    {
        i64::from_le(value.0)
    }
}

impl vstd::std_specs::convert::FromSpecImpl<LeI64> for i64 {
    open spec fn obeys_from_spec() -> bool {
        true
    }

    open spec fn from_spec(v: LeI64) -> i64 {
        v.value()
    }
}

impl From<i64> for LeI64 {
    fn from(value: i64) -> (r: LeI64)
        ensures
            r.raw() == i64_le(value),
    {
        LeI64(i64::to_le(value))
    }
}

impl vstd::std_specs::convert::FromSpecImpl<i64> for LeI64 {
    open spec fn obeys_from_spec() -> bool {
        true
    }

    closed spec fn from_spec(v: i64) -> LeI64 {
        LeI64(i64_le(v))
    }
}

/// A `i64` in network byte order.
pub type NeI64 = BeI64;

/// A `usize` stored in big-endian byte order.
#[derive(Debug, Clone, Copy, Default, Eq, PartialEq, Hash, Structural)]
pub struct BeUsize(usize);

impl BeUsize {
    /// The stored integer, in big-endian byte order.
    pub closed spec fn raw(self) -> usize {
        self.0
    }

    /// The value that the stored bytes stand for.
    pub open spec fn value(self) -> usize {
        usize_be(self.raw())
    }

    /// Stores `value` in big-endian byte order.
    pub fn new(value: usize) -> (r: Self)
        ensures
            r.raw() == usize_be(value),
            r.value() == value,
    {
        proof {
            lemma_usize_order_roundtrip(value);
        }
        value.into()
    }

    /// The stored integer, in big-endian byte order.
    pub fn inner(&self) -> (r: &usize)
        ensures
            *r == self.raw(),
    {
        &self.0
    }

    /// A mutable reference to the stored integer.
    pub fn inner_mut(&mut self) -> (r: &mut usize)
        ensures
            *r == old(self).raw(),
            final(self).raw() == *final(r),
    {
        &mut self.0
    }
}

impl From<BeUsize> for usize {
    fn from(value: BeUsize) -> (r: usize)
        ensures
            r == value.value(),
    {
        usize::from_be(value.0)
    }
}

impl vstd::std_specs::convert::FromSpecImpl<BeUsize> for usize {
    open spec fn obeys_from_spec() -> bool {
        true
    }

    open spec fn from_spec(v: BeUsize) -> usize {
        v.value()
    }
}

impl From<usize> for BeUsize {
    fn from(value: usize) -> (r: BeUsize)
        ensures
            r.raw() == usize_be(value),
    {
        BeUsize(usize::to_be(value))
    }
}

impl vstd::std_specs::convert::FromSpecImpl<usize> for BeUsize {
    open spec fn obeys_from_spec() -> bool {
        true
    }

    closed spec fn from_spec(v: usize) -> BeUsize {
        BeUsize(usize_be(v))
    }
}

/// A `usize` stored in little-endian byte order.
#[derive(Debug, Clone, Copy, Default, Eq, PartialEq, Hash, Structural)]
pub struct LeUsize(usize);

impl LeUsize {
    /// The stored integer, in little-endian byte order.
    pub closed spec fn raw(self) -> usize {
        self.0
    }

    /// The value that the stored bytes stand for.
    pub open spec fn value(self) -> usize {
        usize_le(self.raw())
    }

    /// Stores `value` in little-endian byte order.
    pub fn new(value: usize) -> (r: Self)
        ensures
            r.raw() == usize_le(value),
            r.value() == value,
    {
        proof {
            lemma_usize_order_roundtrip(value);
        }
        value.into()
    }

    /// The stored integer, in little-endian byte order.
    pub fn inner(&self) -> (r: &usize)
        ensures
            *r == self.raw(),
    {
        &self.0
    }

    /// A mutable reference to the stored integer.
    pub fn inner_mut(&mut self) -> (r: &mut usize)
        ensures
            *r == old(self).raw(),
            final(self).raw() == *final(r),
    {
        &mut self.0
    }
}

impl From<LeUsize> for usize {
    fn from(value: LeUsize) -> (r: usize)
        ensures
            r == value.value(),
    {
        usize::from_le(value.0)
    }
}

impl vstd::std_specs::convert::FromSpecImpl<LeUsize> for usize {
    open spec fn obeys_from_spec() -> bool {
        true
    }

    open spec fn from_spec(v: LeUsize) -> usize {
        v.value()
    }
}

impl From<usize> for LeUsize {
    fn from(value: usize) -> (r: LeUsize)
        ensures
            r.raw() == usize_le(value),
    {
        LeUsize(usize::to_le(value))
    }
}

impl vstd::std_specs::convert::FromSpecImpl<usize> for LeUsize {
    open spec fn obeys_from_spec() -> bool {
        true
    }

    closed spec fn from_spec(v: usize) -> LeUsize {
        LeUsize(usize_le(v))
    }
}

/// A `usize` in network byte order.
pub type NeUsize = BeUsize;

/// A `isize` stored in big-endian byte order.
#[derive(Debug, Clone, Copy, Default, Eq, PartialEq, Hash, Structural)]
pub struct BeIsize(isize);

impl BeIsize {
    /// The stored integer, in big-endian byte order.
    pub closed spec fn raw(self) -> isize {
        self.0
    }

    /// The value that the stored bytes stand for.
    pub open spec fn value(self) -> isize {
        isize_be(self.raw())
    }

    /// Stores `value` in big-endian byte order.
    pub fn new(value: isize) -> (r: Self)
        ensures
            r.raw() == isize_be(value),
            r.value() == value,
    {
        proof {
            lemma_isize_order_roundtrip(value);
        }
        value.into()
    }

    /// The stored integer, in big-endian byte order.
    pub fn inner(&self) -> (r: &isize)
        ensures
            *r == self.raw(),
    {
        &self.0
    }

    /// A mutable reference to the stored integer.
    pub fn inner_mut(&mut self) -> (r: &mut isize)
        ensures
            *r == old(self).raw(),
            final(self).raw() == *final(r),
    {
        &mut self.0
    }
}

impl From<BeIsize> for isize {
    fn from(value: BeIsize) -> (r: isize)
        ensures
            r == value.value(),
    {
        isize::from_be(value.0)
    }
}

impl vstd::std_specs::convert::FromSpecImpl<BeIsize> for isize {
    open spec fn obeys_from_spec() -> bool {
        true
    }

    open spec fn from_spec(v: BeIsize) -> isize {
        v.value()
    }
}

impl From<isize> for BeIsize {
    fn from(value: isize) -> (r: BeIsize)
        ensures
            r.raw() == isize_be(value),
    {
        BeIsize(isize::to_be(value))
    }
}

impl vstd::std_specs::convert::FromSpecImpl<isize> for BeIsize {
    open spec fn obeys_from_spec() -> bool {
        true
    }

    closed spec fn from_spec(v: isize) -> BeIsize {
        BeIsize(isize_be(v))
    }
}

/// A `isize` stored in little-endian byte order.
#[derive(Debug, Clone, Copy, Default, Eq, PartialEq, Hash, Structural)]
pub struct LeIsize(isize);

impl LeIsize {
    /// The stored integer, in little-endian byte order.
    pub closed spec fn raw(self) -> isize {
        self.0
    }

    /// The value that the stored bytes stand for.
    pub open spec fn value(self) -> isize {
        isize_le(self.raw())
    }

    /// Stores `value` in little-endian byte order.
    pub fn new(value: isize) -> (r: Self)
        ensures
            r.raw() == isize_le(value),
            r.value() == value,
    {
        proof {
            lemma_isize_order_roundtrip(value);
        }
        value.into()
    }

    /// The stored integer, in little-endian byte order.
    pub fn inner(&self) -> (r: &isize)
        ensures
            *r == self.raw(),
    {
        &self.0
    }

    /// A mutable reference to the stored integer.
    pub fn inner_mut(&mut self) -> (r: &mut isize)
        ensures
            *r == old(self).raw(),
            final(self).raw() == *final(r),
    {
        &mut self.0
    }
}

impl From<LeIsize> for isize {
    fn from(value: LeIsize) -> (r: isize)
        ensures
            r == value.value(),
    {
        isize::from_le(value.0)
    }
}

impl vstd::std_specs::convert::FromSpecImpl<LeIsize> for isize {
    open spec fn obeys_from_spec() -> bool {
        true
    }

    open spec fn from_spec(v: LeIsize) -> isize {
        v.value()
    }
}

impl From<isize> for LeIsize {
    fn from(value: isize) -> (r: LeIsize)
        ensures
            r.raw() == isize_le(value),
    {
        LeIsize(isize::to_le(value))
    }
}

impl vstd::std_specs::convert::FromSpecImpl<isize> for LeIsize {
    open spec fn obeys_from_spec() -> bool {
        true
    }

    closed spec fn from_spec(v: isize) -> LeIsize {
        LeIsize(isize_le(v))
    }
}

/// A `isize` in network byte order.
pub type NeIsize = BeIsize;

} // verus!
