//! The byte buffers of the `bytes` crate, as this library sees them.
//!
//! `Bytes` and `BytesMut` are opaque to the verifier. Each gets a name for the
//! bytes it holds, and every method that the library calls is given a contract
//! over that name. None of these contracts is proved: they restate what the
//! `bytes` crate documents and implements.

use bytes::Buf;
use bytes::BufMut;
use bytes::Bytes;
use bytes::BytesMut;
use std::ops::Deref;
use vstd::prelude::*;

verus! {

/// `bytes::Bytes`: an immutable, cheaply cloneable run of bytes.
#[verifier::external_type_specification]
#[verifier::external_body]
pub struct ExBytes(bytes::Bytes);

/// `bytes::BytesMut`: a growable byte buffer.
#[verifier::external_type_specification]
#[verifier::external_body]
pub struct ExBytesMut(bytes::BytesMut);

/// The bytes that a `Bytes` holds, first to last.
pub uninterp spec fn bytes_view(b: Bytes) -> Seq<u8>;

/// The bytes that a `BytesMut` holds, first to last (its length, not its capacity).
pub uninterp spec fn buf_view(b: BytesMut) -> Seq<u8>;

/// The four bytes of `n`, most significant first.
pub open spec fn be32(n: u32) -> Seq<u8> {
    seq![
        (n / 0x100_0000) as u8,
        ((n / 0x1_0000) % 0x100) as u8,
        ((n / 0x100) % 0x100) as u8,
        (n % 0x100) as u8,
    ]
}

/// The number whose big-endian form is the first four bytes of `s`.
pub open spec fn be32_value(s: Seq<u8>) -> u32
    recommends
        s.len() >= 4,
{
    (s[0] * 0x100_0000 + s[1] * 0x1_0000 + s[2] * 0x100 + s[3]) as u32
}

/// The two's-complement bit pattern of `n`, read as an unsigned number.
pub open spec fn i32_bits(n: i32) -> u32 {
    if n < 0 {
        (n + 0x1_0000_0000) as u32
    } else {
        n as u32
    }
}

/// The signed number whose two's-complement bit pattern is `u`.
pub open spec fn bits_i32(u: u32) -> i32 {
    if u >= 0x8000_0000 {
        (u - 0x1_0000_0000) as i32
    } else {
        u as i32
    }
}

/// Reading back what `be32` wrote gives the number again.
pub proof fn lemma_be32_value_of_be32(n: u32)
    ensures
        be32(n).len() == 4,
        be32_value(be32(n)) == n,
{
}

/// Writing what `be32_value` read gives the four bytes again.
pub proof fn lemma_be32_of_be32_value(s: Seq<u8>)
    requires
        s.len() >= 4,
    ensures
        be32(be32_value(s)) == s.subrange(0, 4),
{
}

/// The signed and unsigned readings of a 32-bit pattern determine each other.
pub proof fn lemma_i32_bits_inverse(n: i32, u: u32)
    ensures
        bits_i32(i32_bits(n)) == n,
        i32_bits(bits_i32(u)) == u,
{
}

/// `Bytes::new` returns a buffer that holds nothing.
pub assume_specification[ Bytes::new ]() -> (b: Bytes)
    ensures
        bytes_view(b) == Seq::<u8>::empty(),
;

/// `Bytes::len` is the number of bytes held.
pub assume_specification[ Bytes::len ](b: &Bytes) -> (n: usize)
    ensures
        n == bytes_view(*b).len(),
;

/// `Bytes::is_empty` tells whether no byte is held.
pub assume_specification[ Bytes::is_empty ](b: &Bytes) -> (e: bool)
    ensures
        e == (bytes_view(*b).len() == 0),
;

/// `Bytes::clone` hands out a second handle on the same bytes.
pub assume_specification[ <Bytes as Clone>::clone ](b: &Bytes) -> (r: Bytes)
    ensures
        bytes_view(r) == bytes_view(*b),
;

/// `Bytes::deref` lends the held bytes as a slice.
pub assume_specification[ <Bytes as Deref>::deref ](b: &Bytes) -> (s: &[u8])
    ensures
        s@ == bytes_view(*b),
;

/// `Bytes::split_to` cuts the first `at` bytes off and returns them; the rest
/// stays. It panics when `at` is past the end.
pub assume_specification[ Bytes::split_to ](b: &mut Bytes, at: usize) -> (head: Bytes)
    requires
        at <= bytes_view(*old(b)).len(),
    ensures
        bytes_view(head) == bytes_view(*old(b)).subrange(0, at as int),
        bytes_view(*final(b)) == bytes_view(*old(b)).skip(at as int),
;

/// `Buf::get_u32` on a `Bytes` reads a big-endian `u32` from the front and
/// advances past it. It panics when fewer than four bytes are left.
#[verifier::external_body]
pub(crate) fn get_u32(b: &mut Bytes) -> (n: u32)
    requires
        bytes_view(*old(b)).len() >= 4,
    ensures
        n == be32_value(bytes_view(*old(b))),
        bytes_view(*final(b)) == bytes_view(*old(b)).skip(4),
{
    b.get_u32()
}

/// `Buf::get_i32` on a `Bytes` reads a big-endian, two's-complement `i32`
/// from the front and advances past it. It panics when fewer than four bytes
/// are left.
#[verifier::external_body]
pub(crate) fn get_i32(b: &mut Bytes) -> (n: i32)
    requires
        bytes_view(*old(b)).len() >= 4,
    ensures
        n == bits_i32(be32_value(bytes_view(*old(b)))),
        bytes_view(*final(b)) == bytes_view(*old(b)).skip(4),
{
    b.get_i32()
}

/// `BytesMut::with_capacity` returns an empty buffer. The capacity is handed
/// to `Vec::with_capacity`, which panics past `isize::MAX`.
pub assume_specification[ BytesMut::with_capacity ](capacity: usize) -> (b: BytesMut)
    requires
        capacity <= isize::MAX,
    ensures
        buf_view(b) == Seq::<u8>::empty(),
;

/// `BytesMut::from` copies a slice into a new buffer.
pub assume_specification[ <BytesMut as From<&[u8]>>::from ](src: &[u8]) -> (b: BytesMut)
    ensures
        buf_view(b) == src@,
;

/// `BytesMut::len` is the number of bytes held.
pub assume_specification[ BytesMut::len ](b: &BytesMut) -> (n: usize)
    ensures
        n == buf_view(*b).len(),
;

/// `BytesMut::deref` lends the held bytes as a slice.
pub assume_specification[ <BytesMut as Deref>::deref ](b: &BytesMut) -> (s: &[u8])
    ensures
        s@ == buf_view(*b),
;

/// `BytesMut::freeze` turns the buffer into a `Bytes` with the same bytes.
pub assume_specification[ BytesMut::freeze ](b: BytesMut) -> (r: Bytes)
    ensures
        bytes_view(r) == buf_view(b),
;

/// `BytesMut::split_to` cuts the first `at` bytes off and returns them; the
/// rest stays. It panics when `at` is past the length.
pub assume_specification[ BytesMut::split_to ](b: &mut BytesMut, at: usize) -> (head: BytesMut)
    requires
        at <= buf_view(*old(b)).len(),
    ensures
        buf_view(head) == buf_view(*old(b)).subrange(0, at as int),
        buf_view(*final(b)) == buf_view(*old(b)).skip(at as int),
;

/// `BytesMut::split_off` keeps the first `at` bytes and returns the rest. It
/// panics when `at` is past the capacity, which is never below the length.
pub assume_specification[ BytesMut::split_off ](b: &mut BytesMut, at: usize) -> (tail: BytesMut)
    requires
        at <= buf_view(*old(b)).len(),
    ensures
        buf_view(*final(b)) == buf_view(*old(b)).subrange(0, at as int),
        buf_view(tail) == buf_view(*old(b)).skip(at as int),
;

/// `Buf::advance` on a `BytesMut` drops the first `cnt` bytes. It panics when
/// fewer are held.
pub assume_specification[ <BytesMut as Buf>::advance ](b: &mut BytesMut, cnt: usize)
    requires
        cnt <= buf_view(*old(b)).len(),
    ensures
        buf_view(*final(b)) == buf_view(*old(b)).skip(cnt as int),
;

/// `BufMut::put_slice` on a `BytesMut` appends the slice, growing the buffer
/// as needed. Growing panics when the length would pass `isize::MAX`.
pub assume_specification[ <BytesMut as BufMut>::put_slice ](b: &mut BytesMut, src: &[u8])
    requires
        buf_view(*old(b)).len() + src@.len() <= isize::MAX,
    ensures
        buf_view(*final(b)) == buf_view(*old(b)) + src@,
;

/// `BufMut::put` on a `BytesMut`, given a `Bytes`, appends all of its bytes.
/// Growing panics when the length would pass `isize::MAX`.
#[verifier::external_body]
pub(crate) fn put_bytes(b: &mut BytesMut, src: Bytes)
    requires
        buf_view(*old(b)).len() + bytes_view(src).len() <= isize::MAX,
    ensures
        buf_view(*final(b)) == buf_view(*old(b)) + bytes_view(src),
{
    b.put(src)
}

/// `BufMut::put_u8` on a `BytesMut` appends one byte.
#[verifier::external_body]
pub(crate) fn put_u8(b: &mut BytesMut, n: u8)
    requires
        buf_view(*old(b)).len() + 1 <= isize::MAX,
    ensures
        buf_view(*final(b)) == buf_view(*old(b)).push(n),
{
    b.put_u8(n)
}

/// `BufMut::put_u32` on a `BytesMut` appends `n` in big-endian order.
#[verifier::external_body]
pub(crate) fn put_u32(b: &mut BytesMut, n: u32)
    requires
        buf_view(*old(b)).len() + 4 <= isize::MAX,
    ensures
        buf_view(*final(b)) == buf_view(*old(b)) + be32(n),
{
    b.put_u32(n)
}

/// `BufMut::put_i32` on a `BytesMut` appends the two's-complement form of `n`
/// in big-endian order.
#[verifier::external_body]
pub(crate) fn put_i32(b: &mut BytesMut, n: i32)
    requires
        buf_view(*old(b)).len() + 4 <= isize::MAX,
    ensures
        buf_view(*final(b)) == buf_view(*old(b)) + be32(i32_bits(n)),
{
    b.put_i32(n)
}

/// `u32::from_be_bytes` reads four bytes as a big-endian number.
#[verifier::external_body]
pub(crate) fn u32_from_be_bytes(bytes: [u8; 4]) -> (n: u32)
    ensures
        n == be32_value(bytes@),
{
    u32::from_be_bytes(bytes)
}

/// `u32::to_be_bytes` gives the four bytes of a number, most significant
/// first.
#[verifier::external_body]
pub(crate) fn u32_to_be_bytes(n: u32) -> (bytes: [u8; 4])
    ensures
        bytes@ == be32(n),
{
    n.to_be_bytes()
}

} // verus!
