use vstd::prelude::*;
use vstd::slice::slice_subrange;
use byteorder::ByteOrder;
use byteorder::BE;
use crate::decl::DeclResult;
use crate::decl::Declarative;
use crate::decl::Decoded;
use crate::decl::FixedWidth;
use crate::decl::StaticEncodingSize;
use crate::errors::Error;

verus! {

/// The number that `bytes` spell, most significant byte first.
pub open spec fn be_value(bytes: Seq<u8>) -> nat
    decreases bytes.len(),
{
    if bytes.len() == 0 {
        0
    } else {
        be_value(bytes.drop_last()) * 256 + bytes.last() as nat
    }
}

/// 256 to the power of `n`.
pub open spec fn pow256(n: nat) -> nat
    decreases n,
{
    if n == 0 {
        1
    } else {
        256 * pow256((n - 1) as nat)
    }
}

/// The number that `n` bytes spell is under 256 to the power of `n`: two bytes
/// fit a `u16`, four a `u32`, eight a `u64`.
pub proof fn be_value_bound(bytes: Seq<u8>)
    ensures
        be_value(bytes) < pow256(bytes.len()),
        bytes.len() == 2 ==> be_value(bytes) <= u16::MAX,
        bytes.len() == 3 ==> be_value(bytes) < 0x100_0000,
        bytes.len() == 4 ==> be_value(bytes) <= u32::MAX,
        bytes.len() == 8 ==> be_value(bytes) <= u64::MAX,
    decreases bytes.len(),
{
    reveal_with_fuel(pow256, 9);
    if bytes.len() > 0 {
        be_value_bound(bytes.drop_last());
    }
}

/// The signed number that `value` stands for in two's complement, where
/// `modulus` is two to the power of the width in bits.
pub open spec fn signed(value: nat, modulus: int) -> int {
    if 2 * value < modulus {
        value as int
    } else {
        value - modulus
    }
}

/// The decode of a fixed-width type: `value` and `size` bytes taken where the
/// buffer holds at least `size` bytes, `InsufficientBytes` where it does not.
pub open spec fn fixed<V>(buffer: Seq<u8>, size: nat, value: V) -> Decoded<V> {
    if buffer.len() < size {
        Err(Error::InsufficientBytes)
    } else {
        Ok((value, size))
    }
}

/// The bytes of `buffer` behind its first `n`.
pub fn rest_after<'buf>(buffer: &'buf [u8], n: usize) -> (rest: &'buf [u8])
    requires
        n <= buffer@.len(),
    ensures
        rest@ == buffer@.skip(n as int),
{
    slice_subrange(buffer, n, buffer.len())
}

/// The first byte of `buf`.
pub fn read_u8(buf: &[u8]) -> (r: u8)
    requires
        buf@.len() >= 1,
    ensures
        r == buf@[0],
{
    buf[0]
}

/// The first byte of `buf`, read as a signed number in two's complement.
pub fn read_i8(buf: &[u8]) -> (r: i8)
    requires
        buf@.len() >= 1,
    ensures
        r as int == signed(buf@[0] as nat, 0x100),
{
    let b: u8 = buf[0];
    assert((b as i8) as int == if b < 128u8 {
        b as int
    } else {
        b as int - 256
    }) by (bit_vector);
    b as i8
}

/// `byteorder::BigEndian::read_u16`: the number that the first two bytes of
/// `buf` spell in big-endian order. The outside function panics on a shorter
/// buffer, which `requires` leaves out.
#[verifier::external_body]
pub(crate) fn read_u16(buf: &[u8]) -> (r: u16)
    requires
        buf@.len() >= 2,
    ensures
        r as nat == be_value(buf@.take(2)),
{
    BE::read_u16(buf)
}

/// `byteorder::BigEndian::read_u24`: the number that the first three bytes of
/// `buf` spell in big-endian order. The outside function panics on a shorter
/// buffer, which `requires` leaves out.
#[verifier::external_body]
pub(crate) fn read_u24(buf: &[u8]) -> (r: u32)
    requires
        buf@.len() >= 3,
    ensures
        r as nat == be_value(buf@.take(3)),
{
    BE::read_u24(buf)
}

/// `byteorder::BigEndian::read_u32`: the number that the first four bytes of
/// `buf` spell in big-endian order. The outside function panics on a shorter
/// buffer, which `requires` leaves out.
#[verifier::external_body]
pub(crate) fn read_u32(buf: &[u8]) -> (r: u32)
    requires
        buf@.len() >= 4,
    ensures
        r as nat == be_value(buf@.take(4)),
{
    BE::read_u32(buf)
}

/// `byteorder::BigEndian::read_u64`: the number that the first eight bytes of
/// `buf` spell in big-endian order. The outside function panics on a shorter
/// buffer, which `requires` leaves out.
#[verifier::external_body]
pub(crate) fn read_u64(buf: &[u8]) -> (r: u64)
    requires
        buf@.len() >= 8,
    ensures
        r as nat == be_value(buf@.take(8)),
{
    BE::read_u64(buf)
}

/// `byteorder::BigEndian::read_i16`: the number that the first two bytes of
/// `buf` spell in big-endian order, read as a signed number in two's
/// complement. The outside function panics on a shorter buffer, which
/// `requires` leaves out.
#[verifier::external_body]
pub(crate) fn read_i16(buf: &[u8]) -> (r: i16)
    requires
        buf@.len() >= 2,
    ensures
        r as int == signed(be_value(buf@.take(2)), 0x1_0000),
{
    BE::read_i16(buf)
}

/// `byteorder::BigEndian::read_i32`: the number that the first four bytes of
/// `buf` spell in big-endian order, read as a signed number in two's
/// complement. The outside function panics on a shorter buffer, which
/// `requires` leaves out.
#[verifier::external_body]
pub(crate) fn read_i32(buf: &[u8]) -> (r: i32)
    requires
        buf@.len() >= 4,
    ensures
        r as int == signed(be_value(buf@.take(4)), 0x1_0000_0000),
{
    BE::read_i32(buf)
}

/// `byteorder::BigEndian::read_i64`: the number that the first eight bytes of
/// `buf` spell in big-endian order, read as a signed number in two's
/// complement. The outside function panics on a shorter buffer, which
/// `requires` leaves out.
#[verifier::external_body]
pub(crate) fn read_i64(buf: &[u8]) -> (r: i64)
    requires
        buf@.len() >= 8,
    ensures
        r as int == signed(be_value(buf@.take(8)), 0x1_0000_0000_0000_0000),
{
    BE::read_i64(buf)
}

impl StaticEncodingSize for u8 {
    const SIZE: usize = 1;
}

impl<'buf> Declarative<'buf> for u8 {
    open spec fn spec_parse(buffer: Seq<u8>) -> Decoded<u8> {
        fixed(buffer, 1, buffer[0])
    }

    proof fn parse_stays_inside(buffer: Seq<u8>) {
    }

    fn parse(buffer: &'buf [u8]) -> (r: DeclResult<'buf, Self>) {
        if buffer.len() < Self::SIZE {
            return Err(Error::InsufficientBytes);
        }
        let dest = read_u8(buffer);
        Ok((dest, rest_after(buffer, Self::SIZE)))
    }
}

impl<'buf> FixedWidth<'buf> for u8 {
    proof fn consumes_exactly_size(buffer: Seq<u8>, argument: ()) {
    }

    proof fn short_buffer_is_insufficient(buffer: Seq<u8>, argument: ()) {
    }
}

impl StaticEncodingSize for i8 {
    const SIZE: usize = 1;
}

impl<'buf> Declarative<'buf> for i8 {
    open spec fn spec_parse(buffer: Seq<u8>) -> Decoded<i8> {
        fixed(buffer, 1, signed(buffer[0] as nat, 0x100) as i8)
    }

    proof fn parse_stays_inside(buffer: Seq<u8>) {
    }

    fn parse(buffer: &'buf [u8]) -> (r: DeclResult<'buf, Self>) {
        if buffer.len() < Self::SIZE {
            return Err(Error::InsufficientBytes);
        }
        let dest = read_i8(buffer);
        Ok((dest, rest_after(buffer, Self::SIZE)))
    }
}

impl<'buf> FixedWidth<'buf> for i8 {
    proof fn consumes_exactly_size(buffer: Seq<u8>, argument: ()) {
    }

    proof fn short_buffer_is_insufficient(buffer: Seq<u8>, argument: ()) {
    }
}

impl StaticEncodingSize for u16 {
    const SIZE: usize = 2;
}

impl<'buf> Declarative<'buf> for u16 {
    open spec fn spec_parse(buffer: Seq<u8>) -> Decoded<u16> {
        fixed(buffer, 2, be_value(buffer.take(2)) as u16)
    }

    proof fn parse_stays_inside(buffer: Seq<u8>) {
    }

    fn parse(buffer: &'buf [u8]) -> (r: DeclResult<'buf, Self>) {
        if buffer.len() < Self::SIZE {
            return Err(Error::InsufficientBytes);
        }
        let dest = read_u16(buffer);
        Ok((dest, rest_after(buffer, Self::SIZE)))
    }
}

impl<'buf> FixedWidth<'buf> for u16 {
    proof fn consumes_exactly_size(buffer: Seq<u8>, argument: ()) {
    }

    proof fn short_buffer_is_insufficient(buffer: Seq<u8>, argument: ()) {
    }
}

impl StaticEncodingSize for i16 {
    const SIZE: usize = 2;
}

impl<'buf> Declarative<'buf> for i16 {
    open spec fn spec_parse(buffer: Seq<u8>) -> Decoded<i16> {
        fixed(buffer, 2, signed(be_value(buffer.take(2)), 0x1_0000) as i16)
    }

    proof fn parse_stays_inside(buffer: Seq<u8>) {
    }

    fn parse(buffer: &'buf [u8]) -> (r: DeclResult<'buf, Self>) {
        if buffer.len() < Self::SIZE {
            return Err(Error::InsufficientBytes);
        }
        let dest = read_i16(buffer);
        Ok((dest, rest_after(buffer, Self::SIZE)))
    }
}

impl<'buf> FixedWidth<'buf> for i16 {
    proof fn consumes_exactly_size(buffer: Seq<u8>, argument: ()) {
    }

    proof fn short_buffer_is_insufficient(buffer: Seq<u8>, argument: ()) {
    }
}

impl StaticEncodingSize for u32 {
    const SIZE: usize = 4;
}

impl<'buf> Declarative<'buf> for u32 {
    open spec fn spec_parse(buffer: Seq<u8>) -> Decoded<u32> {
        fixed(buffer, 4, be_value(buffer.take(4)) as u32)
    }

    proof fn parse_stays_inside(buffer: Seq<u8>) {
    }

    fn parse(buffer: &'buf [u8]) -> (r: DeclResult<'buf, Self>) {
        if buffer.len() < Self::SIZE {
            return Err(Error::InsufficientBytes);
        }
        let dest = read_u32(buffer);
        Ok((dest, rest_after(buffer, Self::SIZE)))
    }
}

impl<'buf> FixedWidth<'buf> for u32 {
    proof fn consumes_exactly_size(buffer: Seq<u8>, argument: ()) {
    }

    proof fn short_buffer_is_insufficient(buffer: Seq<u8>, argument: ()) {
    }
}

impl StaticEncodingSize for i32 {
    const SIZE: usize = 4;
}

impl<'buf> Declarative<'buf> for i32 {
    open spec fn spec_parse(buffer: Seq<u8>) -> Decoded<i32> {
        fixed(buffer, 4, signed(be_value(buffer.take(4)), 0x1_0000_0000) as i32)
    }

    proof fn parse_stays_inside(buffer: Seq<u8>) {
    }

    fn parse(buffer: &'buf [u8]) -> (r: DeclResult<'buf, Self>) {
        if buffer.len() < Self::SIZE {
            return Err(Error::InsufficientBytes);
        }
        let dest = read_i32(buffer);
        Ok((dest, rest_after(buffer, Self::SIZE)))
    }
}

impl<'buf> FixedWidth<'buf> for i32 {
    proof fn consumes_exactly_size(buffer: Seq<u8>, argument: ()) {
    }

    proof fn short_buffer_is_insufficient(buffer: Seq<u8>, argument: ()) {
    }
}

impl StaticEncodingSize for u64 {
    const SIZE: usize = 8;
}

impl<'buf> Declarative<'buf> for u64 {
    open spec fn spec_parse(buffer: Seq<u8>) -> Decoded<u64> {
        fixed(buffer, 8, be_value(buffer.take(8)) as u64)
    }

    proof fn parse_stays_inside(buffer: Seq<u8>) {
    }

    fn parse(buffer: &'buf [u8]) -> (r: DeclResult<'buf, Self>) {
        if buffer.len() < Self::SIZE {
            return Err(Error::InsufficientBytes);
        }
        let dest = read_u64(buffer);
        Ok((dest, rest_after(buffer, Self::SIZE)))
    }
}

impl<'buf> FixedWidth<'buf> for u64 {
    proof fn consumes_exactly_size(buffer: Seq<u8>, argument: ()) {
    }

    proof fn short_buffer_is_insufficient(buffer: Seq<u8>, argument: ()) {
    }
}

impl StaticEncodingSize for i64 {
    const SIZE: usize = 8;
}

impl<'buf> Declarative<'buf> for i64 {
    open spec fn spec_parse(buffer: Seq<u8>) -> Decoded<i64> {
        fixed(buffer, 8, signed(be_value(buffer.take(8)), 0x1_0000_0000_0000_0000) as i64)
    }

    proof fn parse_stays_inside(buffer: Seq<u8>) {
    }

    fn parse(buffer: &'buf [u8]) -> (r: DeclResult<'buf, Self>) {
        if buffer.len() < Self::SIZE {
            return Err(Error::InsufficientBytes);
        }
        let dest = read_i64(buffer);
        Ok((dest, rest_after(buffer, Self::SIZE)))
    }
}

impl<'buf> FixedWidth<'buf> for i64 {
    proof fn consumes_exactly_size(buffer: Seq<u8>, argument: ()) {
    }

    proof fn short_buffer_is_insufficient(buffer: Seq<u8>, argument: ()) {
    }
}

} // verus!
