use vstd::prelude::*;
use crate::decl::DeclResult;
use crate::decl::Declarative;
use crate::decl::Decoded;
use crate::decl::FixedWidth;
use crate::decl::StaticEncodingSize;
use crate::errors::Error;
use crate::primitives::be_value;
use crate::primitives::fixed;
use crate::primitives::read_u24;
use crate::primitives::rest_after;

verus! {

/// A signed fixed-point number of 32 bits, 16 of them behind the point.
#[derive(Debug, Clone, Copy, PartialEq, Eq, Structural)]
pub struct Fixed(pub i32);

impl View for Fixed {
    type V = Fixed;

    open spec fn view(&self) -> Fixed {
        *self
    }
}

impl From<i32> for Fixed {
    fn from(mid: i32) -> (r: Fixed) {
        Fixed(mid)
    }
}

impl vstd::std_specs::convert::FromSpecImpl<i32> for Fixed {
    open spec fn obeys_from_spec() -> bool {
        true
    }

    open spec fn from_spec(mid: i32) -> Fixed {
        Fixed(mid)
    }
}

impl StaticEncodingSize for Fixed {
    const SIZE: usize = 4;
}

impl<'buf> Declarative<'buf> for Fixed {
    open spec fn spec_parse(buffer: Seq<u8>) -> Decoded<Fixed> {
        match i32::spec_parse(buffer) {
            Ok((mid, n)) => Ok((Fixed(mid), n)),
            Err(e) => Err(e),
        }
    }

    proof fn parse_stays_inside(buffer: Seq<u8>) {
    }

    fn parse(buffer: &'buf [u8]) -> (r: DeclResult<'buf, Self>) {
        if buffer.len() < Self::SIZE {
            return Err(Error::InsufficientBytes);
        }
        let (dest, buffer) = i32::parse(buffer)?;
        Ok((Fixed(dest), buffer))
    }
}

impl<'buf> FixedWidth<'buf> for Fixed {
    proof fn consumes_exactly_size(buffer: Seq<u8>, argument: ()) {
    }

    proof fn short_buffer_is_insufficient(buffer: Seq<u8>, argument: ()) {
    }
}

/// A signed quantity in font design units.
#[derive(Debug, Clone, Copy, PartialEq, Eq, Structural)]
pub struct FWord(pub i16);

impl View for FWord {
    type V = FWord;

    open spec fn view(&self) -> FWord {
        *self
    }
}

impl From<i16> for FWord {
    fn from(mid: i16) -> (r: FWord) {
        FWord(mid)
    }
}

impl vstd::std_specs::convert::FromSpecImpl<i16> for FWord {
    open spec fn obeys_from_spec() -> bool {
        true
    }

    open spec fn from_spec(mid: i16) -> FWord {
        FWord(mid)
    }
}

impl StaticEncodingSize for FWord {
    const SIZE: usize = 2;
}

impl<'buf> Declarative<'buf> for FWord {
    open spec fn spec_parse(buffer: Seq<u8>) -> Decoded<FWord> {
        match i16::spec_parse(buffer) {
            Ok((mid, n)) => Ok((FWord(mid), n)),
            Err(e) => Err(e),
        }
    }

    proof fn parse_stays_inside(buffer: Seq<u8>) {
    }

    fn parse(buffer: &'buf [u8]) -> (r: DeclResult<'buf, Self>) {
        if buffer.len() < Self::SIZE {
            return Err(Error::InsufficientBytes);
        }
        let (dest, buffer) = i16::parse(buffer)?;
        Ok((FWord(dest), buffer))
    }
}

impl<'buf> FixedWidth<'buf> for FWord {
    proof fn consumes_exactly_size(buffer: Seq<u8>, argument: ()) {
    }

    proof fn short_buffer_is_insufficient(buffer: Seq<u8>, argument: ()) {
    }
}

/// An unsigned quantity in font design units.
#[derive(Debug, Clone, Copy, PartialEq, Eq, Structural)]
pub struct UFWord(pub u16);

impl View for UFWord {
    type V = UFWord;

    open spec fn view(&self) -> UFWord {
        *self
    }
}

impl From<u16> for UFWord {
    fn from(mid: u16) -> (r: UFWord) {
        UFWord(mid)
    }
}

impl vstd::std_specs::convert::FromSpecImpl<u16> for UFWord {
    open spec fn obeys_from_spec() -> bool {
        true
    }

    open spec fn from_spec(mid: u16) -> UFWord {
        UFWord(mid)
    }
}

impl StaticEncodingSize for UFWord {
    const SIZE: usize = 2;
}

impl<'buf> Declarative<'buf> for UFWord {
    open spec fn spec_parse(buffer: Seq<u8>) -> Decoded<UFWord> {
        match u16::spec_parse(buffer) {
            Ok((mid, n)) => Ok((UFWord(mid), n)),
            Err(e) => Err(e),
        }
    }

    proof fn parse_stays_inside(buffer: Seq<u8>) {
    }

    fn parse(buffer: &'buf [u8]) -> (r: DeclResult<'buf, Self>) {
        if buffer.len() < Self::SIZE {
            return Err(Error::InsufficientBytes);
        }
        let (dest, buffer) = u16::parse(buffer)?;
        Ok((UFWord(dest), buffer))
    }
}

impl<'buf> FixedWidth<'buf> for UFWord {
    proof fn consumes_exactly_size(buffer: Seq<u8>, argument: ()) {
    }

    proof fn short_buffer_is_insufficient(buffer: Seq<u8>, argument: ()) {
    }
}

/// A signed fixed-point number of 16 bits, 14 of them behind the point.
#[derive(Debug, Clone, Copy, PartialEq, Eq, Structural)]
pub struct F2Dot14(pub i16);

impl View for F2Dot14 {
    type V = F2Dot14;

    open spec fn view(&self) -> F2Dot14 {
        *self
    }
}

impl From<i16> for F2Dot14 {
    fn from(mid: i16) -> (r: F2Dot14) {
        F2Dot14(mid)
    }
}

impl vstd::std_specs::convert::FromSpecImpl<i16> for F2Dot14 {
    open spec fn obeys_from_spec() -> bool {
        true
    }

    open spec fn from_spec(mid: i16) -> F2Dot14 {
        F2Dot14(mid)
    }
}

impl StaticEncodingSize for F2Dot14 {
    const SIZE: usize = 2;
}

impl<'buf> Declarative<'buf> for F2Dot14 {
    open spec fn spec_parse(buffer: Seq<u8>) -> Decoded<F2Dot14> {
        match i16::spec_parse(buffer) {
            Ok((mid, n)) => Ok((F2Dot14(mid), n)),
            Err(e) => Err(e),
        }
    }

    proof fn parse_stays_inside(buffer: Seq<u8>) {
    }

    fn parse(buffer: &'buf [u8]) -> (r: DeclResult<'buf, Self>) {
        if buffer.len() < Self::SIZE {
            return Err(Error::InsufficientBytes);
        }
        let (dest, buffer) = i16::parse(buffer)?;
        Ok((F2Dot14(dest), buffer))
    }
}

impl<'buf> FixedWidth<'buf> for F2Dot14 {
    proof fn consumes_exactly_size(buffer: Seq<u8>, argument: ()) {
    }

    proof fn short_buffer_is_insufficient(buffer: Seq<u8>, argument: ()) {
    }
}

/// A date and time in seconds since 1904-01-01, midnight.
#[derive(Debug, Clone, Copy, PartialEq, Eq, Structural)]
pub struct LongDateTime(pub u64);

impl View for LongDateTime {
    type V = LongDateTime;

    open spec fn view(&self) -> LongDateTime {
        *self
    }
}

impl From<u64> for LongDateTime {
    fn from(mid: u64) -> (r: LongDateTime) {
        LongDateTime(mid)
    }
}

impl vstd::std_specs::convert::FromSpecImpl<u64> for LongDateTime {
    open spec fn obeys_from_spec() -> bool {
        true
    }

    open spec fn from_spec(mid: u64) -> LongDateTime {
        LongDateTime(mid)
    }
}

impl StaticEncodingSize for LongDateTime {
    const SIZE: usize = 8;
}

impl<'buf> Declarative<'buf> for LongDateTime {
    open spec fn spec_parse(buffer: Seq<u8>) -> Decoded<LongDateTime> {
        match u64::spec_parse(buffer) {
            Ok((mid, n)) => Ok((LongDateTime(mid), n)),
            Err(e) => Err(e),
        }
    }

    proof fn parse_stays_inside(buffer: Seq<u8>) {
    }

    fn parse(buffer: &'buf [u8]) -> (r: DeclResult<'buf, Self>) {
        if buffer.len() < Self::SIZE {
            return Err(Error::InsufficientBytes);
        }
        let (dest, buffer) = u64::parse(buffer)?;
        Ok((LongDateTime(dest), buffer))
    }
}

impl<'buf> FixedWidth<'buf> for LongDateTime {
    proof fn consumes_exactly_size(buffer: Seq<u8>, argument: ()) {
    }

    proof fn short_buffer_is_insufficient(buffer: Seq<u8>, argument: ()) {
    }
}

/// An offset of 16 bits into a table.
#[derive(Debug, Clone, Copy, PartialEq, Eq, Structural)]
pub struct Offset16(pub u16);

impl View for Offset16 {
    type V = Offset16;

    open spec fn view(&self) -> Offset16 {
        *self
    }
}

impl From<u16> for Offset16 {
    fn from(mid: u16) -> (r: Offset16) {
        Offset16(mid)
    }
}

impl vstd::std_specs::convert::FromSpecImpl<u16> for Offset16 {
    open spec fn obeys_from_spec() -> bool {
        true
    }

    open spec fn from_spec(mid: u16) -> Offset16 {
        Offset16(mid)
    }
}

impl StaticEncodingSize for Offset16 {
    const SIZE: usize = 2;
}

impl<'buf> Declarative<'buf> for Offset16 {
    open spec fn spec_parse(buffer: Seq<u8>) -> Decoded<Offset16> {
        match u16::spec_parse(buffer) {
            Ok((mid, n)) => Ok((Offset16(mid), n)),
            Err(e) => Err(e),
        }
    }

    proof fn parse_stays_inside(buffer: Seq<u8>) {
    }

    fn parse(buffer: &'buf [u8]) -> (r: DeclResult<'buf, Self>) {
        if buffer.len() < Self::SIZE {
            return Err(Error::InsufficientBytes);
        }
        let (dest, buffer) = u16::parse(buffer)?;
        Ok((Offset16(dest), buffer))
    }
}

impl<'buf> FixedWidth<'buf> for Offset16 {
    proof fn consumes_exactly_size(buffer: Seq<u8>, argument: ()) {
    }

    proof fn short_buffer_is_insufficient(buffer: Seq<u8>, argument: ()) {
    }
}

/// An offset of 32 bits into a table.
#[derive(Debug, Clone, Copy, PartialEq, Eq, Structural)]
pub struct Offset32(pub u32);

impl View for Offset32 {
    type V = Offset32;

    open spec fn view(&self) -> Offset32 {
        *self
    }
}

impl From<u32> for Offset32 {
    fn from(mid: u32) -> (r: Offset32) {
        Offset32(mid)
    }
}

impl vstd::std_specs::convert::FromSpecImpl<u32> for Offset32 {
    open spec fn obeys_from_spec() -> bool {
        true
    }

    open spec fn from_spec(mid: u32) -> Offset32 {
        Offset32(mid)
    }
}

impl StaticEncodingSize for Offset32 {
    const SIZE: usize = 4;
}

impl<'buf> Declarative<'buf> for Offset32 {
    open spec fn spec_parse(buffer: Seq<u8>) -> Decoded<Offset32> {
        match u32::spec_parse(buffer) {
            Ok((mid, n)) => Ok((Offset32(mid), n)),
            Err(e) => Err(e),
        }
    }

    proof fn parse_stays_inside(buffer: Seq<u8>) {
    }

    fn parse(buffer: &'buf [u8]) -> (r: DeclResult<'buf, Self>) {
        if buffer.len() < Self::SIZE {
            return Err(Error::InsufficientBytes);
        }
        let (dest, buffer) = u32::parse(buffer)?;
        Ok((Offset32(dest), buffer))
    }
}

impl<'buf> FixedWidth<'buf> for Offset32 {
    proof fn consumes_exactly_size(buffer: Seq<u8>, argument: ()) {
    }

    proof fn short_buffer_is_insufficient(buffer: Seq<u8>, argument: ()) {
    }
}

/// An unsigned number of 24 bits.
#[derive(Debug, Clone, Copy, PartialEq, Eq, Structural)]
pub struct U24(pub u32);

impl View for U24 {
    type V = U24;

    open spec fn view(&self) -> U24 {
        *self
    }
}

impl StaticEncodingSize for U24 {
    const SIZE: usize = 3;
}

impl<'buf> Declarative<'buf> for U24 {
    open spec fn spec_parse(buffer: Seq<u8>) -> Decoded<U24> {
        fixed(buffer, 3, U24(be_value(buffer.take(3)) as u32))
    }

    proof fn parse_stays_inside(buffer: Seq<u8>) {
    }

    fn parse(buffer: &'buf [u8]) -> (r: DeclResult<'buf, Self>) {
        if buffer.len() < Self::SIZE {
            return Err(Error::InsufficientBytes);
        }
        let dest = read_u24(buffer);
        Ok((U24(dest), rest_after(buffer, Self::SIZE)))
    }
}

impl<'buf> FixedWidth<'buf> for U24 {
    proof fn consumes_exactly_size(buffer: Seq<u8>, argument: ()) {
    }

    proof fn short_buffer_is_insufficient(buffer: Seq<u8>, argument: ()) {
    }
}

/// A tag of four bytes, which names a table.
#[derive(Debug, Clone, Copy, PartialEq, Eq)]
pub struct Tag(pub [u8; 4]);

impl View for Tag {
    type V = Tag;

    open spec fn view(&self) -> Tag {
        *self
    }
}

impl StaticEncodingSize for Tag {
    const SIZE: usize = 4;
}

/// Whether `b` is a printable ASCII character.
pub open spec fn printable(b: u8) -> bool {
    32 <= b <= 126
}

/// The upper-case hexadecimal digit for `n`, which is under 16.
pub open spec fn hex_digit(n: int) -> char {
    if n < 10 {
        ('0' as int + n) as char
    } else {
        ('A' as int + n - 10) as char
    }
}

/// The text of a tag of the four bytes `bytes`: the four characters where
/// each byte is printable ASCII, else the eight upper-case hexadecimal digits
/// of the bytes in order, two for each.
pub open spec fn tag_text(bytes: Seq<u8>) -> Seq<char> {
    if forall|i: int| 0 <= i < 4 ==> printable(#[trigger] bytes[i]) {
        Seq::new(4, |i: int| bytes[i] as char)
    } else {
        Seq::new(
            8,
            |i: int|
                if i % 2 == 0 {
                    hex_digit(bytes[i / 2] as int / 16)
                } else {
                    hex_digit(bytes[i / 2] as int % 16)
                },
        )
    }
}

/// `String::push`: appends `c` to `s`.
#[verifier::external_body]
fn push_char(s: &mut String, c: char)
    ensures
        final(s)@ == old(s)@.push(c),
{
    s.push(c)
}

/// The upper-case hexadecimal digit for `n`.
fn hex_char(n: u8) -> (c: char)
    requires
        n < 16,
    ensures
        c == hex_digit(n as int),
{
    if n < 10 {
        (48u8 + n) as char
    } else {
        (55u8 + n) as char
    }
}

impl Tag {
    /// The number that the four bytes spell in big-endian order.
    pub fn as_u32(&self) -> (r: u32)
        ensures
            r as nat == be_value(self.0@),
    {
        let a: u8 = self.0[0];
        let b: u8 = self.0[1];
        let c: u8 = self.0[2];
        let d: u8 = self.0[3];
        proof {
            let s = self.0@;
            let s3 = s.drop_last();
            let s2 = s3.drop_last();
            let s1 = s2.drop_last();
            assert(s1.drop_last().len() == 0);
            reveal_with_fuel(be_value, 5);
            assert(be_value(s) == ((a as nat * 256 + b as nat) * 256 + c as nat) * 256 + d as nat);
            assert(((a as u32) << 24 | (b as u32) << 16 | (c as u32) << 8 | (d as u32)) == (((a as u32)
                * 256 + (b as u32)) * 256 + (c as u32)) * 256 + (d as u32)) by (bit_vector);
        }
        (a as u32) << 24 | (b as u32) << 16 | (c as u32) << 8 | (d as u32)
    }

    /// The tag as text.
    pub fn render(&self) -> (s: String)
        ensures
            s@ == tag_text(self.0@),
    {
        let mut s = String::new();
        let a: u8 = self.0[0];
        let b: u8 = self.0[1];
        let c: u8 = self.0[2];
        let d: u8 = self.0[3];
        let plain = 32 <= a && a <= 126 && 32 <= b && b <= 126 && 32 <= c && c <= 126 && 32 <= d
            && d <= 126;
        let mut i: usize = 0;
        if plain {
            while i < 4
                invariant
                    i <= 4,
                    s@ == Seq::new(i as nat, |k: int| self.0@[k] as char),
                decreases 4 - i,
            {
                push_char(&mut s, self.0[i] as char);
                i += 1;
                assert(s@ =~= Seq::new(i as nat, |k: int| self.0@[k] as char));
            }
        } else {
            while i < 4
                invariant
                    i <= 4,
                    s@ == Seq::new(
                        2 * i as nat,
                        |k: int|
                            if k % 2 == 0 {
                                hex_digit(self.0@[k / 2] as int / 16)
                            } else {
                                hex_digit(self.0@[k / 2] as int % 16)
                            },
                    ),
                decreases 4 - i,
            {
                let byte: u8 = self.0[i];
                push_char(&mut s, hex_char(byte / 16));
                push_char(&mut s, hex_char(byte % 16));
                i += 1;
                assert(s@ =~= Seq::new(
                    2 * i as nat,
                    |k: int|
                        if k % 2 == 0 {
                            hex_digit(self.0@[k / 2] as int / 16)
                        } else {
                            hex_digit(self.0@[k / 2] as int % 16)
                        },
                ));
            }
        }
        s
    }
}

impl<'buf> Declarative<'buf> for Tag {
    open spec fn spec_parse(buffer: Seq<u8>) -> Decoded<Tag> {
        fixed(buffer, 4, Tag([buffer[0], buffer[1], buffer[2], buffer[3]]))
    }

    proof fn parse_stays_inside(buffer: Seq<u8>) {
    }

    fn parse(buffer: &'buf [u8]) -> (r: DeclResult<'buf, Self>) {
        if buffer.len() < Self::SIZE {
            return Err(Error::InsufficientBytes);
        }
        let buf: [u8; 4] = [buffer[0], buffer[1], buffer[2], buffer[3]];
        Ok((Tag(buf), rest_after(buffer, Self::SIZE)))
    }
}

impl<'buf> FixedWidth<'buf> for Tag {
    proof fn consumes_exactly_size(buffer: Seq<u8>, argument: ()) {
    }

    proof fn short_buffer_is_insufficient(buffer: Seq<u8>, argument: ()) {
    }
}

} // verus!
