use vstd::prelude::*;
use crate::array::Array;
use crate::array::ArrayView;
use crate::decl::DeclRead;
use crate::decl::DeclResult;
use crate::decl::Declarative;
use crate::decl::Decoded;
use crate::decl::FixedWidth;
use crate::decl::StaticEncodingSize;
use crate::errors::Error;
use crate::primitives::be_value;
use crate::types::Offset32;
use crate::types::Tag;

verus! {

/// The kind of outlines that a font file holds, told by its first four bytes.
#[derive(Debug, Clone, Copy, PartialEq, Eq, Structural)]
pub enum Version {
    OpenType,
    TrueType,
}

impl View for Version {
    type V = Version;

    open spec fn view(&self) -> Version {
        *self
    }
}

impl StaticEncodingSize for Version {
    const SIZE: usize = 4;
}

/// The version that the number `tag` stands for, if any.
pub open spec fn version_of(tag: u32) -> Option<Version> {
    if tag == 0x00010000 {
        Some(Version::TrueType)
    } else if tag == 0x4F54544F {
        Some(Version::OpenType)
    } else {
        None
    }
}

impl<'buf> Declarative<'buf> for Version {
    open spec fn spec_parse(buffer: Seq<u8>) -> Decoded<Version> {
        if buffer.len() < 4 {
            Err(Error::InsufficientBytes)
        } else {
            match version_of(be_value(buffer.take(4)) as u32) {
                Some(version) => Ok((version, 4)),
                None => Err(Error::InvalidVersion),
            }
        }
    }

    proof fn parse_stays_inside(buffer: Seq<u8>) {
    }

    fn parse(buffer: &'buf [u8]) -> (r: Result<(Self, &'buf [u8]), Error>) {
        let (version, buffer) = u32::parse(buffer)?;
        let version = match version {
            0x00010000 => Version::TrueType,
            0x4F54544F => Version::OpenType,
            _ => return Err(Error::InvalidVersion),
        };
        Ok((version, buffer))
    }
}

impl<'buf> FixedWidth<'buf> for Version {
    proof fn consumes_exactly_size(buffer: Seq<u8>, argument: ()) {
    }

    proof fn short_buffer_is_insufficient(buffer: Seq<u8>, argument: ()) {
    }
}

/// One entry of a font's table directory.
#[derive(Debug, PartialEq)]
pub struct TableRecord {
    pub tag: Tag,
    pub check_sum: u32,
    pub offset: Offset32,
    pub length: u32,
}

impl View for TableRecord {
    type V = TableRecord;

    open spec fn view(&self) -> TableRecord {
        *self
    }
}

impl StaticEncodingSize for TableRecord {
    const SIZE: usize = 16;
}

impl<'buf> Declarative<'buf> for TableRecord {
    open spec fn spec_parse(buffer: Seq<u8>) -> Decoded<TableRecord> {
        if buffer.len() < 16 {
            Err(Error::InsufficientBytes)
        } else {
            Ok(
                (
                    TableRecord {
                        tag: Tag([buffer[0], buffer[1], buffer[2], buffer[3]]),
                        check_sum: be_value(buffer.subrange(4, 8)) as u32,
                        offset: Offset32(be_value(buffer.subrange(8, 12)) as u32),
                        length: be_value(buffer.subrange(12, 16)) as u32,
                    },
                    16,
                ),
            )
        }
    }

    proof fn parse_stays_inside(buffer: Seq<u8>) {
    }

    fn parse(buffer: &'buf [u8]) -> (r: DeclResult<'buf, Self>) {
        let ghost whole = buffer@;
        let mut buffer = buffer;
        let tag = buffer.decode::<Tag>()?;
        let check_sum = buffer.decode::<u32>()?;
        let offset = buffer.decode::<Offset32>()?;
        let length = buffer.decode::<u32>()?;
        proof {
            assert(whole.skip(4).take(4) =~= whole.subrange(4, 8));
            assert(whole.skip(4).skip(4).take(4) =~= whole.subrange(8, 12));
            assert(whole.skip(4).skip(4).skip(4).take(4) =~= whole.subrange(12, 16));
            assert(whole.skip(4).skip(4).skip(4).skip(4) =~= whole.skip(16));
        }
        Ok((TableRecord { tag, check_sum, offset, length }, buffer))
    }
}

impl<'buf> FixedWidth<'buf> for TableRecord {
    proof fn consumes_exactly_size(buffer: Seq<u8>, argument: ()) {
    }

    proof fn short_buffer_is_insufficient(buffer: Seq<u8>, argument: ()) {
    }
}

/// The head of a font file: its version, the size of the table directory and
/// the search hints, then the directory itself as a lazy array.
pub struct OffsetTable<'buf> {
    pub buffer: &'buf [u8],
    pub version: Version,
    pub num_tables: u16,
    pub search_range: u16,
    pub entry_selector: u16,
    pub range_shift: u16,
    pub tables: Array<'buf, TableRecord>,
}

/// What an `OffsetTable` stands for.
pub ghost struct OffsetTableView {
    /// The bytes behind the head, where the directory starts.
    pub buffer: Seq<u8>,
    pub version: Version,
    pub num_tables: u16,
    pub search_range: u16,
    pub entry_selector: u16,
    pub range_shift: u16,
    pub tables: ArrayView<()>,
}

impl<'buf> View for OffsetTable<'buf> {
    type V = OffsetTableView;

    open spec fn view(&self) -> OffsetTableView {
        OffsetTableView {
            buffer: self.buffer@,
            version: self.version,
            num_tables: self.num_tables,
            search_range: self.search_range,
            entry_selector: self.entry_selector,
            range_shift: self.range_shift,
            tables: self.tables@,
        }
    }
}

impl<'buf> Declarative<'buf> for OffsetTable<'buf> {
    open spec fn spec_parse(buffer: Seq<u8>) -> Decoded<OffsetTableView> {
        match Version::spec_parse(buffer) {
            Err(e) => Err(e),
            Ok((version, _)) => if buffer.len() < 12 {
                Err(Error::InsufficientBytes)
            } else {
                let num_tables = be_value(buffer.subrange(4, 6)) as u16;
                Ok(
                    (
                        OffsetTableView {
                            buffer: buffer.skip(12),
                            version,
                            num_tables,
                            search_range: be_value(buffer.subrange(6, 8)) as u16,
                            entry_selector: be_value(buffer.subrange(8, 10)) as u16,
                            range_shift: be_value(buffer.subrange(10, 12)) as u16,
                            tables: ArrayView {
                                bytes: buffer.skip(12),
                                length: num_tables as usize,
                                argument: (),
                            },
                        },
                        12,
                    ),
                )
            },
        }
    }

    proof fn parse_stays_inside(buffer: Seq<u8>) {
    }

    fn parse(buffer: &'buf [u8]) -> (r: DeclResult<'buf, Self>) {
        let ghost whole = buffer@;
        let mut buffer = buffer;
        let version = buffer.decode::<Version>()?;
        let num_tables = buffer.decode::<u16>()?;
        let search_range = buffer.decode::<u16>()?;
        let entry_selector = buffer.decode::<u16>()?;
        let range_shift = buffer.decode::<u16>()?;
        let tables = buffer.decode_array::<TableRecord>(num_tables as usize)?;
        proof {
            assert(whole.skip(4).take(2) =~= whole.subrange(4, 6));
            assert(whole.skip(4).skip(2).take(2) =~= whole.subrange(6, 8));
            assert(whole.skip(4).skip(2).skip(2).take(2) =~= whole.subrange(8, 10));
            assert(whole.skip(4).skip(2).skip(2).skip(2).take(2) =~= whole.subrange(10, 12));
            assert(whole.skip(4).skip(2).skip(2).skip(2).skip(2) =~= whole.skip(12));
        }
        Ok(
            (
                OffsetTable {
                    buffer,
                    version,
                    num_tables,
                    search_range,
                    entry_selector,
                    range_shift,
                    tables,
                },
                buffer,
            ),
        )
    }
}

} // verus!
