use declarative::array::Array;
use declarative::decl::DeclRead;
use declarative::decl::Declarative;
use declarative::decl::DeclarativeWithArgs;
use declarative::decl::DynamicEncodingSize;
use declarative::decl::StaticEncodingSize;
use declarative::declarative::DeclarativeArgsRead;
use declarative::declarative::DeclarativeRead;
use declarative::errors::Error;
use declarative::font::OffsetTable;
use declarative::font::TableRecord;
use declarative::font::Version;
use declarative::types::Offset32;
use declarative::types::Tag;

fn tag(text: &str) -> Tag {
    let b = text.as_bytes();
    Tag([b[0], b[1], b[2], b[3]])
}

/// The bytes of a font's head: version, the four numbers of 16 bits, and one
/// record of 16 bytes for each table.
fn head(version: u32, numbers: [u16; 4], tables: &[(&str, u32, u32, u32)]) -> Vec<u8> {
    let mut bytes = Vec::new();
    bytes.extend_from_slice(&version.to_be_bytes());
    for n in numbers.iter() {
        bytes.extend_from_slice(&n.to_be_bytes());
    }
    for (name, check_sum, offset, length) in tables.iter() {
        bytes.extend_from_slice(name.as_bytes());
        bytes.extend_from_slice(&check_sum.to_be_bytes());
        bytes.extend_from_slice(&offset.to_be_bytes());
        bytes.extend_from_slice(&length.to_be_bytes());
    }
    bytes
}

fn roboto_tables() -> Vec<(&'static str, u32, u32, u32)> {
    vec![
        ("GDEF", 0xb442b082, 0x000228dc, 610),
        ("GPOS", 0xff1a12d7, 0x00022b40, 24012),
        ("GSUB", 0xeb82e459, 0x0002890c, 5520),
        ("OS/2", 0x9782b1a8, 0x000001a8, 96),
        ("cmap", 0x0177581e, 0x00001b58, 4678),
        ("cvt ", 0x2ba8079d, 0x000030a8, 84),
        ("fpgm", 0x77f860ab, 0x00002da0, 444),
        ("gasp", 0x00080013, 0x000228d0, 12),
        ("glyf", 0x26ba0bf4, 0x00003b1c, 125292),
        ("hdmx", 0x557a607a, 0x00001640, 1304),
        ("head", 0xfc6ad27a, 0x0000012c, 54),
        ("hhea", 0x0aba0aae, 0x00000164, 36),
        ("hmtx", 0xae728f97, 0x00000208, 5176),
        ("loca", 0x8077ffbb, 0x000030fc, 2590),
        ("maxp", 0x073e0309, 0x00000188, 32),
        ("name", 0xe6a41589, 0x00022488, 1062),
        ("post", 0xff6d0064, 0x000228b0, 32),
        ("prep", 0xa266fac9, 0x00002f5c, 329),
    ]
}

#[test]
fn test_stuff() {
    let expected = roboto_tables();
    let mut data = head(0x00010000, [18, 256, 4, 32], &expected);
    // What follows the directory in the file is of no concern to the head.
    data.extend_from_slice(&[0x00, 0x03, 0x00, 0x00, 0xde, 0xad]);
    let mut data = &data[..];
    let font = data.parse::<OffsetTable>().expect("Failed to parse OffsetTable");

    assert_eq!(font.version, Version::TrueType);
    assert_eq!(font.num_tables, 18);
    assert_eq!(font.search_range, 256);
    assert_eq!(font.entry_selector, 4);
    assert_eq!(font.range_shift, 32);

    let mut tables = font.tables.into_iter();
    for (name, check_sum, offset, length) in expected {
        let table = tables
            .next()
            .expect("insufficent number of tables")
            .expect("failed to parse font table");
        assert_eq!(table.tag, tag(name), "unexpected table tag");
        assert_eq!(table.check_sum, check_sum, "incorrect checksum");
        assert_eq!(table.offset, Offset32(offset), "incorrect offset");
        assert_eq!(table.length, length, "incorrect table length");
    }
    assert_eq!(tables.next(), None, "found more tables than expected");
}

#[test]
fn directory_of_two_tables() {
    let records = [("cmap", 0x0177581e, 0x2c, 4678), ("glyf", 0x26ba0bf4, 0x1272, 125292)];
    let bytes = head(0x00010000, [2, 32, 1, 0], &records);
    assert_eq!(bytes.len(), 12 + 2 * 16);
    let mut cursor = &bytes[..];
    let font = cursor.decode::<OffsetTable>().unwrap();
    assert_eq!(font.version, Version::TrueType);
    assert_eq!(font.num_tables, 2);
    assert_eq!(font.search_range, 32);
    assert_eq!(font.entry_selector, 1);
    assert_eq!(font.range_shift, 0);
    // The head takes twelve bytes; the directory is not taken from the cursor.
    assert_eq!(cursor, &bytes[12..]);
    assert_eq!(font.buffer, &bytes[12..]);
    assert_eq!(font.tables.size(), 32);

    let mut tables = font.tables.into_iter();
    assert_eq!(
        tables.next(),
        Some(Ok(TableRecord {
            tag: Tag(*b"cmap"),
            check_sum: 0x0177581e,
            offset: Offset32(0x2c),
            length: 4678,
        }))
    );
    assert_eq!(
        tables.next(),
        Some(Ok(TableRecord {
            tag: Tag(*b"glyf"),
            check_sum: 0x26ba0bf4,
            offset: Offset32(0x1272),
            length: 125292,
        }))
    );
    assert_eq!(tables.next(), None);
    assert_eq!(tables.next(), None);
}

#[test]
fn directory_can_be_walked_twice() {
    let records = [("head", 1, 2, 3), ("hhea", 4, 5, 6)];
    let bytes = head(0x4F54544F, [2, 0, 0, 0], &records);
    let mut cursor = &bytes[..];
    let font = cursor.decode::<OffsetTable>().unwrap();
    assert_eq!(font.version, Version::OpenType);
    let mut behind = font.buffer;
    let again = behind.decode_array::<TableRecord>(2).unwrap();
    let first: Vec<_> = collect(font.tables);
    let second: Vec<_> = collect(again);
    assert_eq!(first.len(), 2);
    assert_eq!(first, second);
}

fn collect(array: Array<TableRecord>) -> Vec<Result<TableRecord, Error>> {
    let mut out = Vec::new();
    let mut it = array.into_iter();
    while let Some(r) = it.next() {
        out.push(r);
    }
    out
}

#[test]
fn truncated_directory_ends_with_one_error() {
    let records = [("head", 1, 2, 3), ("hhea", 4, 5, 6), ("maxp", 7, 8, 9)];
    let bytes = head(0x00010000, [3, 0, 0, 0], &records);
    let short = &bytes[..12 + 16 + 15];
    let mut cursor = short;
    let font = cursor.decode::<OffsetTable>().unwrap();
    assert_eq!(font.num_tables, 3);
    let got = collect(font.tables);
    assert_eq!(got.len(), 2);
    assert_eq!(
        got[0],
        Ok(TableRecord { tag: Tag(*b"head"), check_sum: 1, offset: Offset32(2), length: 3 })
    );
    assert_eq!(got[1], Err(Error::InsufficientBytes));
}

#[test]
fn version_true_type() {
    let bytes = [0x00, 0x01, 0x00, 0x00, 0x7f];
    let (version, rest) = Version::parse(&bytes).unwrap();
    assert_eq!(version, Version::TrueType);
    assert_eq!(rest, &[0x7f]);
}

#[test]
fn version_open_type() {
    let bytes = *b"OTTO";
    let (version, rest) = Version::parse(&bytes).unwrap();
    assert_eq!(version, Version::OpenType);
    assert!(rest.is_empty());
    assert_eq!(u32::from_be_bytes(bytes), 0x4F54544F);
}

#[test]
fn version_unknown_is_invalid() {
    for bytes in [[0u8, 0, 0, 0], [0, 1, 0, 1], [0, 0, 1, 0], *b"true", *b"OTTo", [0xff; 4]] {
        assert_eq!(Version::parse(&bytes).map(|r| r.0), Err(Error::InvalidVersion));
    }
}

#[test]
fn version_short_buffer() {
    assert_eq!(<Version as StaticEncodingSize>::SIZE, 4);
    let bytes = [0x00, 0x01, 0x00];
    for n in 0..4 {
        assert_eq!(Version::parse(&bytes[..n]).map(|r| r.0), Err(Error::InsufficientBytes));
    }
}

#[test]
fn version_with_unit_argument() {
    let bytes = [0x00, 0x01, 0x00, 0x00];
    let (version, rest) = Version::parse_with(&bytes, ()).unwrap();
    assert_eq!(version, Version::TrueType);
    assert!(rest.is_empty());
    let mut cursor = &bytes[..];
    assert_eq!(cursor.decode_with::<Version>(()), Ok(Version::TrueType));
    assert!(cursor.is_empty());
}

#[test]
fn head_errors() {
    let bytes = head(0x00010000, [1, 2, 3, 4], &[]);
    for n in 0..4 {
        let mut cursor = &bytes[..n];
        assert_eq!(cursor.decode::<OffsetTable>().err(), Some(Error::InsufficientBytes));
        assert_eq!(cursor.len(), n);
    }
    for n in 4..12 {
        let mut cursor = &bytes[..n];
        assert_eq!(cursor.decode::<OffsetTable>().err(), Some(Error::InsufficientBytes));
        assert_eq!(cursor.len(), n);
    }
    let bad = head(0x00020000, [1, 2, 3, 4], &[]);
    let mut cursor = &bad[..];
    assert_eq!(cursor.decode::<OffsetTable>().err(), Some(Error::InvalidVersion));
    assert_eq!(cursor.len(), 12);
    // The version is looked at first, whatever is missing behind it.
    let mut cursor = &bad[..5];
    assert_eq!(cursor.decode::<OffsetTable>().err(), Some(Error::InvalidVersion));
}

#[test]
fn table_record_takes_sixteen_bytes() {
    assert_eq!(<TableRecord as StaticEncodingSize>::SIZE, 16);
    let bytes = head(0, [0, 0, 0, 0], &[("OS/2", 0x9782b1a8, 0x1a8, 96)]);
    let (record, rest) = TableRecord::parse(&bytes[12..]).unwrap();
    assert_eq!(record.tag, Tag(*b"OS/2"));
    assert_eq!(record.check_sum, 0x9782b1a8);
    assert_eq!(record.offset, Offset32(0x1a8));
    assert_eq!(record.length, 96);
    assert!(rest.is_empty());
    for n in 0..16 {
        assert_eq!(
            TableRecord::parse(&bytes[12..12 + n]).map(|r| r.0),
            Err(Error::InsufficientBytes)
        );
    }
}

#[test]
fn short_names_read_alike() {
    let records = [("head", 1, 2, 3), ("hhea", 4, 5, 6)];
    let bytes = head(0x4F54544F, [2, 9, 8, 7], &records);
    let mut cursor = &bytes[..];
    assert_eq!(cursor.parse::<Version>(), Ok(Version::OpenType));
    assert_eq!(cursor.parse_with::<u16>(()), Ok(2));
    assert_eq!(cursor.parse::<u16>(), Ok(9));
    assert_eq!(cursor, &bytes[8..]);
    assert_eq!(cursor.parse::<u64>(), Ok(0x0008_0007_6865_6164));
    let mut short = &bytes[..3];
    assert_eq!(short.parse::<Version>(), Err(Error::InsufficientBytes));
    assert_eq!(short.parse_with::<u32>(()), Err(Error::InsufficientBytes));
    assert_eq!(short, &bytes[..3]);

    let mut cursor = &bytes[12..];
    let mut tables = cursor.parse_array::<TableRecord>(2).unwrap().into_iter();
    assert_eq!(cursor, &bytes[12..]);
    assert_eq!(tables.next().map(|r| r.map(|t| t.tag)), Some(Ok(Tag(*b"head"))));
    assert_eq!(tables.next().map(|r| r.map(|t| t.tag)), Some(Ok(Tag(*b"hhea"))));
    assert_eq!(tables.next(), None);
    let mut items = cursor.parse_with::<Array<u8>>((2, ())).unwrap().into_iter();
    assert_eq!(items.next(), Some(Ok(b'h')));
    assert_eq!(items.next(), Some(Ok(b'e')));
    assert_eq!(items.next(), None);
}
