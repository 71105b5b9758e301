use barectf_parser::config::{
    EnumerationFieldTypeMappingSequence, IntegerFieldType, NativeByteOrder, PreferredDisplayBase,
    PrimitiveFieldType, RealFieldType, StructureMemberFieldType,
};
use barectf_parser::error::IoErrorKind;
use barectf_parser::parser::types::{
    AlignedCursor, EnumerationMappings, FieldDesc, FieldTypeParser, FieldUnsupportedError,
    PrimitiveFieldTypeParser, Size, StreamReader,
};
use barectf_parser::parser::wire::{decode_uint, to_signed};
use barectf_parser::types::{FieldValue, LogLevel, PrimitiveFieldValue};
use barectf_parser::Error;

#[test]
fn size_from_bits() {
    assert_eq!(Size::from_bits(8), Some(Size::Bits8));
    assert_eq!(Size::from_bits(64), Some(Size::Bits64));
    assert_eq!(Size::from_bits(24), None);
    assert_eq!(Size::from_bits(0), None);
    assert_eq!(Size::Bits32.bits(), 32);
}

#[test]
fn field_desc_from_ft() {
    let ft = IntegerFieldType {
        size: 16,
        alignment: 32,
        preferred_display_base: PreferredDisplayBase::Decimal,
    };
    assert_eq!(
        FieldDesc::from_ft(&ft),
        Ok(FieldDesc {
            size: Size::Bits16,
            alignment: Size::Bits32
        })
    );
    let bad = RealFieldType {
        size: 32,
        alignment: 4,
    };
    assert_eq!(FieldDesc::from_ft(&bad), Err(FieldUnsupportedError(32, 4)));
    assert_eq!(
        PrimitiveFieldTypeParser::from_ft(&PrimitiveFieldType::String),
        Ok(PrimitiveFieldTypeParser::String(FieldDesc {
            size: Size::Bits8,
            alignment: Size::Bits8
        }))
    );
}

#[test]
fn cursor_alignment() {
    let mut c = AlignedCursor::new();
    assert_eq!(c.align_to(Size::Bits64), 0);
    c.increment(Size::Bits8);
    assert_eq!(c.align_to(Size::Bits32), 24);
    assert_eq!(c.cursor_bits(), 32);
    c.aligned_increment(&FieldDesc {
        size: Size::Bits16,
        alignment: Size::Bits64,
    });
    assert_eq!(c.cursor_bits(), 80);
    assert_eq!(c.cursor_bytes(), 10);
    assert_eq!(c.align_to(Size::Bits8), 0);
}

#[test]
fn integers_in_both_byte_orders() {
    let b = [0x01, 0x02, 0x03, 0x04];
    assert_eq!(decode_uint(&b, NativeByteOrder::LittleEndian), 0x0403_0201);
    assert_eq!(decode_uint(&b, NativeByteOrder::BigEndian), 0x0102_0304);
    let all = [0xff; 8];
    assert_eq!(decode_uint(&all, NativeByteOrder::BigEndian), u64::MAX);
    assert_eq!(to_signed(0xff, 1), -1);
    assert_eq!(to_signed(0x7f, 1), 127);
    assert_eq!(to_signed(0x8000, 2), -32768);
    assert_eq!(to_signed(u64::MAX, 8), -1);
    assert_eq!(to_signed(0x8000_0000_0000_0000, 8), i64::MIN);
}

#[test]
fn reader_aligns_before_each_field() {
    let data = [0xaa, 0, 0x12, 0x34, 0, 0, 0, 0, 0xff, 0xfe, b'h', b'i', 0];
    let mut r = StreamReader::new(NativeByteOrder::BigEndian, &data);
    assert_eq!(r.read_u8(Size::Bits8), Ok(0xaa));
    assert_eq!(r.read_u16(Size::Bits16), Ok(0x1234));
    assert_eq!(r.cursor_bits(), 32);
    assert_eq!(r.read_i16(Size::Bits64), Ok(-2));
    assert_eq!(r.read_string(), Ok("hi".to_owned()));
    assert_eq!(r.consumed(), 13);
    assert_eq!(r.read_u8(Size::Bits8), Err(Error::Io(IoErrorKind::UnexpectedEof)));
}

#[test]
fn reader_replaces_invalid_utf8() {
    let data = [b'a', 0xff, b'b', 0];
    let mut r = StreamReader::new(NativeByteOrder::LittleEndian, &data);
    assert_eq!(r.read_string(), Ok("a\u{fffd}b".to_owned()));
    let unterminated = [b'a', b'b'];
    let mut r = StreamReader::new(NativeByteOrder::LittleEndian, &unterminated);
    assert_eq!(r.read_string(), Err(Error::Io(IoErrorKind::UnexpectedEof)));
}

#[test]
fn reader_resumes_from_cursor() {
    let mut c = AlignedCursor::new();
    c.increment(Size::Bits8);
    let data = [0, 0, 0, 0x2a, 0, 0, 0];
    let mut r = StreamReader::new_with_cursor(NativeByteOrder::LittleEndian, c, &data);
    // Aligning to 32 bits from bit 8 passes over 3 bytes.
    assert_eq!(r.read_u32(Size::Bits32), Ok(0x2a));
    assert_eq!(r.into_cursor().cursor_bits(), 64);
}

#[test]
fn dynamic_array_length_is_byte_aligned() {
    let p = FieldTypeParser::DynamicArray(PrimitiveFieldTypeParser::UInt(FieldDesc {
        size: Size::Bits16,
        alignment: Size::Bits16,
    }));
    let data = [0xee, 2, 0, 0, 0, 0xee, 7, 0, 9, 0];
    let mut r = StreamReader::new(NativeByteOrder::LittleEndian, &data);
    assert_eq!(r.read_u8(Size::Bits8), Ok(0xee));
    assert_eq!(
        p.parse(&mut r),
        Ok(FieldValue::Array(vec![
            PrimitiveFieldValue::from(7_u64),
            PrimitiveFieldValue::from(9_u64)
        ]))
    );
}

fn mappings() -> EnumerationMappings {
    use_mappings(vec![
        ("LOW", vec![EnumerationFieldTypeMappingSequence::InclusiveRange(0, 9)]),
        (
            "MID",
            vec![
                EnumerationFieldTypeMappingSequence::Value(-3),
                EnumerationFieldTypeMappingSequence::InclusiveRange(5, 20),
            ],
        ),
        ("ALL", vec![EnumerationFieldTypeMappingSequence::InclusiveRange(i64::MIN, i64::MAX)]),
    ])
}

fn use_mappings(m: Vec<(&str, Vec<EnumerationFieldTypeMappingSequence>)>) -> EnumerationMappings {
    EnumerationMappings(m.into_iter().map(|(l, v)| (l.to_owned(), v)).collect())
}

#[test]
fn enum_label_is_first_match() {
    let m = mappings();
    assert_eq!(m.label(7), Some("LOW".to_owned()));
    assert_eq!(m.label(15), Some("MID".to_owned()));
    assert_eq!(m.label(-3), Some("MID".to_owned()));
    assert_eq!(m.label(-4), Some("ALL".to_owned()));
    let none = use_mappings(vec![("X", vec![EnumerationFieldTypeMappingSequence::Value(1)])]);
    assert_eq!(none.label(2), None);
    assert_eq!(use_mappings(vec![]).label(0), None);
}

#[test]
fn mapping_sequence_contains() {
    let r = EnumerationFieldTypeMappingSequence::InclusiveRange(-2, 2);
    assert!(r.contains(-2) && r.contains(2) && !r.contains(3));
    assert!(EnumerationFieldTypeMappingSequence::Value(4).contains(4));
}

#[test]
fn enum_member_reads_signed_with_label() {
    use_member();
}

fn use_member() {
    let ft = StructureMemberFieldType::UnsignedEnumeration(barectf_parser::config::EnumerationFieldType {
        size: 8,
        alignment: 8,
        preferred_display_base: PreferredDisplayBase::Hexadecimal,
        mappings: vec![("big".to_owned(), vec![EnumerationFieldTypeMappingSequence::InclusiveRange(128, 255)])],
    });
    let member = barectf_parser::parser::types::EventPayloadMemberParser {
        member_name: "m".to_owned(),
        preferred_display_base: Some(PreferredDisplayBase::Hexadecimal),
        enum_mappings: EnumerationMappings::from_struct_ft(&ft),
        value: FieldTypeParser::from_ft(&ft).unwrap(),
    };
    let data = [200];
    let mut r = StreamReader::new(NativeByteOrder::LittleEndian, &data);
    assert_eq!(
        member.parse(&mut r),
        Ok(FieldValue::Primitive(PrimitiveFieldValue::Enumeration(
            200,
            PreferredDisplayBase::Hexadecimal,
            Some("big".to_owned())
        )))
    );
}

#[test]
fn log_levels() {
    assert_eq!(LogLevel::from(2), LogLevel::Critical);
    assert_eq!(LogLevel::from_i32(14), LogLevel::Debug);
    assert_eq!(LogLevel::from_i32(99), LogLevel::Other(99));
    assert_eq!(LogLevel::Warning.as_i32(), 4);
    assert_eq!(LogLevel::Info.label(), Some("INFO"));
    assert_eq!(LogLevel::Other(-1).label(), None);
}

#[test]
fn real_of_unsupported_width_keeps_position() {
    let p = PrimitiveFieldTypeParser::Real(FieldDesc {
        size: Size::Bits16,
        alignment: Size::Bits8,
    });
    let data = [1, 2, 3];
    let mut r = StreamReader::new(NativeByteOrder::LittleEndian, &data);
    assert_eq!(r.read_u8(Size::Bits8), Ok(1));
    assert_eq!(p.parse(&mut r), Err(Error::InvalidFloatSize(16)));
    assert_eq!(r.cursor_bits(), 8);
}
