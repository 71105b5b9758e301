use barectf_parser::config::{
    ClockType, CodeGenerationOptions, Config, DataStreamType, DataStreamTypeEventRecordFeatures,
    DataStreamTypeFeatures, DataStreamTypePacketFeatures, EventRecordType,
    FeaturesUnsignedIntegerFieldType, HeaderGenerationOptions, IntegerFieldType,
    NativeByteOrder, Options, PacketContextExtraMembers, PreferredDisplayBase, Trace,
    TraceType, TraceTypeFeatures, UnsignedIntegerFieldType,
};
use barectf_parser::config::{
    PrimitiveFieldType, StaticArrayFieldType, StructureFieldTypeMember, StructureMemberFieldType,
};
use barectf_parser::error::IoErrorKind;
use barectf_parser::types::{Event, PacketContext, PacketHeader};
use barectf_parser::{Error, Parser};

fn uint(size: usize, alignment: usize) -> UnsignedIntegerFieldType {
    UnsignedIntegerFieldType {
        field_type: IntegerFieldType {
            size,
            alignment,
            preferred_display_base: PreferredDisplayBase::Decimal,
        },
    }
}

fn timer() -> ClockType {
    ClockType {
        frequency: 1_000_000_000,
        offset: None,
        origin_is_unix_epoch: false,
        precision: 1,
        uuid: None,
        description: None,
        c_type: "uint64_t".to_owned(),
    }
}

fn empty_event() -> EventRecordType {
    EventRecordType {
        log_level: None,
        specific_context_field_type: None,
        payload_field_type: None,
    }
}

fn config() -> Config {
    let stream = DataStreamType {
        is_default: true,
        default_clock_type_name: Some("timer".to_owned()),
        features: DataStreamTypeFeatures {
            packet: DataStreamTypePacketFeatures {
                total_size_field_type: uint(64, 64),
                content_size_field_type: uint(64, 64),
                beginning_timestamp_field_type: FeaturesUnsignedIntegerFieldType::False(false),
                end_timestamp_field_type: FeaturesUnsignedIntegerFieldType::False(false),
                discarded_event_records_counter_snapshot_field_type:
                    FeaturesUnsignedIntegerFieldType::False(false),
                sequence_number_field_type: FeaturesUnsignedIntegerFieldType::False(false),
            },
            event_record: DataStreamTypeEventRecordFeatures {
                type_id_field_type: uint(32, 32),
                timestamp_field_type: uint(32, 32),
            },
        },
        packet_context_field_type_extra_members: PacketContextExtraMembers(vec![]),
        event_record_common_context_field_type: None,
        // Listed out of order: IDs follow the names' order.
        event_record_types: vec![
            ("shutdown".to_owned(), empty_event()),
            ("init".to_owned(), empty_event()),
        ],
    };
    Config {
        options: Options {
            code_generation: CodeGenerationOptions {
                file_name: "barectf".to_owned(),
                identifier: "barectf_".to_owned(),
            },
            header: HeaderGenerationOptions {
                identifier_prefix_definition: false,
                default_data_stream_type_name_definition: false,
            },
        },
        trace: Trace {
            typ: TraceType {
                native_byte_order: NativeByteOrder::LittleEndian,
                uuid: None,
                features: TraceTypeFeatures {
                    magic_field_type: FeaturesUnsignedIntegerFieldType::False(false),
                    uuid_field_type: false,
                    data_stream_type_id_field_type: uint(64, 64),
                },
                clock_types: vec![("timer".to_owned(), timer())],
                data_stream_types: vec![("stream_a".to_owned(), stream)],
            },
        },
    }
}

/// One packet of 512 bytes whose two events end at bit 320.
fn stream() -> Vec<u8> {
    let mut b = Vec::new();
    b.extend_from_slice(&0_u64.to_le_bytes()); // stream id
    b.extend_from_slice(&4096_u64.to_le_bytes()); // packet size
    b.extend_from_slice(&320_u64.to_le_bytes()); // content size
    b.extend_from_slice(&0_u32.to_le_bytes()); // init
    b.extend_from_slice(&0_u32.to_le_bytes());
    b.extend_from_slice(&1_u32.to_le_bytes()); // shutdown
    b.extend_from_slice(&1_u32.to_le_bytes());
    b.resize(512, 0);
    b
}

fn simple_event(id: u64, name: &str, timestamp: u64) -> Event {
    Event {
        id,
        name: name.to_owned(),
        timestamp,
        log_level: None,
        common_context: vec![],
        specific_context: vec![],
        payload: vec![],
    }
}

#[test]
fn simple_trace_sync() {
    let cfg = config();
    let parser = Parser::new(&cfg).unwrap();
    let data = stream();

    let (pkt, n) = parser.parse(&data).unwrap();
    assert_eq!(n, 512);
    let next = parser.parse(&data[n..]);
    assert_eq!(next.unwrap_err(), Error::Io(IoErrorKind::UnexpectedEof)); // EOF

    assert_eq!(
        pkt.header,
        PacketHeader {
            magic_number: None,
            trace_uuid: None,
            stream_id: 0,
            stream_name: "stream_a".to_owned(),
            clock_name: Some("timer".to_owned()),
            clock_type: Some(timer()),
        }
    );
    assert_eq!(
        pkt.context,
        PacketContext {
            packet_size_bits: 4096,
            content_size_bits: 320,
            beginning_timestamp: None,
            end_timestamp: None,
            events_discarded: None,
            sequence_number: None,
            extra_members: vec![],
        }
    );
    assert_eq!(pkt.context.packet_size(), 512);
    assert_eq!(pkt.context.content_size(), 40);
    assert_eq!(
        pkt.events,
        vec![simple_event(0, "init", 0), simple_event(1, "shutdown", 1)]
    );
    assert!(parser.warnings(&pkt.header).is_empty());
}

#[test]
fn simple_trace_incremental_byte_by_byte() {
    let parser = Parser::new(&config()).unwrap();
    let all = stream();
    let (expected, _) = parser.parse(&all).unwrap();
    let mut decoder = parser.into_packet_decoder();
    let mut buf: Vec<u8> = Vec::new();
    let mut packets = Vec::new();
    for b in all.iter() {
        buf.push(*b);
        if let Some((pkt, n)) = decoder.decode(&buf).unwrap() {
            buf.drain(..n);
            packets.push(pkt);
        }
    }
    assert!(buf.is_empty());
    assert_eq!(packets, vec![expected]);
    // Nothing more: the decoder asks for more bytes.
    assert!(decoder.decode(&buf).unwrap().is_none());
}

#[test]
fn simple_trace_incremental_at_once() {
    let parser = Parser::new(&config()).unwrap();
    let mut all = stream();
    all.extend(stream());
    let (expected, n) = parser.parse(&all).unwrap();
    let mut decoder = parser.into_packet_decoder();
    let (first, m) = decoder.decode(&all).unwrap().unwrap();
    assert_eq!((first, m), (expected.clone(), n));
    let (second, k) = decoder.decode(&all[m..]).unwrap().unwrap();
    assert_eq!(second, expected);
    assert_eq!(m + k, all.len());
}

#[test]
fn undefined_stream_id() {
    let parser = Parser::new(&config()).unwrap();
    let mut data = stream();
    data[0] = 3;
    assert_eq!(parser.parse(&data).unwrap_err(), Error::UndefinedStreamId(3));
}

#[test]
fn undefined_event_id() {
    let parser = Parser::new(&config()).unwrap();
    let mut data = stream();
    data[32] = 9; // second event's ID
    assert_eq!(parser.parse(&data).unwrap_err(), Error::UndefinedEventId(9));
}

#[test]
fn truncated_packet_is_eof() {
    let parser = Parser::new(&config()).unwrap();
    let data = stream();
    assert_eq!(
        parser.parse(&data[..100]).unwrap_err(),
        Error::Io(IoErrorKind::UnexpectedEof)
    );
    assert_eq!(
        parser.parse(&data[..30]).unwrap_err(),
        Error::Io(IoErrorKind::UnexpectedEof)
    );
}

#[test]
fn content_overrun_is_invalid_data() {
    let parser = Parser::new(&config()).unwrap();
    let mut data = stream();
    data[16] = 0x30; // content size 304: the last event overruns it
    data[17] = 0x01;
    assert_eq!(
        parser.parse(&data).unwrap_err(),
        Error::Io(IoErrorKind::InvalidData)
    );
}

#[test]
fn packet_smaller_than_content_is_invalid_data() {
    let parser = Parser::new(&config()).unwrap();
    let mut data = stream();
    data[8] = 0; // packet size 256 < content size 320
    data[9] = 1;
    assert_eq!(
        parser.parse(&data).unwrap_err(),
        Error::Io(IoErrorKind::InvalidData)
    );
}

#[test]
fn unsupported_magic_width() {
    let mut cfg = config();
    cfg.trace.typ.features.magic_field_type =
        FeaturesUnsignedIntegerFieldType::UnsignedInteger(uint(16, 8));
    assert_eq!(
        Parser::new(&cfg).unwrap_err(),
        Error::UnsupportedFieldType("magic-field-type".to_owned(), 16, 8)
    );
}

#[test]
fn unsupported_field_width() {
    let mut cfg = config();
    cfg.trace.typ.data_stream_types[0]
        .1
        .features
        .event_record
        .timestamp_field_type = uint(24, 8);
    assert_eq!(
        Parser::new(&cfg).unwrap_err(),
        Error::UnsupportedFieldType(
            "stream.stream_a.$features.event-record.timestamp-field-type".to_owned(),
            24,
            8
        )
    );
}

#[test]
fn unsupported_header_alignment() {
    let mut cfg = config();
    cfg.trace.typ.features.data_stream_type_id_field_type = uint(8, 128);
    assert_eq!(
        Parser::new(&cfg).unwrap_err(),
        Error::UnsupportedFieldType("data-stream-type-id-field-type".to_owned(), 8, 128)
    );
}

#[test]
fn stream_ids_follow_name_order() {
    let mut cfg = config();
    let mut other = cfg.trace.typ.data_stream_types[0].1.clone();
    other.default_clock_type_name = None;
    // "a_stream" sorts before "stream_a", so it takes ID 0.
    cfg.trace.typ.data_stream_types.push(("a_stream".to_owned(), other));
    let parser = Parser::new(&cfg).unwrap();
    let mut data = stream();
    data[0] = 1;
    let (pkt, _) = parser.parse(&data).unwrap();
    assert_eq!(pkt.header.stream_id, 1);
    assert_eq!(pkt.header.stream_name, "stream_a");
    data[0] = 0;
    let (pkt, _) = parser.parse(&data).unwrap();
    assert_eq!(pkt.header.stream_name, "a_stream");
    assert_eq!(pkt.header.clock_name, None);
    assert_eq!(pkt.header.clock_type, None);
}

#[test]
fn big_endian_stream() {
    let mut cfg = config();
    cfg.trace.typ.native_byte_order = NativeByteOrder::BigEndian;
    let parser = Parser::new(&cfg).unwrap();
    let mut b = Vec::new();
    b.extend_from_slice(&0_u64.to_be_bytes());
    b.extend_from_slice(&4096_u64.to_be_bytes());
    b.extend_from_slice(&320_u64.to_be_bytes());
    b.extend_from_slice(&1_u32.to_be_bytes()); // shutdown
    b.extend_from_slice(&7_u32.to_be_bytes());
    b.extend_from_slice(&0_u32.to_be_bytes()); // init
    b.extend_from_slice(&0x0102_0304_u32.to_be_bytes());
    b.resize(512, 0);
    let (pkt, n) = parser.parse(&b).unwrap();
    assert_eq!(n, 512);
    assert_eq!(
        pkt.events,
        vec![
            simple_event(1, "shutdown", 7),
            simple_event(0, "init", 0x0102_0304)
        ]
    );
}

#[test]
fn packet_without_events() {
    let parser = Parser::new(&config()).unwrap();
    let mut data = stream();
    data[16] = 192; // content ends with the context
    data[17] = 0;
    let (pkt, n) = parser.parse(&data).unwrap();
    assert_eq!(n, 512);
    assert!(pkt.events.is_empty());
    assert_eq!(pkt.context.content_size_bits, 192);
    let mut decoder = parser.into_packet_decoder();
    let (again, m) = decoder.decode(&data).unwrap().unwrap();
    assert_eq!((again, m), (pkt, n));
}

#[test]
fn short_buffers_wait_for_more() {
    let parser = Parser::new(&config()).unwrap();
    let data = stream();
    let mut decoder = parser.into_packet_decoder();
    assert!(decoder.decode(&data[..0]).unwrap().is_none());
    assert!(decoder.decode(&data[..7]).unwrap().is_none());
    assert!(decoder.decode(&data[..8]).unwrap().is_none());
    assert!(decoder.decode(&data[..30]).unwrap().is_none());
    assert!(decoder.decode(&data[..511]).unwrap().is_none());
    let (pkt, n) = decoder.decode(&data).unwrap().unwrap();
    assert_eq!(n, 512);
    assert_eq!(pkt.events.len(), 2);
}

#[test]
fn array_extra_member_waits_for_bytes() {
    let mut cfg = config();
    cfg.trace.typ.data_stream_types[0].1.packet_context_field_type_extra_members =
        PacketContextExtraMembers(vec![(
            "arr".to_owned(),
            StructureFieldTypeMember {
                field_type: StructureMemberFieldType::StaticArray(StaticArrayFieldType {
                    length: 4,
                    element_field_type: PrimitiveFieldType::UnsignedInteger(IntegerFieldType {
                        size: 32,
                        alignment: 32,
                        preferred_display_base: PreferredDisplayBase::Decimal,
                    }),
                }),
            },
        )]);
    let parser = Parser::new(&cfg).unwrap();
    let mut b = Vec::new();
    b.extend_from_slice(&0_u64.to_le_bytes());
    b.extend_from_slice(&4096_u64.to_le_bytes());
    b.extend_from_slice(&448_u64.to_le_bytes());
    for v in 1_u32..=4 {
        b.extend_from_slice(&v.to_le_bytes());
    }
    b.extend_from_slice(&0_u32.to_le_bytes());
    b.extend_from_slice(&0_u32.to_le_bytes());
    b.extend_from_slice(&1_u32.to_le_bytes());
    b.extend_from_slice(&1_u32.to_le_bytes());
    b.resize(512, 0);
    let (expected, _) = parser.parse(&b).unwrap();
    let mut decoder = parser.into_packet_decoder();
    let mut buf = Vec::new();
    let mut got = Vec::new();
    for x in b.iter() {
        buf.push(*x);
        if let Some((pkt, n)) = decoder.decode(&buf).unwrap() {
            buf.drain(..n);
            got.push(pkt);
        }
    }
    assert_eq!(got, vec![expected]);
}

#[test]
fn duplicate_names_are_found() {
    let mut cfg = config();
    assert!(cfg.trace.typ.has_unique_keys());
    let dup = cfg.trace.typ.data_stream_types[0].clone();
    cfg.trace.typ.data_stream_types.push(dup);
    assert!(!cfg.trace.typ.has_unique_keys());
}
