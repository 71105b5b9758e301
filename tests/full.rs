use barectf_parser::config::{
    ClockType, CodeGenerationOptions, Config, DataStreamType, DataStreamTypeEventRecordFeatures,
    DataStreamTypeFeatures, DataStreamTypePacketFeatures, DynamicArrayFieldType,
    EnumerationFieldType, EnumerationFieldTypeMappingSequence, EventRecordType,
    FeaturesUnsignedIntegerFieldType, HeaderGenerationOptions, IntegerFieldType,
    NativeByteOrder, Options, PacketContextExtraMembers, PreferredDisplayBase,
    PrimitiveFieldType, RealFieldType, StaticArrayFieldType, StructureFieldType,
    StructureFieldTypeMember, StructureMemberFieldType, Trace, TraceType, TraceTypeFeatures,
    UnsignedIntegerFieldType,
};
use barectf_parser::config::EnumerationFieldTypeMappingSequence::{InclusiveRange, Value};
use barectf_parser::config::StructureMemberFieldType as M;
use barectf_parser::parser::HeaderWarning;
use barectf_parser::types::{
    Event, FieldValue, LogLevel, Packet, PacketContext, PacketHeader, PrimitiveFieldValue,
    CTF_MAGIC_NUMBER,
};
use barectf_parser::{Error, Parser};

const TRACE_UUID: [u8; 16] = [
    0x79, 0xe4, 0x90, 0x40, 0x21, 0xb5, 0x42, 0xd4, 0xa8, 0x3b, 0x64, 0x6f, 0x78, 0x66, 0x6b, 0x62,
];

fn int_ft(size: usize, alignment: usize) -> IntegerFieldType {
    IntegerFieldType {
        size,
        alignment,
        preferred_display_base: PreferredDisplayBase::Decimal,
    }
}

fn uint(size: usize, alignment: usize) -> UnsignedIntegerFieldType {
    UnsignedIntegerFieldType {
        field_type: int_ft(size, alignment),
    }
}

fn feature(size: usize) -> FeaturesUnsignedIntegerFieldType {
    FeaturesUnsignedIntegerFieldType::UnsignedInteger(uint(size, size))
}

fn member(name: &str, ft: StructureMemberFieldType) -> (String, StructureFieldTypeMember) {
    (name.to_owned(), StructureFieldTypeMember { field_type: ft })
}

fn structure(members: Vec<(String, StructureFieldTypeMember)>) -> StructureFieldType {
    StructureFieldType {
        minimum_alignment: 1,
        members,
    }
}

fn enumeration(
    size: usize,
    base: PreferredDisplayBase,
    mappings: Vec<(&str, Vec<EnumerationFieldTypeMappingSequence>)>,
) -> EnumerationFieldType {
    EnumerationFieldType {
        size,
        alignment: 8,
        preferred_display_base: base,
        mappings: mappings
            .into_iter()
            .map(|(l, v)| (l.to_owned(), v))
            .collect(),
    }
}

fn event(
    log_level: Option<i32>,
    specific: Option<StructureFieldType>,
    payload: Option<StructureFieldType>,
) -> EventRecordType {
    EventRecordType {
        log_level,
        specific_context_field_type: specific,
        payload_field_type: payload,
    }
}

fn clock() -> ClockType {
    ClockType {
        frequency: 1_000_000_000,
        offset: None,
        origin_is_unix_epoch: false,
        precision: 1,
        uuid: Some([
            0x91, 0x68, 0xb5, 0xfb, 0x9d, 0x29, 0x4f, 0xa5, 0x81, 0x0f, 0x71, 0x46, 0x01, 0x30,
            0x9f, 0xfd,
        ]),
        description: Some("timer clock".to_owned()),
        c_type: "uint64_t".to_owned(),
    }
}

fn config() -> Config {
    let events = vec![
        (
            "init".to_owned(),
            event(
                None,
                Some(structure(vec![member("cpu_id", M::SignedInteger(int_ft(32, 8)))])),
                Some(structure(vec![member("version", M::String)])),
            ),
        ),
        (
            "foobar".to_owned(),
            event(
                Some(2),
                None,
                Some(structure(vec![
                    member("val", M::UnsignedInteger(int_ft(32, 32))),
                    member("val2", M::UnsignedInteger(int_ft(16, 8))),
                ])),
            ),
        ),
        (
            "floats".to_owned(),
            event(
                Some(4),
                None,
                Some(structure(vec![
                    member("f32", M::Real(RealFieldType { size: 32, alignment: 32 })),
                    member("f64", M::Real(RealFieldType { size: 64, alignment: 64 })),
                ])),
            ),
        ),
        (
            "enums".to_owned(),
            event(
                None,
                None,
                Some(structure(vec![
                    member(
                        "foo",
                        M::UnsignedEnumeration(enumeration(
                            8,
                            PreferredDisplayBase::Decimal,
                            vec![("A", vec![Value(0)]), ("B", vec![Value(1)])],
                        )),
                    ),
                    member(
                        "bar",
                        M::SignedEnumeration(enumeration(
                            16,
                            PreferredDisplayBase::Decimal,
                            vec![("C", vec![Value(-1)]), ("D", vec![InclusiveRange(-5, 5)])],
                        )),
                    ),
                    member(
                        "biz",
                        M::UnsignedEnumeration(enumeration(
                            32,
                            PreferredDisplayBase::Decimal,
                            vec![
                                ("IDLE", vec![InclusiveRange(0, 9)]),
                                ("RUNNING", vec![Value(5), InclusiveRange(10, 20)]),
                                ("ANY", vec![InclusiveRange(0, 100)]),
                            ],
                        )),
                    ),
                    member(
                        "baz",
                        M::UnsignedEnumeration(enumeration(
                            8,
                            PreferredDisplayBase::Hexadecimal,
                            vec![("on/off", vec![Value(200)])],
                        )),
                    ),
                ])),
            ),
        ),
        (
            "arrays".to_owned(),
            event(
                None,
                None,
                Some(structure(vec![
                    member(
                        "foo",
                        M::StaticArray(StaticArrayFieldType {
                            length: 4,
                            element_field_type: PrimitiveFieldType::UnsignedInteger(int_ft(
                                32, 32,
                            )),
                        }),
                    ),
                    member(
                        "bar",
                        M::DynamicArray(DynamicArrayFieldType {
                            element_field_type: PrimitiveFieldType::String,
                        }),
                    ),
                ])),
            ),
        ),
        ("shutdown".to_owned(), event(None, None, None)),
    ];
    let stream = DataStreamType {
        is_default: true,
        default_clock_type_name: Some("default".to_owned()),
        features: DataStreamTypeFeatures {
            packet: DataStreamTypePacketFeatures {
                total_size_field_type: uint(32, 32),
                content_size_field_type: uint(32, 32),
                beginning_timestamp_field_type: feature(64),
                end_timestamp_field_type: feature(64),
                discarded_event_records_counter_snapshot_field_type: feature(32),
                sequence_number_field_type: feature(32),
            },
            event_record: DataStreamTypeEventRecordFeatures {
                type_id_field_type: uint(8, 8),
                timestamp_field_type: uint(64, 64),
            },
        },
        packet_context_field_type_extra_members: PacketContextExtraMembers(vec![member(
            "pc",
            StructureMemberFieldType::UnsignedInteger(int_ft(32, 32)),
        )]),
        event_record_common_context_field_type: Some(structure(vec![member(
            "ercc",
            StructureMemberFieldType::UnsignedInteger(int_ft(32, 32)),
        )])),
        event_record_types: events,
    };
    Config {
        options: Options {
            code_generation: CodeGenerationOptions {
                file_name: "barectf".to_owned(),
                identifier: "barectf_".to_owned(),
            },
            header: HeaderGenerationOptions {
                identifier_prefix_definition: false,
                default_data_stream_type_name_definition: false,
            },
        },
        trace: Trace {
            typ: TraceType {
                native_byte_order: NativeByteOrder::LittleEndian,
                uuid: Some(TRACE_UUID),
                features: TraceTypeFeatures {
                    magic_field_type: feature(32),
                    uuid_field_type: true,
                    data_stream_type_id_field_type: uint(8, 8),
                },
                clock_types: vec![("default".to_owned(), clock())],
                data_stream_types: vec![("default".to_owned(), stream)],
            },
        },
    }
}

/// Writes fields the way a barectf tracer does, little-endian.
struct Writer {
    bytes: Vec<u8>,
}

impl Writer {
    fn align(&mut self, bits: usize) {
        while (self.bytes.len() * 8) % bits != 0 {
            self.bytes.push(0xee);
        }
    }
    fn put(&mut self, align: usize, b: &[u8]) {
        self.align(align);
        self.bytes.extend_from_slice(b);
    }
    fn string(&mut self, s: &str) {
        self.bytes.extend_from_slice(s.as_bytes());
        self.bytes.push(0);
    }
    fn bits(&self) -> usize {
        self.bytes.len() * 8
    }
}

/// Writes a packet; `events` writes its events after the context.
fn packet(magic: u32, seq: u32, begin: u64, end: u64, events: &dyn Fn(&mut Writer)) -> Vec<u8> {
    let mut w = Writer { bytes: Vec::new() };
    w.put(32, &magic.to_le_bytes());
    w.put(8, &TRACE_UUID);
    w.put(8, &[0]); // stream id
    w.align(64); // context alignment: its largest field
    let sizes_at = w.bytes.len();
    w.put(32, &2048_u32.to_le_bytes());
    w.put(32, &0_u32.to_le_bytes()); // content size, patched below
    w.put(64, &begin.to_le_bytes());
    w.put(64, &end.to_le_bytes());
    w.put(32, &0_u32.to_le_bytes());
    w.put(32, &seq.to_le_bytes());
    w.put(32, &22_u32.to_le_bytes()); // pc
    events(&mut w);
    let content = w.bits() as u32;
    w.bytes[sizes_at + 4..sizes_at + 8].copy_from_slice(&content.to_le_bytes());
    w.bytes.resize(256, 0);
    w.bytes
}

fn event_header(w: &mut Writer, id: u8, ts: u64, ercc: u32) {
    w.align(64);
    w.put(8, &[id]);
    w.put(64, &ts.to_le_bytes());
    w.put(32, &ercc.to_le_bytes());
}

fn packet0_events(w: &mut Writer) {
    // init
    event_header(w, 4, 0, 98);
    w.put(8, &1_i32.to_le_bytes());
    w.string("1.0.0");
    // foobar
    event_header(w, 3, 1, 97);
    w.put(32, &3_u32.to_le_bytes());
    w.put(8, &21_u16.to_le_bytes());
    // floats
    event_header(w, 2, 2, 96);
    w.put(64, &1.1_f32.to_le_bytes());
    w.put(64, &2.2_f64.to_le_bytes());
    // enums
    event_header(w, 1, 3, 95);
    w.put(8, &[0]);
    w.put(8, &(-1_i16).to_le_bytes());
    w.put(8, &19_u32.to_le_bytes());
    w.put(8, &[200]);
    // arrays
    event_header(w, 0, 4, 94);
    for v in 1_u32..=4 {
        w.put(32, &v.to_le_bytes());
    }
    w.put(8, &3_u32.to_le_bytes());
    for s in ["b0", "b1", "b2"] {
        w.string(s);
    }
}

fn packet1_events(w: &mut Writer) {
    event_header(w, 5, 5, 93);
}

fn stream() -> Vec<u8> {
    let mut s = packet(CTF_MAGIC_NUMBER, 0, 0, 5, &packet0_events);
    s.extend(packet(CTF_MAGIC_NUMBER, 1, 5, 5, &packet1_events));
    s
}

fn named(name: &str, v: PrimitiveFieldValue) -> (String, FieldValue) {
    (name.to_owned(), FieldValue::Primitive(v))
}

fn u(v: u64) -> PrimitiveFieldValue {
    PrimitiveFieldValue::UnsignedInteger(v, PreferredDisplayBase::Decimal)
}

fn enumv(v: i64, base: PreferredDisplayBase, label: &str) -> PrimitiveFieldValue {
    PrimitiveFieldValue::Enumeration(v, base, Some(label.to_owned()))
}

fn check_packet_header(h: &PacketHeader) {
    assert_eq!(
        h,
        &PacketHeader {
            magic_number: Some(CTF_MAGIC_NUMBER),
            trace_uuid: Some(TRACE_UUID),
            stream_id: 0,
            stream_name: "default".to_owned(),
            clock_name: Some("default".to_owned()),
            clock_type: Some(clock()),
        }
    );
}

fn check_packet_context(c: &PacketContext, content: usize, beg_ts: u64, end_ts: u64, sn: u64) {
    assert_eq!(
        c,
        &PacketContext {
            packet_size_bits: 2048,
            content_size_bits: content,
            beginning_timestamp: Some(beg_ts),
            end_timestamp: Some(end_ts),
            events_discarded: Some(0),
            sequence_number: Some(sn),
            extra_members: vec![named("pc", u(22))],
        }
    );
}

fn check_packet0(p: &Packet) {
    check_packet_header(&p.header);
    check_packet_context(&p.context, 1992, 0, 5, 0);
    let ids: Vec<u64> = p.events.iter().map(|e| e.id).collect();
    assert_eq!(ids, vec![4, 3, 2, 1, 0]);
    let stamps: Vec<u64> = p.events.iter().map(|e| e.timestamp).collect();
    assert_eq!(stamps, vec![0, 1, 2, 3, 4]);
    assert_eq!(
        p.events[0],
        Event {
            id: 4,
            name: "init".to_owned(),
            timestamp: 0,
            log_level: None,
            common_context: vec![named("ercc", u(98))],
            specific_context: vec![named(
                "cpu_id",
                PrimitiveFieldValue::SignedInteger(1, PreferredDisplayBase::Decimal)
            )],
            payload: vec![named("version", PrimitiveFieldValue::String("1.0.0".to_owned()))],
        }
    );
    assert_eq!(p.events[1].name, "foobar");
    assert_eq!(p.events[1].log_level, Some(LogLevel::Critical));
    assert_eq!(p.events[1].payload, vec![named("val", u(3)), named("val2", u(21))]);
    assert_eq!(p.events[2].log_level, Some(LogLevel::Warning));
    match (&p.events[2].payload[0].1, &p.events[2].payload[1].1) {
        (
            FieldValue::Primitive(PrimitiveFieldValue::F32(a)),
            FieldValue::Primitive(PrimitiveFieldValue::F64(b)),
        ) => {
            assert_eq!(f32::from_bits(*a), 1.1_f32);
            assert_eq!(f64::from_bits(*b), 2.2_f64);
        }
        other => panic!("not reals: {other:?}"),
    }
    assert_eq!(
        p.events[3].payload,
        vec![
            named("foo", enumv(0, PreferredDisplayBase::Decimal, "A")),
            named("bar", enumv(-1, PreferredDisplayBase::Decimal, "C")),
            named("biz", enumv(19, PreferredDisplayBase::Decimal, "RUNNING")),
            named("baz", enumv(200, PreferredDisplayBase::Hexadecimal, "on/off")),
        ]
    );
    assert_eq!(
        p.events[4].payload,
        vec![
            ("foo".to_owned(), FieldValue::Array(vec![u(1), u(2), u(3), u(4)])),
            (
                "bar".to_owned(),
                FieldValue::Array(vec![
                    PrimitiveFieldValue::String("b0".to_owned()),
                    PrimitiveFieldValue::String("b1".to_owned()),
                    PrimitiveFieldValue::String("b2".to_owned()),
                ])
            ),
        ]
    );
}

fn check_packet1(p: &Packet) {
    check_packet_header(&p.header);
    check_packet_context(&p.context, 672, 5, 5, 1);
    assert_eq!(
        p.events,
        vec![Event {
            id: 5,
            name: "shutdown".to_owned(),
            timestamp: 5,
            log_level: None,
            common_context: vec![named("ercc", u(93))],
            specific_context: vec![],
            payload: vec![],
        }]
    );
}

#[test]
fn full_trace_sync() {
    let parser = Parser::new(&config()).unwrap();
    let data = stream();
    let (pkt0, n0) = parser.parse(&data).unwrap();
    let (pkt1, n1) = parser.parse(&data[n0..]).unwrap();
    assert_eq!((n0, n1), (256, 256));
    assert!(parser.parse(&data[n0 + n1..]).is_err()); // EOF
    check_packet0(&pkt0);
    check_packet1(&pkt1);
    assert!(parser.warnings(&pkt0.header).is_empty());
}

#[test]
fn full_trace_incremental() {
    let parser = Parser::new(&config()).unwrap();
    let data = stream();
    let mut decoder = parser.into_packet_decoder();
    let mut buf: Vec<u8> = Vec::new();
    let mut packets = Vec::new();
    for b in data.iter() {
        buf.push(*b);
        if let Some((pkt, n)) = decoder.decode(&buf).unwrap() {
            buf.drain(..n);
            packets.push(pkt);
        }
    }
    assert_eq!(packets.len(), 2);
    check_packet0(&packets[0]);
    check_packet1(&packets[1]);
}

#[test]
fn magic_mismatch_warns_once() {
    let parser = Parser::new(&config()).unwrap();
    let data = packet(0xDEADBEEF, 1, 5, 5, &packet1_events);
    let (pkt, _) = parser.parse(&data).unwrap();
    assert_eq!(pkt.header.magic_number, Some(0xDEADBEEF));
    assert_eq!(
        parser.warnings(&pkt.header),
        vec![HeaderWarning::MagicMismatch(0xDEADBEEF)]
    );
}

#[test]
fn trace_uuid_mismatch_warns() {
    let parser = Parser::new(&config()).unwrap();
    let mut data = packet(CTF_MAGIC_NUMBER, 1, 5, 5, &packet1_events);
    data[4] ^= 0xff;
    let (pkt, _) = parser.parse(&data).unwrap();
    let mut uuid = TRACE_UUID;
    uuid[0] ^= 0xff;
    assert_eq!(
        parser.warnings(&pkt.header),
        vec![HeaderWarning::TraceUuidMismatch(uuid)]
    );
}

#[test]
fn real_of_unsupported_width() {
    let mut cfg = config();
    let types = &mut cfg.trace.typ.data_stream_types[0].1.event_record_types;
    types[2].1.payload_field_type = Some(structure(vec![member(
        "f16",
        StructureMemberFieldType::Real(RealFieldType {
            size: 16,
            alignment: 8,
        }),
    )]));
    let parser = Parser::new(&cfg).unwrap();
    let data = stream();
    assert_eq!(parser.parse(&data).unwrap_err(), Error::InvalidFloatSize(16));
}

#[test]
fn unsupported_member_alignment() {
    let mut cfg = config();
    cfg.trace.typ.data_stream_types[0]
        .1
        .event_record_common_context_field_type = Some(structure(vec![member(
        "ercc",
        StructureMemberFieldType::String,
    ), member(
        "odd",
        StructureMemberFieldType::StaticArray(StaticArrayFieldType {
            length: 2,
            element_field_type: PrimitiveFieldType::UnsignedInteger(int_ft(8, 8)),
        }),
    )]));
    assert!(Parser::new(&cfg).is_ok());
    cfg.trace.typ.data_stream_types[0]
        .1
        .event_record_common_context_field_type = Some(structure(vec![]));
    assert!(Parser::new(&cfg).is_ok());
    cfg.trace.typ.data_stream_types[0].1.packet_context_field_type_extra_members =
        PacketContextExtraMembers(vec![member(
            "pc",
            StructureMemberFieldType::UnsignedInteger(int_ft(32, 24)),
        )]);
    assert_eq!(
        Parser::new(&cfg).unwrap_err(),
        Error::UnsupportedFieldType(
            "stream.default.packet-context-field-type-extra-members.pc".to_owned(),
            32,
            24
        )
    );
}
