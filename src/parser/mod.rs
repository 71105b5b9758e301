//! The plan compiled from a schema, and the two decoders that share it.
use self::frame::extends;
use self::types::{
    AlignedCursor,
    align_up, eof, outcome, outcome_named, parse_members, parse_opt_payload, spec_members,
    spec_opt_payload, EventParser, PacketHeaderParser, Size, Source, StreamParser, StreamReader,
    UIntParser, UuidParser, MAX_SOURCE_BYTES,
};
use crate::config::{clone_opt_string, NativeByteOrder};
use crate::error::{Error, IoErrorKind};
use crate::types::event::events_view;
use crate::types::packet::{opt_clock_view, opt_uuid_view};
use crate::types::{
    named_view, opt_str_view, spec_log_level, Event, EventModel, LogLevel, Packet,
    PacketContext, PacketContextModel, PacketHeader, PacketHeaderModel, PacketModel,
    CTF_MAGIC_NUMBER,
};
use vstd::prelude::*;

pub mod frame;
pub mod plan;
pub mod types;
pub mod wire;

verus! {

/// A barectf CTF byte-stream parser: the plan of a trace type.
#[derive(Clone, Debug)]
pub struct Parser {
    byte_order: NativeByteOrder,
    trace_uuid: Option<[u8; 16]>,
    pkt_header: PacketHeaderParser,
    streams: Vec<StreamParser>,
}

/// Reading an optional unsigned integer field.
pub open spec fn spec_opt_uint(p: Option<UIntParser>, src: Source, pos: int) -> Result<
    (Option<u64>, int),
    Error,
> {
    match p {
        Some(u) => match u.spec_parse(src, pos) {
            Ok((v, q)) => Ok((Some(v), q)),
            Err(e) => Err(e),
        },
        None => Ok((None, pos)),
    }
}

/// Reading an optional trace UUID.
pub open spec fn spec_opt_uuid(p: Option<UuidParser>, src: Source, pos: int) -> Result<
    (Option<Seq<u8>>, int),
    Error,
> {
    match p {
        Some(_) => match src.read_uuid(pos) {
            Ok((v, q)) => Ok((Some(v), q)),
            Err(e) => Err(e),
        },
        None => Ok((None, pos)),
    }
}

fn parse_opt_uint(p: &Option<UIntParser>, r: &mut StreamReader) -> (res: Result<Option<u64>, Error>)
    requires
        old(r).wf(),
    ensures
        final(r).wf(),
        final(r).source() == old(r).source(),
        final(r).pos() >= old(r).pos(),
        outcome(res, spec_opt_uint(*p, old(r).source(), old(r).pos()), final(r).pos()),
{
    match p {
        Some(u) => Ok(Some(u.parse(r)?)),
        None => Ok(None),
    }
}

/// Reading a packet context laid out by `s`.
#[verifier::opaque]
pub open spec fn spec_context(s: StreamParser, src: Source, pos: int) -> Result<
    (PacketContextModel, int),
    Error,
> {
    let c = s.packet_context;
    match src.align_pos(pos, c.alignment) {
        Err(e) => Err(e),
        Ok((_, p0)) => match c.packet_size.spec_parse(src, p0) {
            Err(e) => Err(e),
            Ok((ps, p1)) => match c.content_size.spec_parse(src, p1) {
                Err(e) => Err(e),
                Ok((cs, p2)) => match spec_opt_uint(c.beginning_timestamp, src, p2) {
                    Err(e) => Err(e),
                    Ok((bt, p3)) => match spec_opt_uint(c.end_timestamp, src, p3) {
                        Err(e) => Err(e),
                        Ok((et, p4)) => match spec_opt_uint(c.events_discarded, src, p4) {
                            Err(e) => Err(e),
                            Ok((ed, p5)) => match spec_opt_uint(c.sequence_number, src, p5) {
                                Err(e) => Err(e),
                                Ok((sn, p6)) => match spec_members(c.extra_members@, src, p6) {
                                    Err(e) => Err(e),
                                    Ok((extra, p7)) => Ok(
                                        (
                                            PacketContextModel {
                                                packet_size_bits: ps as usize,
                                                content_size_bits: cs as usize,
                                                beginning_timestamp: bt,
                                                end_timestamp: et,
                                                events_discarded: ed,
                                                sequence_number: sn,
                                                extra_members: extra,
                                            },
                                            p7,
                                        ),
                                    ),
                                },
                            },
                        },
                    },
                },
            },
        },
    }
}

/// The log level of an event record type's numeric level.
pub open spec fn spec_opt_log_level(l: Option<i32>) -> Option<LogLevel> {
    match l {
        Some(v) => Some(spec_log_level(v)),
        None => None,
    }
}

/// Reading the rest of an event whose header gave `id` and `ts`, once its
/// common context is read.
pub open spec fn spec_event_body(
    ev: EventParser,
    id: u64,
    ts: u64,
    common: Seq<(Seq<char>, crate::types::FieldValueModel)>,
    src: Source,
    pos: int,
) -> Result<(EventModel, int), Error> {
    match spec_opt_payload(ev.specific_context, src, pos) {
        Err(e) => Err(e),
        Ok((sc, p1)) => match spec_opt_payload(ev.payload, src, p1) {
            Err(e) => Err(e),
            Ok((pl, p2)) => Ok(
                (
                    EventModel {
                        id,
                        name: ev.event_name@,
                        timestamp: ts,
                        log_level: spec_opt_log_level(ev.log_level),
                        common_context: common,
                        specific_context: sc,
                        payload: pl,
                    },
                    p2,
                ),
            ),
        },
    }
}

/// Reading one event of stream `s`.
#[verifier::opaque]
pub open spec fn spec_event(s: StreamParser, src: Source, pos: int) -> Result<(EventModel, int), Error> {
    match src.align_pos(pos, s.event_header.alignment) {
        Err(e) => Err(e),
        Ok((_, p0)) => match s.event_header.event_id.spec_parse(src, p0) {
            Err(e) => Err(e),
            Ok((id, p1)) => match s.event_header.timestamp.spec_parse(src, p1) {
                Err(e) => Err(e),
                Ok((ts, p2)) => match spec_opt_payload(s.common_context, src, p2) {
                    Err(e) => Err(e),
                    Ok((cc, p3)) => if id < s.events@.len() {
                        spec_event_body(s.events@[id as int], id, ts, cc, src, p3)
                    } else {
                        Err(Error::UndefinedEventId(id))
                    },
                },
            },
        },
    }
}

/// Reading events of stream `s` while the position is before `content`:
/// none when the content ends where the events would begin; the last one
/// ends at or past `content`.
#[verifier::opaque]
pub open spec fn spec_events(s: StreamParser, src: Source, pos: int, content: int) -> Result<
    (Seq<EventModel>, int),
    Error,
>
    decreases content - pos,
{
    if pos >= content {
        Ok((Seq::empty(), pos))
    } else {
        match spec_event(s, src, pos) {
            Err(e) => Err(e),
            Ok((ev, p)) => if p <= pos || p >= content {
                Ok((seq![ev], p))
            } else {
                types::prepend(seq![ev], spec_events(s, src, p, content))
            },
        }
    }
}

/// Passing over the padding at the end of a packet, once its events end
/// exactly at its content size.
pub open spec fn spec_trailer(src: Source, pos: int, packet_bits: usize, content_bits: usize) -> Result<
    ((), int),
    Error,
> {
    if pos != content_bits || packet_bits < content_bits {
        Err(Error::Io(IoErrorKind::InvalidData))
    } else {
        let skip = (packet_bits - content_bits) / 8;
        match src.bytes_at(pos, skip) {
            Some(_) => Ok(((), pos + 8 * skip)),
            None => Err(eof()),
        }
    }
}

/// Reading the events of a packet, then its padding.
#[verifier::opaque]
pub open spec fn spec_body(s: StreamParser, ctx: PacketContextModel, src: Source, pos: int) -> Result<
    (Seq<EventModel>, int),
    Error,
> {
    match spec_events(s, src, pos, ctx.content_size_bits as int) {
        Err(e) => Err(e),
        Ok((evs, p)) => match spec_trailer(src, p, ctx.packet_size_bits, ctx.content_size_bits) {
            Err(e) => Err(e),
            Ok((_, q)) => Ok((evs, q)),
        },
    }
}

/// What reading a list of events gives.
pub open spec fn outcome_events(
    r: Result<Vec<Event>, Error>,
    s: Result<(Seq<EventModel>, int), Error>,
    pos: int,
) -> bool {
    match s {
        Ok((v, p)) => r is Ok && events_view(r->Ok_0@) == v && pos == p,
        Err(e) => r is Err && r->Err_0 == e,
    }
}

/// A warning about a packet header that does not stop decoding.
#[derive(Copy, Clone, PartialEq, Eq, Hash, Debug)]
pub enum HeaderWarning {
    /// The magic number differs from `CTF_MAGIC_NUMBER`.
    MagicMismatch(u32),
    /// The trace UUID differs from the schema's.
    TraceUuidMismatch([u8; 16]),
}

impl Parser {
    pub closed spec fn spec_byte_order(&self) -> NativeByteOrder {
        self.byte_order
    }

    pub closed spec fn spec_trace_uuid(&self) -> Option<[u8; 16]> {
        self.trace_uuid
    }

    pub closed spec fn spec_streams(&self) -> Seq<StreamParser> {
        self.streams@
    }

    pub closed spec fn spec_pkt_header(&self) -> PacketHeaderParser {
        self.pkt_header
    }

    /// The bit position just after a packet header, as the plan computes it.
    pub open spec fn header_hint(&self) -> int {
        self.spec_pkt_header().wire_size_hint.bits()
    }

    pub open spec fn wf(&self) -> bool {
        &&& self.spec_pkt_header().wf()
        &&& self.spec_pkt_header().wire_size_hint.bits() <= 512
        &&& forall|i: int|
            0 <= i < self.spec_streams().len() ==> {
                let c = (#[trigger] self.spec_streams()[i]).packet_context;
                &&& c.wire_size_hint.wf()
                &&& c.wire_size_hint.bits() == c.spec_end(self.spec_pkt_header().wire_size_hint.bits())
            }
    }

    /// Reading a packet header at `pos` and looking its stream up.
    #[verifier::opaque]
    pub open spec fn spec_header(&self, src: Source, pos: int) -> Result<(PacketHeaderModel, int), Error> {
        let h = self.spec_pkt_header();
        match src.align_pos(pos, h.alignment) {
            Err(e) => Err(e),
            Ok((_, p0)) => match spec_opt_uint(h.magic, src, p0) {
                Err(e) => Err(e),
                Ok((magic, p1)) => match spec_opt_uuid(h.uuid, src, p1) {
                    Err(e) => Err(e),
                    Ok((uuid, p2)) => match h.stream_id.spec_parse(src, p2) {
                        Err(e) => Err(e),
                        Ok((id, p3)) => if id < self.spec_streams().len() {
                            let s = self.spec_streams()[id as int];
                            Ok(
                                (
                                    PacketHeaderModel {
                                        magic_number: match magic {
                                            Some(m) => Some(m as u32),
                                            None => None,
                                        },
                                        trace_uuid: uuid,
                                        stream_id: id,
                                        stream_name: s.stream_name@,
                                        clock_name: opt_str_view(s.clock_name),
                                        clock_type: opt_clock_view(s.clock_type),
                                    },
                                    p3,
                                ),
                            )
                        } else {
                            Err(Error::UndefinedStreamId(id))
                        },
                    },
                },
            },
        }
    }

    /// Decoding one whole packet from `src`, from its first byte.
    #[verifier::opaque]
    pub open spec fn spec_packet(&self, src: Source) -> Result<(PacketModel, int), Error> {
        match self.spec_header(src, src.start) {
            Err(e) => Err(e),
            Ok((h, p1)) => {
                let s = self.spec_streams()[h.stream_id as int];
                match spec_context(s, src, p1) {
                    Err(e) => Err(e),
                    Ok((c, p2)) => match spec_body(s, c, src, p2) {
                        Err(e) => Err(e),
                        Ok((evs, p3)) => Ok((PacketModel { header: h, context: c, events: evs }, p3)),
                    },
                }
            },
        }
    }

    /// Reads a packet header at the reader's position and looks its stream up.
    #[verifier::spinoff_prover]
    #[verifier::rlimit(60)]
    pub fn parse_header(&self, r: &mut StreamReader) -> (res: Result<PacketHeader, Error>)
        requires
            self.wf(),
            old(r).wf(),
        ensures
            final(r).wf(),
            final(r).source() == old(r).source(),
            final(r).pos() >= old(r).pos(),
            outcome(res, self.spec_header(old(r).source(), old(r).pos()), final(r).pos()),
            res matches Ok(h) ==> h.stream_id < self.spec_streams().len(),
            old(r).pos() == 0 && res is Ok ==> final(r).pos() == self.header_hint(),
    {
        proof {
            lemma_header_hint(self, r.source());
        }
        reveal(Parser::spec_header);
        // Align for the packet header structure
        r.align_to(self.pkt_header.alignment)?;
        let magic = match &self.pkt_header.magic {
            Some(p) => Some(p.parse(r)? as u32),
            None => None,
        };
        let trace_uuid = match &self.pkt_header.uuid {
            Some(p) => Some(p.parse(r)?),
            None => None,
        };
        let stream_id = self.pkt_header.stream_id.parse(r)?;
        if stream_id >= self.streams.len() as u64 {
            return Err(Error::UndefinedStreamId(stream_id));
        }
        let stream = &self.streams[stream_id as usize];
        let clock_type = match &stream.clock_type {
            Some(c) => Some(c.copy()),
            None => None,
        };
        let h = PacketHeader {
            magic_number: magic,
            trace_uuid,
            stream_id,
            stream_name: stream.stream_name.clone(),
            clock_name: clone_opt_string(&stream.clock_name),
            clock_type,
        };
        assert(h@.clock_name == opt_str_view(stream.clock_name));
        assert(h@.clock_type == opt_clock_view(stream.clock_type));
        Ok(h)
    }

    /// Reads the packet context of `stream` at the reader's position.
    pub fn parse_packet_context(stream: &StreamParser, r: &mut StreamReader) -> (res: Result<
        PacketContext,
        Error,
    >)
        requires
            old(r).wf(),
        ensures
            final(r).wf(),
            final(r).source() == old(r).source(),
            final(r).pos() >= old(r).pos(),
            outcome(res, spec_context(*stream, old(r).source(), old(r).pos()), final(r).pos()),
            (forall|i: int|
                0 <= i < stream.packet_context.extra_members@.len() ==> is_fixed_size(
                    #[trigger] stream.packet_context.extra_members@[i],
                )) && res is Ok ==> final(r).pos() == stream.packet_context.spec_end(old(r).pos()),
    {
        proof {
            if forall|i: int|
                0 <= i < stream.packet_context.extra_members@.len() ==> is_fixed_size(
                    #[trigger] stream.packet_context.extra_members@[i],
                ) {
                lemma_context_end(*stream, r.source(), r.pos());
            }
        }
        reveal(spec_context);
        let c = &stream.packet_context;
        // Align for the packet context structure
        r.align_to(c.alignment)?;
        let pkt_size_bits = c.packet_size.parse(r)?;
        let content_size_bits = c.content_size.parse(r)?;
        let beginning_timestamp = parse_opt_uint(&c.beginning_timestamp, r)?;
        let end_timestamp = parse_opt_uint(&c.end_timestamp, r)?;
        let events_discarded = parse_opt_uint(&c.events_discarded, r)?;
        let sequence_number = parse_opt_uint(&c.sequence_number, r)?;
        // Align for and read each extra member
        let extra_members = parse_members(&c.extra_members, r)?;
        Ok(
            PacketContext {
                packet_size_bits: pkt_size_bits as usize,
                content_size_bits: content_size_bits as usize,
                beginning_timestamp,
                end_timestamp,
                events_discarded,
                sequence_number,
                extra_members,
            },
        )
    }

    fn parse_event(stream: &StreamParser, r: &mut StreamReader) -> (res: Result<Event, Error>)
        requires
            old(r).wf(),
        ensures
            final(r).wf(),
            final(r).source() == old(r).source(),
            final(r).pos() >= old(r).pos(),
            res is Ok ==> final(r).pos() > old(r).pos(),
            outcome(res, spec_event(*stream, old(r).source(), old(r).pos()), final(r).pos()),
    {
        reveal(spec_event);
        // Align for and read the event header structure
        r.align_to(stream.event_header.alignment)?;
        let event_id = stream.event_header.event_id.parse(r)?;
        let timestamp = stream.event_header.timestamp.parse(r)?;
        // Common context
        let common_context = parse_opt_payload(&stream.common_context, r)?;
        // Event-specific from here on
        if event_id >= stream.events.len() as u64 {
            return Err(Error::UndefinedEventId(event_id));
        }
        let event = &stream.events[event_id as usize];
        let specific_context = parse_opt_payload(&event.specific_context, r)?;
        let payload = parse_opt_payload(&event.payload, r)?;
        let log_level = match event.log_level {
            Some(l) => Some(LogLevel::from_i32(l)),
            None => None,
        };
        Ok(
            Event {
                id: event_id,
                name: event.event_name.clone(),
                timestamp,
                log_level,
                common_context,
                specific_context,
                payload,
            },
        )
    }

    fn parse_events(stream: &StreamParser, packet_context: &PacketContext, r: &mut StreamReader) -> (res:
        Result<Vec<Event>, Error>)
        requires
            old(r).wf(),
        ensures
            final(r).wf(),
            final(r).source() == old(r).source(),
            final(r).pos() >= old(r).pos(),
            outcome_events(
                res,
                spec_body(*stream, packet_context@, old(r).source(), old(r).pos()),
                final(r).pos(),
            ),
    {
        reveal(spec_body);
        let ghost src = r.source();
        let ghost pos0 = r.pos();
        let content = packet_context.content_size_bits;
        let mut events: Vec<Event> = Vec::new();
        proof {
            types::lemma_prepend_empty(events_view(events@), pos0, spec_events(*stream, src, pos0, content as int));
            assert(events_view(events@) =~= Seq::<EventModel>::empty());
        }
        // Read events until the end of the packet's content
        while r.cursor_bits() < content
            invariant
                r.wf(),
                r.source() == src,
                src == old(r).source(),
                pos0 == old(r).pos(),
                r.pos() >= pos0,
                content == packet_context.content_size_bits,
                spec_events(*stream, src, pos0, content as int) == types::prepend(
                    events_view(events@),
                    spec_events(*stream, src, r.pos(), content as int),
                ),
            decreases (if r.pos() < content {
                content - r.pos()
            } else {
                0
            }),
        {
            proof {
                reveal(spec_events);
                reveal(spec_body);
            }
            let ev = Self::parse_event(stream, r)?;
            proof {
                assert(events_view(events@.push(ev)) =~= events_view(events@).push(ev@));
                types::lemma_prepend(events_view(events@), ev@, spec_events(*stream, src, r.pos(), content as int));
                if r.pos() >= content {
                    types::lemma_prepend_empty(seq![ev@], r.pos(), spec_events(*stream, src, r.pos(), content as int));
                }
            }
            events.push(ev);
        }
        proof {
            reveal(spec_events);
            types::lemma_prepend_empty(events_view(events@), r.pos(), spec_events(*stream, src, r.pos(), content as int));
        }
        // Only padding is left: the events must end where the content does
        if r.cursor_bits() != content || packet_context.packet_size_bits < content {
            return Err(Error::Io(IoErrorKind::InvalidData));
        }
        let remaining_bytes = (packet_context.packet_size_bits - content) / 8;
        r.skip(remaining_bytes)?;
        Ok(events)
    }

    /// Decodes one packet from the start of `data`; returns it with the number
    /// of bytes it took, its packet size in bytes.
    #[verifier::spinoff_prover]
    #[verifier::rlimit(60)]
    pub fn parse(&self, data: &[u8]) -> (res: Result<(Packet, usize), Error>)
        requires
            self.wf(),
            data@.len() <= MAX_SOURCE_BYTES,
        ensures
            match self.spec_packet(Source { data: data@, start: 0, order: self.spec_byte_order() }) {
                Ok((m, end)) => res is Ok && res->Ok_0.0@ == m && res->Ok_0.1 == end / 8,
                Err(e) => res == Err::<(Packet, usize), Error>(e),
            },
            res matches Ok((p, n)) ==> n == p.context.packet_size_bits / 8,
    {
        reveal(Parser::spec_packet);
        reveal(spec_body);
        let mut r = StreamReader::new(self.byte_order, data);
        let ghost src = r.source();
        let header = self.parse_header(&mut r)?;
        let ghost p1 = r.pos();
        // Stream-specific from here on
        let n_streams = self.streams.len();
        assert(header.stream_id < n_streams);
        let idx = header.stream_id as usize;
        assert(idx == header@.stream_id);
        let stream = &self.streams[idx];
        assert(*stream == self.streams@[header@.stream_id as int]);
        assert(self.spec_header(src, 0) == Ok::<(PacketHeaderModel, int), Error>((header@, p1)));
        let context = Self::parse_packet_context(stream, &mut r)?;
        let ghost p2 = r.pos();
        assert(spec_context(*stream, src, p1) == Ok::<(PacketContextModel, int), Error>((context@, p2)));
        let events = Self::parse_events(stream, &context, &mut r)?;
        let consumed = r.consumed();
        proof {
            r.lemma_pos();
            let ghost s = self.streams@[header@.stream_id as int];
            assert(*stream == s);
            let ghost evs = spec_events(s, src, p2, context@.content_size_bits as int);
            assert(evs is Ok);
            assert(evs->Ok_0.1 == context.content_size_bits);
        }
        Ok((Packet { header, context, events }, consumed))
    }
}

/// Whether two UUIDs hold the same bytes.
fn same_uuid(a: &[u8; 16], b: &[u8; 16]) -> (r: bool)
    ensures
        r == (a@ == b@),
{
    let mut i: usize = 0;
    while i < 16
        invariant
            i <= 16,
            a@.len() == 16,
            b@.len() == 16,
            forall|k: int| 0 <= k < i ==> a@[k] == b@[k],
        decreases 16 - i,
    {
        if a[i] != b[i] {
            return false;
        }
        i = i + 1;
    }
    assert(a@ =~= b@);
    true
}

/// The warnings that a decoded header calls for: a magic number other than
/// `CTF_MAGIC_NUMBER`, then a trace UUID other than the schema's.
pub open spec fn spec_warnings(h: PacketHeader, schema_uuid: Option<[u8; 16]>) -> Seq<HeaderWarning> {
    let magic = match h.magic_number {
        Some(m) => if m != CTF_MAGIC_NUMBER {
            seq![HeaderWarning::MagicMismatch(m)]
        } else {
            Seq::empty()
        },
        None => Seq::empty(),
    };
    let uuid = match (h.trace_uuid, schema_uuid) {
        (Some(u), Some(s)) => if u@ != s@ {
            seq![HeaderWarning::TraceUuidMismatch(u)]
        } else {
            Seq::empty()
        },
        _ => Seq::empty(),
    };
    magic + uuid
}

/// Whether a member is read as a fixed-size primitive, whose width the plan
/// knows in advance.
pub open spec fn is_fixed_size(m: types::EventPayloadMemberParser) -> bool {
    m.value matches types::FieldTypeParser::Primitive(p) && !(p is String)
}

/// Reading fixed-size members ends where the plan counts them to end.
proof fn lemma_fixed_members_end(ms: Seq<types::EventPayloadMemberParser>, src: Source, pos: int)
    requires
        forall|i: int| 0 <= i < ms.len() ==> is_fixed_size(#[trigger] ms[i]),
    ensures
        spec_members(ms, src, pos) matches Ok((_, end)) ==> end == types::members_end(pos, ms),
    decreases ms.len(),
{
    if ms.len() > 0 {
        assert(is_fixed_size(ms[0]));
        let rest = ms.drop_first();
        assert forall|i: int| 0 <= i < rest.len() implies is_fixed_size(#[trigger] rest[i]) by {
            assert(rest[i] == ms[i + 1]);
        }
        match ms[0].spec_parse(src, pos) {
            Ok((_, q)) => {
                lemma_fixed_members_end(rest, src, q);
            },
            Err(_) => {},
        }
    }
}

impl Parser {
    /// The warnings that `header` calls for; decoding goes on regardless.
    pub fn warnings(&self, header: &PacketHeader) -> (r: Vec<HeaderWarning>)
        ensures
            r@ == spec_warnings(*header, self.spec_trace_uuid()),
    {
        let mut r: Vec<HeaderWarning> = Vec::new();
        if let Some(m) = header.magic_number {
            if m != CTF_MAGIC_NUMBER {
                r.push(HeaderWarning::MagicMismatch(m));
            }
        }
        let ghost first = r@;
        if let (Some(uuid), Some(schema_uuid)) = (&header.trace_uuid, &self.trace_uuid) {
            if !same_uuid(uuid, schema_uuid) {
                r.push(HeaderWarning::TraceUuidMismatch(*uuid));
                assert(r@ =~= first + seq![HeaderWarning::TraceUuidMismatch(*uuid)]);
            } else {
                assert(r@ =~= first + Seq::<HeaderWarning>::empty());
            }
        } else {
            assert(r@ =~= first + Seq::<HeaderWarning>::empty());
        }
        r
    }
}

/// Wire-size hint of the header: reading a packet header from the start of a
/// packet ends at the bit position that the plan computed for it.
pub proof fn lemma_header_hint(p: &Parser, src: Source)
    requires
        p.wf(),
    ensures
        p.spec_header(src, 0) matches Ok((_, end)) ==> end == p.header_hint(),
{
    reveal(Parser::spec_header);
    types::lemma_align_up(0, p.spec_pkt_header().alignment.spec_bits());
}

/// Wire-size hint of the context: when a stream's extra context members are
/// fixed-size primitives, reading its packet context from the end of the
/// header ends at the bit position that the plan computed for it.
pub proof fn lemma_context_hint(p: &Parser, id: int, src: Source)
    requires
        p.wf(),
        0 <= id < p.spec_streams().len(),
        forall|i: int|
            0 <= i < p.spec_streams()[id].packet_context.extra_members@.len() ==> is_fixed_size(
                #[trigger] p.spec_streams()[id].packet_context.extra_members@[i],
            ),
    ensures
        spec_context(p.spec_streams()[id], src, p.header_hint()) matches Ok((_, end)) ==> end
            == p.spec_streams()[id].packet_context.wire_size_hint.bits(),
{
    lemma_context_end(p.spec_streams()[id], src, p.header_hint());
}

/// Reading a packet context whose extra members are fixed-size primitives
/// ends where its layout counts it to end.
#[verifier::spinoff_prover]
#[verifier::rlimit(100)]
pub proof fn lemma_context_end(s: StreamParser, src: Source, pos: int)
    requires
        forall|i: int|
            0 <= i < s.packet_context.extra_members@.len() ==> is_fixed_size(
                #[trigger] s.packet_context.extra_members@[i],
            ),
    ensures
        spec_context(s, src, pos) matches Ok((_, end)) ==> end == s.packet_context.spec_end(pos),
{
    reveal(spec_context);
    let c = s.packet_context;
    match spec_context(s, src, pos) {
        Ok(_) => {
            let p0 = align_up(pos, c.alignment.spec_bits());
            let p1 = types::after_field(p0, c.packet_size.0);
            let p2 = types::after_field(p1, c.content_size.0);
            let p3 = types::after_opt_field(p2, c.beginning_timestamp);
            let p4 = types::after_opt_field(p3, c.end_timestamp);
            let p5 = types::after_opt_field(p4, c.events_discarded);
            assert(src.align_pos(pos, c.alignment) == Ok::<((), int), Error>(((), p0)));
            assert(c.packet_size.spec_parse(src, p0)->Ok_0.1 == p1);
            assert(c.content_size.spec_parse(src, p1)->Ok_0.1 == p2);
            assert(spec_opt_uint(c.beginning_timestamp, src, p2)->Ok_0.1 == p3);
            assert(spec_opt_uint(c.end_timestamp, src, p3)->Ok_0.1 == p4);
            assert(spec_opt_uint(c.events_discarded, src, p4)->Ok_0.1 == p5);
            let p6 = types::context_fields_end(
                pos,
                c.alignment,
                c.packet_size,
                c.content_size,
                c.beginning_timestamp,
                c.end_timestamp,
                c.events_discarded,
                c.sequence_number,
            );
            lemma_fixed_members_end(c.extra_members@, src, p6);
        },
        Err(_) => {},
    }
}

/// A stage that failed: running out of bytes means waiting for more.
fn stage_error(e: Error) -> (r: Result<Option<(Packet, usize)>, Error>)
    ensures
        e == eof() ==> r matches Ok(None),
        e != eof() ==> r == Err::<Option<(Packet, usize)>, Error>(e),
{
    match e {
        Error::Io(IoErrorKind::UnexpectedEof) => Ok(None),
        e => Err(e),
    }
}

impl Parser {
    /// Passes over the `n` bytes already read, then reads a packet context.
    fn skip_then_context(stream: &StreamParser, r: &mut StreamReader, n: usize) -> (res: Result<
        PacketContext,
        Error,
    >)
        requires
            old(r).wf(),
        ensures
            final(r).wf(),
            final(r).source() == old(r).source(),
            old(r).source().bytes_at(old(r).pos(), n as int) is Some ==> outcome(
                res,
                spec_context(*stream, old(r).source(), old(r).pos() + 8 * n),
                final(r).pos(),
            ),
    {
        r.skip(n)?;
        Self::parse_packet_context(stream, r)
    }

    /// Passes over the `n` bytes already read, then reads a packet's events
    /// and padding.
    fn skip_then_events(stream: &StreamParser, ctx: &PacketContext, r: &mut StreamReader, n: usize) -> (res:
        Result<Vec<Event>, Error>)
        requires
            old(r).wf(),
        ensures
            final(r).wf(),
            final(r).source() == old(r).source(),
            old(r).source().bytes_at(old(r).pos(), n as int) is Some ==> outcome_events(
                res,
                spec_body(*stream, ctx@, old(r).source(), old(r).pos() + 8 * n),
                final(r).pos(),
            ),
    {
        r.skip(n)?;
        Self::parse_events(stream, ctx, r)
    }
}

/// Where the incremental decoder stands within the packet under way.
#[derive(Clone, Debug)]
pub enum PacketDecoderState {
    /// Waiting for the packet header.
    Header,
    /// The header is read; waiting for the packet context.
    PacketContext(PacketHeader, AlignedCursor),
    /// The context is read too; waiting for the rest of the packet.
    Events(PacketHeader, PacketContext, AlignedCursor),
}

/// A barectf CTF decoder over a growing buffer: it reads each stage of a
/// packet once the bytes that the stage needs are there, and emits the
/// packet once all of it is.
pub struct PacketDecoder {
    parser: Parser,
    state: PacketDecoderState,
    seen: Ghost<Seq<u8>>,
}

impl Parser {
    pub fn into_packet_decoder(self) -> (r: PacketDecoder)
        requires
            self.wf(),
        ensures
            r.wf(),
            r.spec_parser() == self,
            r.seen() == Seq::<u8>::empty(),
    {
        PacketDecoder { parser: self, state: PacketDecoderState::Header, seen: Ghost(Seq::empty()) }
    }
}

impl PacketDecoder {
    pub closed spec fn spec_parser(&self) -> Parser {
        self.parser
    }

    /// The bytes of the packet under way that were given so far; each call
    /// must be given them again, followed by any new ones.
    pub closed spec fn seen(&self) -> Seq<u8> {
        self.seen@
    }

    /// The source that the bytes seen so far make.
    pub open spec fn seen_source(&self) -> Source {
        Source { data: self.seen(), start: 0, order: self.spec_parser().spec_byte_order() }
    }

    /// The stage that the packet under way has reached.
    pub closed spec fn stage(&self) -> PacketDecoderState {
        self.state
    }

    /// How many bytes of the packet under way the stage reached needs: the
    /// header's size, then the header and context's size, then the packet's.
    pub open spec fn bytes_needed(&self) -> int {
        match self.stage() {
            PacketDecoderState::Header => self.spec_parser().header_hint() / 8,
            PacketDecoderState::PacketContext(h, _) => self.spec_parser().spec_streams()[h.stream_id as int].packet_context.wire_size_hint.bits()
                / 8,
            PacketDecoderState::Events(_, c, _) => (c.packet_size_bits / 8) as int,
        }
    }

    pub closed spec fn wf(&self) -> bool {
        let src = Source { data: self.seen@, start: 0, order: self.parser.byte_order };
        &&& self.parser.wf()
        &&& match self.state {
            PacketDecoderState::Header => true,
            PacketDecoderState::PacketContext(h, c) => {
                &&& c.wf()
                &&& c.bits() / 8 <= self.seen@.len()
                &&& self.parser.spec_header(src, 0) == Ok::<(PacketHeaderModel, int), Error>((h@, c.bits()))
                &&& h.stream_id < self.parser.streams@.len()
            },
            PacketDecoderState::Events(h, ctx, c) => {
                &&& c.wf()
                &&& c.bits() / 8 <= self.seen@.len()
                &&& h.stream_id < self.parser.streams@.len()
                &&& exists|p1: int|
                    {
                        &&& self.parser.spec_header(src, 0) == Ok::<(PacketHeaderModel, int), Error>(
                            (h@, p1),
                        )
                        &&& spec_context(self.parser.streams@[h.stream_id as int], src, p1) == Ok::<
                            (PacketContextModel, int),
                            Error,
                        >((ctx@, c.bits()))
                    }
            },
        }
    }

    /// The header and context of the packet under way, as read from the bytes
    /// seen, with the header ending at `p1`.
    closed spec fn spec_header_at(&self, p1: int) -> bool {
        let src = Source { data: self.seen@, start: 0, order: self.parser.byte_order };
        match self.state {
            PacketDecoderState::Events(h, ctx, c) => {
                &&& self.parser.spec_header(src, 0) == Ok::<(PacketHeaderModel, int), Error>((h@, p1))
                &&& spec_context(self.parser.streams@[h.stream_id as int], src, p1) == Ok::<
                    (PacketContextModel, int),
                    Error,
                >((ctx@, c.bits()))
            },
            _ => false,
        }
    }

    /// Decodes the next packet from `src`, the bytes not yet taken from the
    /// stream. Returns the packet with the number of bytes it takes, or `None`
    /// while the stage reached lacks bytes: fewer than it needs, or a field
    /// that runs past the end of `src` (then `src` is to be given again, with
    /// more bytes after it). The stage reached is kept across calls.
    #[verifier::rlimit(60)]
    pub fn decode(&mut self, src: &[u8]) -> (r: Result<Option<(Packet, usize)>, Error>)
        requires
            old(self).wf(),
            src@.len() <= MAX_SOURCE_BYTES,
            old(self).seen().len() <= src@.len(),
            src@.subrange(0, old(self).seen().len() as int) == old(self).seen(),
        ensures
            final(self).wf(),
            final(self).spec_parser() == old(self).spec_parser(),
            ({
                let whole = Source { data: src@, start: 0, order: old(self).spec_parser().spec_byte_order() };
                match r {
                    Ok(Some((p, n))) => old(self).spec_parser().spec_packet(whole) matches Ok((m, end))
                        && p@ == m && n == end / 8 && final(self).seen() == Seq::<u8>::empty()
                        && final(self).stage() is Header,
                    Ok(None) => final(self).seen() == src@ && (src@.len() < final(self).bytes_needed()
                        || old(self).spec_parser().spec_packet(whole) == Err::<(PacketModel, int), Error>(eof())),
                    Err(e) => old(self).spec_parser().spec_packet(whole) == Err::<(PacketModel, int), Error>(e)
                        && e != eof() && src@.len() >= final(self).bytes_needed(),
                }
            }),
            src@.len() < old(self).bytes_needed() ==> (r matches Ok(None) && final(self).stage() == old(self).stage()),
    {
        let ghost whole = Source { data: src@, start: 0, order: self.parser.byte_order };
        assert(src@.subrange(0, src@.len() as int) =~= src@);
        let ghost seen_src = Source { data: self.seen@, start: 0, order: self.parser.byte_order };
        proof {
            assert(extends(seen_src, whole));
            self.parser.lemma_header_extends(seen_src, whole, 0);
            reveal(Parser::spec_packet);
        }
        let ghost old_state = self.state;
        let mut state = PacketDecoderState::Header;
        core::mem::swap(&mut self.state, &mut state);
        let ghost mut hp1: int = match old_state {
            PacketDecoderState::Events(h, ctx, c) => choose|p1: int|
                {
                    &&& self.parser.spec_header(seen_src, 0) == Ok::<(PacketHeaderModel, int), Error>(
                        (h@, p1),
                    )
                    &&& spec_context(self.parser.streams@[h.stream_id as int], seen_src, p1) == Ok::<
                        (PacketContextModel, int),
                        Error,
                    >((ctx@, c.bits()))
                },
            _ => 0,
        };
        if let PacketDecoderState::Header = state {
            if src.len() < self.parser.pkt_header.wire_size_hint.cursor_bytes() {
                // Not enough data for the header
                self.seen = Ghost(src@);
                return Ok(None);
            }
            let mut r = StreamReader::new(self.parser.byte_order, src);
            let header = match self.parser.parse_header(&mut r) {
                Ok(h) => h,
                Err(e) => {
                    self.seen = Ghost(src@);
                    return stage_error(e);
                },
            };
            let cursor = r.into_cursor();
            proof {
                lemma_header_hint(&self.parser, whole);
            }
            state = PacketDecoderState::PacketContext(header, cursor);
        }
        if let PacketDecoderState::PacketContext(header, cursor) = state {
            let n_streams = self.parser.streams.len();
            assert(header.stream_id < n_streams);
            let idx = header.stream_id as usize;
            let stream = &self.parser.streams[idx];
            if src.len() < stream.packet_context.wire_size_hint.cursor_bytes() {
                // Not enough data for the context
                self.state = PacketDecoderState::PacketContext(header, cursor);
                self.seen = Ghost(src@);
                return Ok(None);
            }
            let mut r = StreamReader::new(self.parser.byte_order, src);
            proof {
                cursor.lemma_wf();
            }
            let ghost hdr_end = cursor.bits();
            let context = match Parser::skip_then_context(stream, &mut r, cursor.cursor_bytes()) {
                Ok(c) => c,
                Err(e) => {
                    self.state = PacketDecoderState::PacketContext(header, cursor);
                    self.seen = Ghost(src@);
                    return stage_error(e);
                },
            };
            let next = r.into_cursor();
            proof {
                r.lemma_pos();
                frame::lemma_context(whole, whole, hdr_end, *stream);
            }
            state = PacketDecoderState::Events(header, context, next);
            proof {
                hp1 = hdr_end;
                assert(self.parser.spec_header(whole, 0) == Ok::<(PacketHeaderModel, int), Error>((header@, hdr_end)));
            }
        }
        if let PacketDecoderState::Events(header, context, cursor) = state {
            let n_streams = self.parser.streams.len();
            assert(header.stream_id < n_streams);
            let idx = header.stream_id as usize;
            let stream = &self.parser.streams[idx];
            proof {
                cursor.lemma_wf();
                if old_state is Events {
                    frame::lemma_context(seen_src, whole, hp1, *stream);
                }
            }
            if src.len() < context.packet_size() {
                // Not enough data for the rest of the packet
                self.state = PacketDecoderState::Events(header, context, cursor);
                self.seen = Ghost(src@);
                assert(self.spec_header_at(hp1));
                return Ok(None);
            }
            let mut r = StreamReader::new(self.parser.byte_order, src);
            let events = match Parser::skip_then_events(stream, &context, &mut r, cursor.cursor_bytes()) {
                Ok(ev) => ev,
                Err(e) => {
                    self.state = PacketDecoderState::Events(header, context, cursor);
                    self.seen = Ghost(src@);
                    assert(self.spec_header_at(hp1));
                    return stage_error(e);
                },
            };
            let consumed = r.consumed();
            self.seen = Ghost(Seq::empty());
            return Ok(Some((Packet { header, context, events }, consumed)));
        }
        // Every state is handled above.
        Ok(None)
    }
}

} // verus!
