//! Decoding looks only at the bytes it reads: a packet decoded from some
//! bytes decodes the same from any longer run of bytes that begins with them.
use super::types::{
    first_zero, spec_elems, spec_members, spec_opt_payload, EventPayloadMemberParser,
    EventPayloadParser, FieldTypeParser, PrimitiveFieldTypeParser, Size, Source, StreamParser,
    UIntParser,
};
use super::{
    spec_body, spec_context, spec_event, spec_event_body, spec_events, spec_opt_uint,
    spec_opt_uuid, spec_trailer, Parser,
};
use super::types::UuidParser;
use crate::types::FieldValueModel;
use crate::parser::types::EventParser;
use vstd::prelude::*;

verus! {

/// Whether `b` holds the bytes of `a`, at the same positions, and maybe more after them.
pub open spec fn extends(a: Source, b: Source) -> bool {
    &&& a.order == b.order
    &&& a.start == b.start
    &&& a.data.len() <= b.data.len()
    &&& b.data.subrange(0, a.data.len() as int) == a.data
}

proof fn lemma_bytes_at(a: Source, b: Source, p: int, n: int)
    requires
        extends(a, b),
        n >= 0,
    ensures
        a.bytes_at(p, n) is Some ==> b.bytes_at(p, n) == a.bytes_at(p, n),
{
    let i = a.index_of(p);
    if 0 <= i && i + n <= a.data.len() {
        assert(b.data.subrange(i, i + n) =~= b.data.subrange(0, a.data.len() as int).subrange(i, i + n));
    }
}

proof fn lemma_first_zero(a: Seq<u8>, b: Seq<u8>, i: int)
    requires
        a.len() <= b.len(),
        b.subrange(0, a.len() as int) == a,
    ensures
        first_zero(a, i) is Some ==> first_zero(b, i) == first_zero(a, i),
        first_zero(a, i) matches Some(k) ==> 0 <= i <= k < a.len(),
    decreases a.len() - i,
{
    if 0 <= i < a.len() {
        assert(b.subrange(0, a.len() as int)[i] == b[i]);
        if a[i] != 0 {
            lemma_first_zero(a, b, i + 1);
        }
    }
}

proof fn lemma_reads(a: Source, b: Source, pos: int, size: Size, align: Size)
    requires
        extends(a, b),
    ensures
        a.align_pos(pos, align) is Ok ==> b.align_pos(pos, align) == a.align_pos(pos, align),
        a.read_uint(pos, size, align) is Ok ==> b.read_uint(pos, size, align) == a.read_uint(pos, size, align),
        a.read_int(pos, size, align) is Ok ==> b.read_int(pos, size, align) == a.read_int(pos, size, align),
        a.read_uuid(pos) is Ok ==> b.read_uuid(pos) == a.read_uuid(pos),
        a.read_string(pos) is Ok ==> b.read_string(pos) == a.read_string(pos),
{
    let p = super::types::align_up(pos, align.spec_bits());
    lemma_bytes_at(a, b, p, size.spec_bits() / 8);
    let q = super::types::align_up(pos, 8);
    lemma_bytes_at(a, b, q, 16);
    let i = a.index_of(q);
    lemma_first_zero(a.data, b.data, i);
    if let Some(k) = first_zero(a.data, i) {
        assert(b.data.subrange(i, k) =~= b.data.subrange(0, a.data.len() as int).subrange(i, k));
    }
}

proof fn lemma_prim(a: Source, b: Source, pos: int, p: PrimitiveFieldTypeParser)
    requires
        extends(a, b),
    ensures
        p.spec_parse(a, pos) is Ok ==> p.spec_parse(b, pos) == p.spec_parse(a, pos),
{
    let d = p.spec_desc();
    lemma_reads(a, b, pos, d.size, d.alignment);
    lemma_reads(a, b, pos, Size::Bits32, d.alignment);
    lemma_reads(a, b, pos, Size::Bits64, d.alignment);
}

proof fn lemma_elems(a: Source, b: Source, pos: int, p: PrimitiveFieldTypeParser, n: nat)
    requires
        extends(a, b),
    ensures
        spec_elems(p, a, pos, n) is Ok ==> spec_elems(p, b, pos, n) == spec_elems(p, a, pos, n),
    decreases n,
{
    if n > 0 {
        lemma_prim(a, b, pos, p);
        if let Ok((_, q)) = p.spec_parse(a, pos) {
            lemma_elems(a, b, q, p, (n - 1) as nat);
        }
    }
}

proof fn lemma_array(a: Source, b: Source, pos: int, p: PrimitiveFieldTypeParser, n: nat)
    requires
        extends(a, b),
    ensures
        FieldTypeParser::spec_array(p, a, pos, n) is Ok ==> FieldTypeParser::spec_array(p, b, pos, n)
            == FieldTypeParser::spec_array(p, a, pos, n),
{
    lemma_reads(a, b, pos, Size::Bits8, p.spec_desc().alignment);
    if let Ok((_, q)) = a.align_pos(pos, p.spec_desc().alignment) {
        lemma_elems(a, b, q, p, n);
    }
}

proof fn lemma_field(a: Source, b: Source, pos: int, f: FieldTypeParser)
    requires
        extends(a, b),
    ensures
        f.spec_parse(a, pos) is Ok ==> f.spec_parse(b, pos) == f.spec_parse(a, pos),
{
    match f {
        FieldTypeParser::Primitive(p) => {
            lemma_prim(a, b, pos, p);
        },
        FieldTypeParser::StaticArray(len, p) => {
            lemma_array(a, b, pos, p, len as nat);
        },
        FieldTypeParser::DynamicArray(p) => {
            lemma_reads(a, b, pos, Size::Bits32, Size::Bits8);
            if let Ok((n, q)) = a.read_uint(pos, Size::Bits32, Size::Bits8) {
                lemma_array(a, b, q, p, n as u32 as nat);
            }
        },
    }
}

proof fn lemma_members(a: Source, b: Source, pos: int, ms: Seq<EventPayloadMemberParser>)
    requires
        extends(a, b),
    ensures
        spec_members(ms, a, pos) is Ok ==> spec_members(ms, b, pos) == spec_members(ms, a, pos),
    decreases ms.len(),
{
    if ms.len() > 0 {
        lemma_field(a, b, pos, ms[0].value);
        if let Ok((_, q)) = ms[0].spec_parse(a, pos) {
            lemma_members(a, b, q, ms.drop_first());
        }
    }
}

proof fn lemma_opt_payload(a: Source, b: Source, pos: int, p: Option<EventPayloadParser>)
    requires
        extends(a, b),
    ensures
        spec_opt_payload(p, a, pos) is Ok ==> spec_opt_payload(p, b, pos) == spec_opt_payload(p, a, pos),
{
    if let Some(q) = p {
        lemma_reads(a, b, pos, Size::Bits8, q.alignment);
        if let Ok((_, r)) = a.align_pos(pos, q.alignment) {
            lemma_members(a, b, r, q.members@);
        }
    }
}

proof fn lemma_opt_uint(a: Source, b: Source, pos: int, p: Option<UIntParser>)
    requires
        extends(a, b),
    ensures
        spec_opt_uint(p, a, pos) is Ok ==> spec_opt_uint(p, b, pos) == spec_opt_uint(p, a, pos),
{
    if let Some(u) = p {
        lemma_reads(a, b, pos, u.0.size, u.0.alignment);
    }
}

#[verifier::spinoff_prover]
#[verifier::rlimit(100)]
pub proof fn lemma_context(a: Source, b: Source, pos: int, s: StreamParser)
    requires
        extends(a, b),
    ensures
        spec_context(s, a, pos) is Ok ==> spec_context(s, b, pos) == spec_context(s, a, pos),
{
    reveal(spec_context);
    let c = s.packet_context;
    lemma_reads(a, b, pos, Size::Bits8, c.alignment);
    if let Ok((_, p0)) = a.align_pos(pos, c.alignment) {
        lemma_reads(a, b, p0, c.packet_size.0.size, c.packet_size.0.alignment);
        if let Ok((_, p1)) = c.packet_size.spec_parse(a, p0) {
            lemma_reads(a, b, p1, c.content_size.0.size, c.content_size.0.alignment);
            if let Ok((_, p2)) = c.content_size.spec_parse(a, p1) {
                lemma_opt_uint(a, b, p2, c.beginning_timestamp);
                if let Ok((_, p3)) = spec_opt_uint(c.beginning_timestamp, a, p2) {
                    lemma_opt_uint(a, b, p3, c.end_timestamp);
                    if let Ok((_, p4)) = spec_opt_uint(c.end_timestamp, a, p3) {
                        lemma_opt_uint(a, b, p4, c.events_discarded);
                        if let Ok((_, p5)) = spec_opt_uint(c.events_discarded, a, p4) {
                            lemma_opt_uint(a, b, p5, c.sequence_number);
                            if let Ok((_, p6)) = spec_opt_uint(c.sequence_number, a, p5) {
                                lemma_members(a, b, p6, c.extra_members@);
                            }
                        }
                    }
                }
            }
        }
    }
}

proof fn lemma_event_body(
    a: Source,
    b: Source,
    pos: int,
    ev: EventParser,
    id: u64,
    ts: u64,
    cc: Seq<(Seq<char>, FieldValueModel)>,
)
    requires
        extends(a, b),
    ensures
        spec_event_body(ev, id, ts, cc, a, pos) is Ok ==> spec_event_body(ev, id, ts, cc, b, pos)
            == spec_event_body(ev, id, ts, cc, a, pos),
{
    lemma_opt_payload(a, b, pos, ev.specific_context);
    if let Ok((_, p4)) = spec_opt_payload(ev.specific_context, a, pos) {
        lemma_opt_payload(a, b, p4, ev.payload);
    }
}

#[verifier::spinoff_prover]
proof fn lemma_event(a: Source, b: Source, pos: int, s: StreamParser)
    requires
        extends(a, b),
    ensures
        spec_event(s, a, pos) is Ok ==> spec_event(s, b, pos) == spec_event(s, a, pos),
{
    reveal(spec_event);
    let h = s.event_header;
    lemma_reads(a, b, pos, Size::Bits8, h.alignment);
    if let Ok((_, p0)) = a.align_pos(pos, h.alignment) {
        lemma_reads(a, b, p0, h.event_id.0.size, h.event_id.0.alignment);
        if let Ok((id, p1)) = h.event_id.spec_parse(a, p0) {
            lemma_reads(a, b, p1, h.timestamp.0.size, h.timestamp.0.alignment);
            if let Ok((ts, p2)) = h.timestamp.spec_parse(a, p1) {
                lemma_opt_payload(a, b, p2, s.common_context);
                if let Ok((cc, p3)) = spec_opt_payload(s.common_context, a, p2) {
                    if id < s.events@.len() {
                        lemma_event_body(a, b, p3, s.events@[id as int], id, ts, cc);
                    }
                }
            }
        }
    }
}

proof fn lemma_events(a: Source, b: Source, pos: int, s: StreamParser, content: int)
    requires
        extends(a, b),
    ensures
        spec_events(s, a, pos, content) is Ok ==> spec_events(s, b, pos, content) == spec_events(
            s,
            a,
            pos,
            content,
        ),
    decreases content - pos,
{
    reveal(spec_events);
    if pos < content {
        lemma_event(a, b, pos, s);
        if let Ok((_, p)) = spec_event(s, a, pos) {
            if p > pos && p < content {
                lemma_events(a, b, p, s, content);
            }
        }
    }
}

pub proof fn lemma_body(a: Source, b: Source, pos: int, s: StreamParser, ctx: crate::types::PacketContextModel)
    requires
        extends(a, b),
    ensures
        spec_body(s, ctx, a, pos) is Ok ==> spec_body(s, ctx, b, pos) == spec_body(s, ctx, a, pos),
{
    reveal(spec_body);
    lemma_events(a, b, pos, s, ctx.content_size_bits as int);
    if let Ok((_, p)) = spec_events(s, a, pos, ctx.content_size_bits as int) {
        if !(p != ctx.content_size_bits || ctx.packet_size_bits < ctx.content_size_bits) {
            lemma_bytes_at(a, b, p, ((ctx.packet_size_bits - ctx.content_size_bits) / 8) as int);
        }
    }
}

impl Parser {
    pub proof fn lemma_header_extends(&self, a: Source, b: Source, pos: int)
        requires
            extends(a, b),
        ensures
            self.spec_header(a, pos) is Ok ==> self.spec_header(b, pos) == self.spec_header(a, pos),
    {
        reveal(Parser::spec_header);
        let h = self.pkt_header;
        lemma_reads(a, b, pos, Size::Bits8, h.alignment);
        if let Ok((_, p0)) = a.align_pos(pos, h.alignment) {
            lemma_opt_uint(a, b, p0, h.magic);
            if let Ok((_, p1)) = spec_opt_uint(h.magic, a, p0) {
                lemma_reads(a, b, p1, Size::Bits8, Size::Bits8);
                if let Ok((_, p2)) = spec_opt_uuid(h.uuid, a, p1) {
                    lemma_reads(a, b, p2, h.stream_id.0.size, h.stream_id.0.alignment);
                }
            }
        }
    }

    /// Incremental equivalence: a packet decoded from the bytes received so
    /// far decodes the same, to the same end, from any longer run of bytes
    /// that begins with them, and so from the whole stream.
    pub proof fn lemma_packet_extends(&self, a: Source, b: Source)
        requires
            extends(a, b),
        ensures
            self.spec_packet(a) is Ok ==> self.spec_packet(b) == self.spec_packet(a),
    {
        reveal(Parser::spec_packet);
        self.lemma_header_extends(a, b, a.start);
        if let Ok((h, p1)) = self.spec_header(a, a.start) {
            let s = self.streams@[h.stream_id as int];
            lemma_context(a, b, p1, s);
            if let Ok((c, p2)) = spec_context(s, a, p1) {
                lemma_body(a, b, p2, s, c);
            }
        }
    }
}

} // verus!
