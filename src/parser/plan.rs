//! The layout planner: compiles a trace type into the plan that both
//! decoders read.
use super::types::{
    desc_of, enum_mappings_of, field_parser_of, is_size_bits, same_mappings, size_of_bits,
    EnumerationMappings, EventHeaderParser, EventParser, EventPayloadMemberParser,
    EventPayloadParser, FieldTypeParser, FieldUnsupportedError, PacketContextParser,
    PacketContextParserArgs, PacketHeaderParser, Size, StreamParser, UIntParser, UuidParser,
    MAX_EXTRA_MEMBERS,
};
use super::Parser;
use super::types::AlignedCursor;
use crate::config::{
    clone_opt_string, max_of, spec_members_alignment, ClockType, ClockTypeModel, Config,
    DataStreamType, EventRecordType, FeaturesUnsignedIntegerFieldType, FieldType,
    StructureFieldType, StructureFieldTypeMember, TraceType, UnsignedIntegerFieldType,
};
use crate::error::Error;
use crate::types::opt_str_view;
use crate::types::packet::opt_clock_view;
use itertools::Itertools;
use vstd::assert_by_contradiction;
use vstd::prelude::*;
use vstd::string::StringExecFns;

verus! {

/// Whether `a` comes before `b` or equals it in the order of `str`, which
/// compares UTF-8 bytes and so orders text by character, lexicographically.
pub open spec fn str_le(a: Seq<char>, b: Seq<char>) -> bool
    decreases a.len(),
{
    if a.len() == 0 {
        true
    } else if b.len() == 0 {
        false
    } else if a[0] == b[0] {
        str_le(a.drop_first(), b.drop_first())
    } else {
        (a[0] as u32) < (b[0] as u32)
    }
}

/// Whether `order` lists each index of `items` once, in the order of their names.
pub open spec fn is_name_order<T>(order: Seq<usize>, items: Seq<(String, T)>) -> bool {
    &&& order.len() == items.len()
    &&& forall|i: int| 0 <= i < order.len() ==> (#[trigger] order[i]) < items.len()
    &&& forall|i: int, j: int| 0 <= i < j < order.len() ==> order[i] != order[j]
    &&& forall|i: int, j: int|
        0 <= i < j < order.len() ==> str_le(
            (#[trigger] items[order[i] as int]).0@,
            (#[trigger] items[order[j] as int]).0@,
        )
}

/// Relies on `itertools::Itertools::sorted_by_key`, a stable sort of the
/// indices by the `str` key: it returns each index once, ordered by name.
#[verifier::external_body]
fn order_by_name<T>(items: &Vec<(String, T)>) -> (r: Vec<usize>)
    ensures
        is_name_order(r@, items@),
{
    (0..items.len()).sorted_by_key(|i| items[*i].0.as_str()).collect()
}

/// The reader of an unsigned integer field type, when its layout is supported.
pub open spec fn uint_plan(ft: UnsignedIntegerFieldType) -> Result<UIntParser, FieldUnsupportedError> {
    match desc_of(ft.field_type.size, ft.field_type.alignment) {
        Ok(d) => Ok(UIntParser(d)),
        Err(e) => Err(e),
    }
}

/// The reader of an optional feature field, when its layout is supported.
pub open spec fn opt_uint_plan(ft: FeaturesUnsignedIntegerFieldType) -> Result<
    Option<UIntParser>,
    FieldUnsupportedError,
> {
    match ft.spec_as_ft() {
        None => Ok(None),
        Some(u) => match uint_plan(u) {
            Ok(p) => Ok(Some(p)),
            Err(e) => Err(e),
        },
    }
}

/// Whether `m` reads the member `name` of type `ft`.
pub open spec fn member_matches(m: EventPayloadMemberParser, name: String, ft: StructureFieldTypeMember) -> bool {
    &&& m.member_name@ == name@
    &&& m.preferred_display_base == ft.field_type.spec_preferred_display_base()
    &&& (m.enum_mappings is Some <==> enum_mappings_of(ft.field_type) is Some)
    &&& (m.enum_mappings matches Some(e) ==> same_mappings(e.0@, enum_mappings_of(ft.field_type)->Some_0))
    &&& field_parser_of(ft.field_type) == Ok::<FieldTypeParser, FieldUnsupportedError>(m.value)
}

/// Whether `ms` read the members `cfg` in order.
pub open spec fn members_match(ms: Seq<EventPayloadMemberParser>, cfg: Seq<(String, StructureFieldTypeMember)>) -> bool {
    &&& ms.len() == cfg.len()
    &&& forall|i: int| 0 <= i < ms.len() ==> member_matches(#[trigger] ms[i], cfg[i].0, cfg[i].1)
}

/// Whether every member of `cfg` has a supported layout.
pub open spec fn members_supported(cfg: Seq<(String, StructureFieldTypeMember)>) -> bool {
    forall|i: int| 0 <= i < cfg.len() ==> (#[trigger] field_parser_of(cfg[i].1.field_type)) is Ok
}

/// Whether a structure's members and alignment are supported.
pub open spec fn struct_supported(st: Option<StructureFieldType>) -> bool {
    match st {
        None => true,
        Some(s) => members_supported(s.members@) && is_size_bits(
            spec_members_alignment(s.members@) as int,
        ),
    }
}

/// Whether `p` reads the structure `st`.
pub open spec fn struct_matches(p: Option<EventPayloadParser>, st: Option<StructureFieldType>) -> bool {
    match (p, st) {
        (None, None) => true,
        (Some(q), Some(s)) => members_match(q.members@, s.members@) && q.alignment == size_of_bits(
            spec_members_alignment(s.members@) as int,
        ),
        _ => false,
    }
}

/// Whether an event record type's structures are supported.
pub open spec fn event_supported(e: EventRecordType) -> bool {
    struct_supported(e.specific_context_field_type) && struct_supported(e.payload_field_type)
}

/// Whether `p` is the plan of the event record type `name`.
pub open spec fn event_matches(p: EventParser, name: String, e: EventRecordType) -> bool {
    &&& p.event_name@ == name@
    &&& p.log_level == e.log_level
    &&& struct_matches(p.specific_context, e.specific_context_field_type)
    &&& struct_matches(p.payload, e.payload_field_type)
}

/// The alignment of a stream's packet context: the largest of its feature
/// fields and of its extra members.
pub open spec fn context_alignment(d: DataStreamType) -> usize {
    max_of(
        d.features.packet.spec_alignment(),
        spec_members_alignment(d.packet_context_field_type_extra_members.0@),
    )
}

/// Whether a data stream type's layout is supported.
pub open spec fn stream_supported(d: DataStreamType) -> bool {
    let pf = d.features.packet;
    &&& uint_plan(pf.total_size_field_type) is Ok
    &&& uint_plan(pf.content_size_field_type) is Ok
    &&& opt_uint_plan(pf.beginning_timestamp_field_type) is Ok
    &&& opt_uint_plan(pf.end_timestamp_field_type) is Ok
    &&& opt_uint_plan(pf.discarded_event_records_counter_snapshot_field_type) is Ok
    &&& opt_uint_plan(pf.sequence_number_field_type) is Ok
    &&& members_supported(d.packet_context_field_type_extra_members.0@)
    &&& struct_supported(d.event_record_common_context_field_type)
    &&& forall|i: int| 0 <= i < d.event_record_types@.len() ==> event_supported(
        (#[trigger] d.event_record_types@[i]).1,
    )
    &&& is_size_bits(context_alignment(d) as int)
    &&& uint_plan(d.features.event_record.type_id_field_type) is Ok
    &&& uint_plan(d.features.event_record.timestamp_field_type) is Ok
    &&& is_size_bits(d.features.event_record.spec_alignment() as int)
}

/// The clock type named `name`; the names of a trace type's clock types are
/// unique (`TraceType::keys_unique`).
pub open spec fn clock_lookup(clocks: Seq<(String, ClockType)>, name: Seq<char>) -> Option<ClockTypeModel>
    decreases clocks.len(),
{
    if clocks.len() == 0 {
        None
    } else if clocks[0].0@ == name {
        Some(clocks[0].1@)
    } else {
        clock_lookup(clocks.drop_first(), name)
    }
}

/// Whether `sp` is the plan of the data stream type `name`, `d`.
pub open spec fn stream_matches(sp: StreamParser, tt: TraceType, name: String, d: DataStreamType) -> bool {
    let pf = d.features.packet;
    let c = sp.packet_context;
    &&& sp.stream_name@ == name@
    &&& opt_str_view(sp.clock_name) == opt_str_view(d.default_clock_type_name)
    &&& opt_clock_view(sp.clock_type) == match d.default_clock_type_name {
        Some(n) => clock_lookup(tt.clock_types@, n@),
        None => None,
    }
    &&& uint_plan(pf.total_size_field_type) == Ok::<UIntParser, FieldUnsupportedError>(c.packet_size)
    &&& uint_plan(pf.content_size_field_type) == Ok::<UIntParser, FieldUnsupportedError>(c.content_size)
    &&& opt_uint_plan(pf.beginning_timestamp_field_type) == Ok::<Option<UIntParser>, FieldUnsupportedError>(c.beginning_timestamp)
    &&& opt_uint_plan(pf.end_timestamp_field_type) == Ok::<Option<UIntParser>, FieldUnsupportedError>(c.end_timestamp)
    &&& opt_uint_plan(pf.discarded_event_records_counter_snapshot_field_type) == Ok::<Option<UIntParser>, FieldUnsupportedError>(c.events_discarded)
    &&& opt_uint_plan(pf.sequence_number_field_type) == Ok::<Option<UIntParser>, FieldUnsupportedError>(c.sequence_number)
    &&& members_match(c.extra_members@, d.packet_context_field_type_extra_members.0@)
    &&& c.alignment == size_of_bits(context_alignment(d) as int)
    &&& struct_matches(sp.common_context, d.event_record_common_context_field_type)
    &&& uint_plan(d.features.event_record.type_id_field_type) == Ok::<UIntParser, FieldUnsupportedError>(sp.event_header.event_id)
    &&& uint_plan(d.features.event_record.timestamp_field_type) == Ok::<UIntParser, FieldUnsupportedError>(sp.event_header.timestamp)
    &&& sp.event_header.alignment == size_of_bits(d.features.event_record.spec_alignment() as int)
    &&& exists|order: Seq<usize>| {
        &&& is_name_order(order, d.event_record_types@)
        &&& sp.events@.len() == order.len()
        &&& forall|e: int| 0 <= e < order.len() ==> event_matches(
            #[trigger] sp.events@[e],
            d.event_record_types@[order[e] as int].0,
            d.event_record_types@[order[e] as int].1,
        )
    }
}

/// Whether the trace type's layout is supported: a 32 bit magic number if
/// any, and supported widths and alignments throughout.
pub open spec fn trace_supported(tt: TraceType) -> bool {
    let f = tt.features;
    &&& (f.magic_field_type.spec_as_ft() matches Some(m) ==> m.field_type.size == 32)
    &&& opt_uint_plan(f.magic_field_type) is Ok
    &&& uint_plan(f.data_stream_type_id_field_type) is Ok
    &&& is_size_bits(f.spec_alignment() as int)
    &&& forall|i: int| 0 <= i < tt.data_stream_types@.len() ==> stream_supported(
        (#[trigger] tt.data_stream_types@[i]).1,
    )
}

/// Whether `e` reports a part of the schema that is not supported: a field
/// type whose width or alignment is not 8, 16, 32 or 64 bits, or a structure
/// whose alignment is not.
pub open spec fn reports_unsupported(e: Error) -> bool {
    match e {
        Error::UnsupportedFieldType(_, size, alignment) => !(is_size_bits(size as int)
            && is_size_bits(alignment as int)),
        Error::UnsupportedAlignment(_) => true,
        _ => false,
    }
}

/// Whether `e` reports the field type at schema path `path`, whose width
/// `size` or alignment `alignment` is not supported.
pub open spec fn field_error(e: Error, path: Seq<char>, size: usize, alignment: usize) -> bool {
    &&& e matches Error::UnsupportedFieldType(p, s, a) && p@ == path && s == size && a == alignment
    &&& !(is_size_bits(size as int) && is_size_bits(alignment as int))
}

/// Whether `e` reports the unsigned integer field type `ft` at `path`.
pub open spec fn uint_error(e: Error, path: Seq<char>, ft: UnsignedIntegerFieldType) -> bool {
    field_error(e, path, ft.field_type.size, ft.field_type.alignment)
}

/// Whether `e` reports the feature field type `ft`, present, at `path`.
pub open spec fn opt_uint_error(e: Error, path: Seq<char>, ft: FeaturesUnsignedIntegerFieldType) -> bool {
    ft.spec_as_ft() matches Some(u) && uint_error(e, path, u)
}

/// Whether `e` reports an unsupported structure alignment at `path`.
pub open spec fn alignment_error(e: Error, path: Seq<char>) -> bool {
    e matches Error::UnsupportedAlignment(p) && p@ == path
}

/// Whether `e` reports one of the members `ms` of the structure at `path`,
/// at the path `<path>.<member>`.
pub open spec fn member_error(e: Error, path: Seq<char>, ms: Seq<(String, StructureFieldTypeMember)>) -> bool {
    exists|k: int|
        0 <= k < ms.len() && #[trigger] field_error(
            e,
            path + "."@ + ms[k].0@,
            ms[k].1.field_type.spec_size(),
            ms[k].1.field_type.spec_alignment(),
        )
}

/// Whether `e` reports the structure `st` at `path`: one of its members, or
/// its alignment.
pub open spec fn struct_error(e: Error, path: Seq<char>, st: Option<StructureFieldType>) -> bool {
    st matches Some(s) && (member_error(e, path, s.members@) || (alignment_error(e, path)
        && !is_size_bits(spec_members_alignment(s.members@) as int)))
}

/// Whether `e` reports a structure of the event record type `ert` whose
/// schema path is `path`.
pub open spec fn event_error(e: Error, path: Seq<char>, ert: EventRecordType) -> bool {
    ||| struct_error(e, path + ".specific-context-field-type"@, ert.specific_context_field_type)
    ||| struct_error(e, path + ".payload-field-type"@, ert.payload_field_type)
}

/// Whether `e` reports a part of the data stream type `name`, `d`, at its
/// dotted schema path `stream.<name>...`.
pub open spec fn stream_error(e: Error, name: Seq<char>, d: DataStreamType) -> bool {
    let sp = "stream."@ + name;
    let pf = d.features.packet;
    let er = d.features.event_record;
    ||| uint_error(e, sp + ".$features.packet.total-size-field-type"@, pf.total_size_field_type)
    ||| uint_error(e, sp + ".$features.packet.content-size-field-type"@, pf.content_size_field_type)
    ||| opt_uint_error(e, sp + ".$features.packet.beginning-timestamp-field-type"@, pf.beginning_timestamp_field_type)
    ||| opt_uint_error(e, sp + ".$features.packet.end-timestamp-field-type"@, pf.end_timestamp_field_type)
    ||| opt_uint_error(
        e,
        sp + ".$features.packet.discarded-event-records-counter-snapshot-field-type"@,
        pf.discarded_event_records_counter_snapshot_field_type,
    )
    ||| opt_uint_error(e, sp + ".$features.packet.sequence-number-field-type"@, pf.sequence_number_field_type)
    ||| member_error(
        e,
        sp + ".packet-context-field-type-extra-members"@,
        d.packet_context_field_type_extra_members.0@,
    )
    ||| struct_error(e, sp + ".event-record-common-context-field-type"@, d.event_record_common_context_field_type)
    ||| exists|i: int|
        0 <= i < d.event_record_types@.len() && #[trigger] event_error(
            e,
            sp + ".event-record-types."@ + d.event_record_types@[i].0@,
            d.event_record_types@[i].1,
        )
    ||| alignment_error(e, sp + ".$features.packet"@) && !is_size_bits(context_alignment(d) as int)
    ||| uint_error(e, sp + ".$features.event-record.type-id-field-type"@, er.type_id_field_type)
    ||| uint_error(e, sp + ".$features.event-record.timestamp-field-type"@, er.timestamp_field_type)
    ||| alignment_error(e, sp + ".$features.event-record"@) && !is_size_bits(er.spec_alignment() as int)
}

/// Whether `e` reports a part of the trace type `tt` at its dotted schema
/// path, other than a magic number of the wrong width.
pub open spec fn trace_error(e: Error, tt: TraceType) -> bool {
    ||| opt_uint_error(e, "magic-field-type"@, tt.features.magic_field_type)
    ||| uint_error(e, "data-stream-type-id-field-type"@, tt.features.data_stream_type_id_field_type)
    ||| alignment_error(e, "trace.type.$features"@) && !is_size_bits(tt.features.spec_alignment() as int)
    ||| exists|i: int|
        0 <= i < tt.data_stream_types@.len() && #[trigger] stream_error(
            e,
            tt.data_stream_types@[i].0@,
            tt.data_stream_types@[i].1,
        )
}

/// Whether the trace type has a magic number of another width than 32 bits.
pub open spec fn magic_too_wide(tt: TraceType) -> bool {
    tt.features.magic_field_type.spec_as_ft() matches Some(m) && m.field_type.size != 32
}

/// Whether every stream type has few enough extra packet context members.
pub open spec fn extra_members_bounded(tt: TraceType) -> bool {
    forall|i: int| 0 <= i < tt.data_stream_types@.len() ==>
        (#[trigger] tt.data_stream_types@[i]).1.packet_context_field_type_extra_members.0@.len() <= MAX_EXTRA_MEMBERS
}

/// Whether every stream type of `cfg` has few enough extra packet context
/// members for `Parser::new`.
pub fn extra_members_within_limit(cfg: &Config) -> (r: bool)
    ensures
        r == extra_members_bounded(cfg.trace.typ),
{
    let dsts = &cfg.trace.typ.data_stream_types;
    let mut i: usize = 0;
    while i < dsts.len()
        invariant
            dsts == &cfg.trace.typ.data_stream_types,
            i <= dsts@.len(),
            forall|k: int| 0 <= k < i ==>
                (#[trigger] dsts@[k]).1.packet_context_field_type_extra_members.0@.len() <= MAX_EXTRA_MEMBERS,
        decreases dsts@.len() - i,
    {
        if dsts[i].1.packet_context_field_type_extra_members.0.len() > MAX_EXTRA_MEMBERS {
            return false;
        }
        i = i + 1;
    }
    true
}

/// `prefix` followed by `a`.
fn cat(prefix: &str, a: &str) -> (r: String)
    ensures
        r@ == prefix@ + a@,
{
    let mut s = String::from_str(prefix);
    s.append(a);
    s
}

/// The schema path `stream.<name><suffix>`.
fn stream_path(name: &String, suffix: &str) -> (r: String)
    ensures
        r@ == "stream."@ + name@ + suffix@,
{
    let mut s = cat("stream.", name.as_str());
    s.append(suffix);
    s
}

/// The schema path `<prefix>.<name>`.
fn sub_path(prefix: &String, name: &String) -> (r: String)
    ensures
        r@ == prefix@ + "."@ + name@,
{
    let mut s = cat(prefix.as_str(), ".");
    s.append(name.as_str());
    s
}

/// The readers of the members `ms`; `path` names the structure in errors.
fn member_parsers(ms: &Vec<(String, StructureFieldTypeMember)>, path: &String) -> (r: Result<
    Vec<EventPayloadMemberParser>,
    Error,
>)
    ensures
        r is Ok <==> members_supported(ms@),
        r matches Ok(v) ==> members_match(v@, ms@),
        r matches Err(e) ==> reports_unsupported(e) && member_error(e, path@, ms@),
{
    let mut out: Vec<EventPayloadMemberParser> = Vec::new();
    let mut i: usize = 0;
    while i < ms.len()
        invariant
            i <= ms@.len(),
            out@.len() == i,
            forall|k: int| 0 <= k < i ==> member_matches(#[trigger] out@[k], ms@[k].0, ms@[k].1),
            forall|k: int| 0 <= k < i ==> (#[trigger] field_parser_of(ms@[k].1.field_type)) is Ok,
        decreases ms@.len() - i,
    {
        let (name, member) = &ms[i];
        let value = match FieldTypeParser::from_ft(&member.field_type) {
            Ok(v) => v,
            Err(e) => {
                let p = sub_path(path, name);
                let err = Error::unsupported_ft(p.as_str(), e);
                assert(field_error(
                    err,
                    path@ + "."@ + ms@[i as int].0@,
                    ms@[i as int].1.field_type.spec_size(),
                    ms@[i as int].1.field_type.spec_alignment(),
                ));
                return Err(err);
            },
        };
        out.push(
            EventPayloadMemberParser {
                member_name: name.clone(),
                preferred_display_base: member.field_type.preferred_display_base(),
                enum_mappings: EnumerationMappings::from_struct_ft(&member.field_type),
                value,
            },
        );
        i = i + 1;
    }
    Ok(out)
}

/// The reader of an optional structure; `path` names it in errors.
fn struct_parser(st: &Option<StructureFieldType>, path: &String) -> (r: Result<
    Option<EventPayloadParser>,
    Error,
>)
    ensures
        r is Ok <==> struct_supported(*st),
        r matches Ok(p) ==> struct_matches(p, *st),
        r matches Err(e) ==> reports_unsupported(e) && struct_error(e, path@, *st),
{
    match st {
        None => Ok(None),
        Some(s) => {
            let members = member_parsers(&s.members, path)?;
            let alignment = match Size::from_bits(s.alignment()) {
                Some(a) => a,
                None => {
                    return Err(Error::unsupported_alignment(path.as_str()));
                },
            };
            Ok(Some(EventPayloadParser { alignment, members }))
        },
    }
}

/// The plans of a stream's event record types, ordered by name so that an
/// event's ID is its rank.
fn event_parsers(d: &DataStreamType, stream_name: &String) -> (r: Result<Vec<EventParser>, Error>)
    ensures
        r is Ok <==> forall|i: int|
            0 <= i < d.event_record_types@.len() ==> event_supported(
                (#[trigger] d.event_record_types@[i]).1,
            ),
        r matches Ok(v) ==> exists|order: Seq<usize>|
            {
                &&& is_name_order(order, d.event_record_types@)
                &&& v@.len() == order.len()
                &&& forall|e: int|
                    0 <= e < order.len() ==> event_matches(
                        #[trigger] v@[e],
                        d.event_record_types@[order[e] as int].0,
                        d.event_record_types@[order[e] as int].1,
                    )
            },
        r matches Err(e) ==> reports_unsupported(e) && exists|i: int|
            0 <= i < d.event_record_types@.len() && #[trigger] event_error(
                e,
                "stream."@ + stream_name@ + ".event-record-types."@ + d.event_record_types@[i].0@,
                d.event_record_types@[i].1,
            ),
{
    let types = &d.event_record_types;
    let order = order_by_name(types);
    let mut out: Vec<EventParser> = Vec::new();
    let mut k: usize = 0;
    while k < order.len()
        invariant
            is_name_order(order@, types@),
            types == &d.event_record_types,
            k <= order@.len(),
            out@.len() == k,
            forall|e: int|
                0 <= e < k ==> event_matches(
                    #[trigger] out@[e],
                    types@[order@[e] as int].0,
                    types@[order@[e] as int].1,
                ),
            forall|e: int| 0 <= e < k ==> event_supported(#[trigger] types@[order@[e] as int].1),
        decreases order@.len() - k,
    {
        let j = order[k];
        assert(j < types@.len());
        let (name, ev) = &types[j];
        let prefix = stream_path(stream_name, ".event-record-types.");
        let event_path = cat(prefix.as_str(), name.as_str());
        let sc_path = cat(event_path.as_str(), ".specific-context-field-type");
        let ghost ep = "stream."@ + stream_name@ + ".event-record-types."@ + types@[j as int].0@;
        let specific_context = match struct_parser(&ev.specific_context_field_type, &sc_path) {
            Ok(p) => p,
            Err(e) => {
                assert(event_error(e, ep, types@[j as int].1));
                return Err(e);
            },
        };
        let pl_path = cat(event_path.as_str(), ".payload-field-type");
        let payload = match struct_parser(&ev.payload_field_type, &pl_path) {
            Ok(p) => p,
            Err(e) => {
                assert(event_error(e, ep, types@[j as int].1));
                return Err(e);
            },
        };
        out.push(
            EventParser {
                event_name: name.clone(),
                log_level: ev.log_level,
                specific_context,
                payload,
            },
        );
        k = k + 1;
    }
    proof {
        assert forall|i: int| 0 <= i < types@.len() implies event_supported(
            (#[trigger] types@[i]).1,
        ) by {
            // Every index is somewhere in the order.
            lemma_order_covers(order@, types@.len() as int, i);
        }
        assert(is_name_order(order@, d.event_record_types@) && out@.len() == order@.len());
    }
    Ok(out)
}

/// An order of `n` distinct indices below `n` holds each of them.
proof fn lemma_order_covers(o: Seq<usize>, n: int, i: int)
    requires
        o.len() == n,
        forall|a: int| 0 <= a < o.len() ==> (#[trigger] o[a]) < n,
        forall|a: int, b: int| 0 <= a < b < o.len() ==> o[a] != o[b],
        0 <= i < n,
    ensures
        exists|k: int| 0 <= k < n && o[k] == i,
{
    let m = o.map_values(|x: usize| x as int);
    assert(m.no_duplicates()) by {
        assert forall|a: int, b: int|
            0 <= a < m.len() && 0 <= b < m.len() && a != b implies m[a] != m[b] by {
            if a < b {
                assert(o[a] != o[b]);
            } else {
                assert(o[b] != o[a]);
            }
        }
    }
    m.unique_seq_to_set();
    assert_by_contradiction!(exists|k: int| 0 <= k < n && o[k] == i, {
        // Without `i`, the `n` distinct values would fit in `n - 1` places.
        let rest = vstd::set_lib::set_int_range(0, n).remove(i);
        vstd::set_lib::lemma_int_range(0, n);
        assert forall|x: int| m.to_set().contains(x) implies rest.contains(x) by {
            let k = choose|k: int| 0 <= k < m.len() && m[k] == x;
            assert(o[k] != i);
        }
        vstd::set_lib::lemma_len_subset(m.to_set(), rest);
    });
}

/// The clock type listed first under `name`.
fn find_clock(clocks: &Vec<(String, ClockType)>, name: &String) -> (r: Option<ClockType>)
    ensures
        opt_clock_view(r) == clock_lookup(clocks@, name@),
{
    let mut i: usize = 0;
    assert(clocks@.subrange(0, clocks@.len() as int) =~= clocks@);
    while i < clocks.len()
        invariant
            i <= clocks@.len(),
            clock_lookup(clocks@, name@) == clock_lookup(
                clocks@.subrange(i as int, clocks@.len() as int),
                name@,
            ),
        decreases clocks@.len() - i,
    {
        let ghost rest = clocks@.subrange(i as int, clocks@.len() as int);
        assert(rest[0] == clocks@[i as int]);
        if clocks[i].0 == *name {
            return Some(clocks[i].1.copy());
        }
        assert(rest.drop_first() =~= clocks@.subrange(i + 1, clocks@.len() as int));
        i = i + 1;
    }
    None
}

/// The reader of a required unsigned integer feature field.
fn uint_feature(ft: &UnsignedIntegerFieldType, name: &String, suffix: &str) -> (r: Result<
    UIntParser,
    Error,
>)
    ensures
        r is Ok <==> uint_plan(*ft) is Ok,
        r matches Ok(p) ==> uint_plan(*ft) == Ok::<UIntParser, FieldUnsupportedError>(p),
        r matches Err(e) ==> reports_unsupported(e) && uint_error(e, "stream."@ + name@ + suffix@, *ft),
{
    match UIntParser::from_uint_ft(ft) {
        Ok(p) => Ok(p),
        Err(e) => {
            let path = stream_path(name, suffix);
            Err(Error::unsupported_ft(path.as_str(), e))
        },
    }
}

/// The reader of an optional unsigned integer feature field.
fn opt_uint_feature(ft: &FeaturesUnsignedIntegerFieldType, name: &String, suffix: &str) -> (r: Result<
    Option<UIntParser>,
    Error,
>)
    ensures
        r is Ok <==> opt_uint_plan(*ft) is Ok,
        r matches Ok(p) ==> opt_uint_plan(*ft) == Ok::<Option<UIntParser>, FieldUnsupportedError>(p),
        r matches Err(e) ==> reports_unsupported(e) && opt_uint_error(e, "stream."@ + name@ + suffix@, *ft),
{
    match UIntParser::from_opt_uint_ft(ft) {
        Ok(p) => Ok(p),
        Err(e) => {
            let path = stream_path(name, suffix);
            Err(Error::unsupported_ft(path.as_str(), e))
        },
    }
}

/// The plan of the data stream type `name`, `d`.
fn stream_parser(tt: &TraceType, name: &String, d: &DataStreamType, header_hint: &AlignedCursor) -> (r:
    Result<StreamParser, Error>)
    requires
        header_hint.wf(),
        header_hint.bits() <= 512,
        d.packet_context_field_type_extra_members.0@.len() <= MAX_EXTRA_MEMBERS,
    ensures
        r is Ok <==> stream_supported(*d),
        r matches Ok(sp) ==> stream_matches(sp, *tt, *name, *d),
        r matches Ok(sp) ==> sp.packet_context.wire_size_hint.wf()
            && sp.packet_context.wire_size_hint.bits() == sp.packet_context.spec_end(
            header_hint.bits(),
        ),
        r matches Err(e) ==> reports_unsupported(e) && stream_error(e, name@, *d),
{
    let (clock_name, clock_type) = match &d.default_clock_type_name {
        Some(c) => (Some(c.clone()), find_clock(&tt.clock_types, c)),
        None => (None, None),
    };
    let pf = &d.features.packet;
    // These are required by barectf
    let packet_size = uint_feature(&pf.total_size_field_type, name, ".$features.packet.total-size-field-type")?;
    let content_size = uint_feature(&pf.content_size_field_type, name, ".$features.packet.content-size-field-type")?;
    let beginning_timestamp = opt_uint_feature(
        &pf.beginning_timestamp_field_type,
        name,
        ".$features.packet.beginning-timestamp-field-type",
    )?;
    let end_timestamp = opt_uint_feature(
        &pf.end_timestamp_field_type,
        name,
        ".$features.packet.end-timestamp-field-type",
    )?;
    let events_discarded = opt_uint_feature(
        &pf.discarded_event_records_counter_snapshot_field_type,
        name,
        ".$features.packet.discarded-event-records-counter-snapshot-field-type",
    )?;
    let sequence_number = opt_uint_feature(
        &pf.sequence_number_field_type,
        name,
        ".$features.packet.sequence-number-field-type",
    )?;
    let extras_path = stream_path(name, ".packet-context-field-type-extra-members");
    let extra_alignment = d.packet_context_field_type_extra_members.alignment();
    let extra_members = member_parsers(&d.packet_context_field_type_extra_members.0, &extras_path)?;
    // Event common context
    let cc_path = stream_path(name, ".event-record-common-context-field-type");
    let common_context = struct_parser(&d.event_record_common_context_field_type, &cc_path)?;
    // Per-event plans, numbered by name
    let events = event_parsers(d, name)?;
    let feature_alignment = pf.alignment();
    let ctx_bits = if feature_alignment >= extra_alignment {
        feature_alignment
    } else {
        extra_alignment
    };
    let ctx_alignment = match Size::from_bits(ctx_bits) {
        Some(a) => a,
        None => {
            let path = stream_path(name, ".$features.packet");
            return Err(Error::unsupported_alignment(path.as_str()));
        },
    };
    let packet_context = PacketContextParser::new(
        PacketContextParserArgs {
            packet_size,
            content_size,
            beginning_timestamp,
            end_timestamp,
            events_discarded,
            sequence_number,
            extra_members,
            alignment: ctx_alignment,
        },
        header_hint,
    );
    let er = &d.features.event_record;
    let event_id = uint_feature(&er.type_id_field_type, name, ".$features.event-record.type-id-field-type")?;
    let timestamp = uint_feature(&er.timestamp_field_type, name, ".$features.event-record.timestamp-field-type")?;
    let eh_alignment = match Size::from_bits(er.alignment()) {
        Some(a) => a,
        None => {
            let path = stream_path(name, ".$features.event-record");
            return Err(Error::unsupported_alignment(path.as_str()));
        },
    };
    Ok(
        StreamParser {
            stream_name: name.clone(),
            clock_name,
            clock_type,
            packet_context,
            event_header: EventHeaderParser { event_id, timestamp, alignment: eh_alignment },
            common_context,
            events,
        },
    )
}

impl Parser {
    /// Whether this is the plan of the trace type `tt`: its header layout,
    /// and one stream plan for each data stream type, ordered by name so that
    /// a stream's ID is its rank.
    pub open spec fn is_plan_of(&self, tt: TraceType) -> bool {
        &&& self.spec_byte_order() == tt.native_byte_order
        &&& self.spec_trace_uuid() == tt.uuid
        &&& opt_uint_plan(tt.features.magic_field_type) == Ok::<Option<UIntParser>, FieldUnsupportedError>(self.spec_pkt_header().magic)
        &&& (self.spec_pkt_header().uuid is Some <==> tt.features.uuid_field_type)
        &&& uint_plan(tt.features.data_stream_type_id_field_type) == Ok::<UIntParser, FieldUnsupportedError>(self.spec_pkt_header().stream_id)
        &&& self.spec_pkt_header().alignment == size_of_bits(tt.features.spec_alignment() as int)
        &&& exists|order: Seq<usize>|
            {
                &&& is_name_order(order, tt.data_stream_types@)
                &&& self.spec_streams().len() == order.len()
                &&& forall|k: int|
                    0 <= k < order.len() ==> stream_matches(
                        #[trigger] self.spec_streams()[k],
                        tt,
                        tt.data_stream_types@[order[k] as int].0,
                        tt.data_stream_types@[order[k] as int].1,
                    )
            }
    }

    /// Compiles the trace type of `cfg` into a plan. Fails when a magic number
    /// is not 32 bits wide, or a field's width or alignment, or a structure's
    /// alignment, is not 8, 16, 32 or 64 bits.
    pub fn new(cfg: &Config) -> (r: Result<Self, Error>)
        requires
            extra_members_bounded(cfg.trace.typ),
            cfg.trace.typ.keys_unique(),
        ensures
            r is Ok <==> trace_supported(cfg.trace.typ),
            r matches Ok(p) ==> p.wf() && p.is_plan_of(cfg.trace.typ),
            magic_too_wide(cfg.trace.typ) ==> (r matches Err(Error::UnsupportedFieldType(
                path,
                size,
                alignment,
            )) && path@ == "magic-field-type"@
                && size == cfg.trace.typ.features.magic_field_type.spec_as_ft()->Some_0.field_type.size
                && alignment
                == cfg.trace.typ.features.magic_field_type.spec_as_ft()->Some_0.field_type.alignment),
            !magic_too_wide(cfg.trace.typ) ==> (r matches Err(e) ==> reports_unsupported(e)
                && trace_error(e, cfg.trace.typ)),
    {
        let tt = &cfg.trace.typ;
        // Do some basic semantic checks
        if let Some(magic_ft) = tt.features.magic_field_type.as_ft() {
            if magic_ft.field_type.size != 32 {
                return Err(
                    Error::UnsupportedFieldType(
                        String::from_str("magic-field-type"),
                        magic_ft.field_type.size,
                        magic_ft.field_type.alignment,
                    ),
                );
            }
        }
        let magic = match UIntParser::from_opt_uint_ft(&tt.features.magic_field_type) {
            Ok(m) => m,
            Err(e) => {
                return Err(Error::unsupported_ft("magic-field-type", e));
            },
        };
        let uuid = UuidParser::from_bool_ft(tt.features.uuid_field_type);
        let stream_id = match UIntParser::from_uint_ft(&tt.features.data_stream_type_id_field_type) {
            Ok(p) => p,
            Err(e) => {
                return Err(Error::unsupported_ft("data-stream-type-id-field-type", e));
            },
        };
        let alignment = match Size::from_bits(tt.features.alignment()) {
            Some(a) => a,
            None => {
                return Err(Error::unsupported_alignment("trace.type.$features"));
            },
        };
        let pkt_header = PacketHeaderParser::new(magic, uuid, stream_id, alignment);
        // Stream IDs follow the alphabetical order of the stream names
        let dsts = &tt.data_stream_types;
        let order = order_by_name(dsts);
        let mut streams: Vec<StreamParser> = Vec::new();
        let mut k: usize = 0;
        while k < order.len()
            invariant
                is_name_order(order@, dsts@),
                dsts == &cfg.trace.typ.data_stream_types,
                extra_members_bounded(cfg.trace.typ),
                !magic_too_wide(cfg.trace.typ),
                pkt_header.wf(),
                pkt_header.wire_size_hint.bits() <= 512,
                k <= order@.len(),
                streams@.len() == k,
                forall|e: int|
                    0 <= e < k ==> stream_matches(
                        #[trigger] streams@[e],
                        *tt,
                        dsts@[order@[e] as int].0,
                        dsts@[order@[e] as int].1,
                    ),
                forall|e: int|
                    0 <= e < k ==> {
                        let c = (#[trigger] streams@[e]).packet_context;
                        &&& c.wire_size_hint.wf()
                        &&& c.wire_size_hint.bits() == c.spec_end(pkt_header.wire_size_hint.bits())
                    },
                forall|e: int| 0 <= e < k ==> stream_supported(#[trigger] dsts@[order@[e] as int].1),
            decreases order@.len() - k,
        {
            let j = order[k];
            assert(j < dsts@.len());
            let (name, d) = &dsts[j];
            assert(d.packet_context_field_type_extra_members.0@.len() <= MAX_EXTRA_MEMBERS) by {
                assert(dsts@[j as int].1 == *d);
            }
            let sp = match stream_parser(tt, name, d, &pkt_header.wire_size_hint) {
                Ok(sp) => sp,
                Err(e) => {
                    assert(stream_error(e, dsts@[j as int].0@, dsts@[j as int].1));
                    return Err(e);
                },
            };
            streams.push(sp);
            k = k + 1;
        }
        proof {
            assert forall|i: int| 0 <= i < dsts@.len() implies stream_supported(
                (#[trigger] dsts@[i]).1,
            ) by {
                lemma_order_covers(order@, dsts@.len() as int, i);
            }
        }
        let p = Parser { byte_order: tt.native_byte_order, trace_uuid: tt.uuid, pkt_header, streams };
        assert(p.streams@ == streams@);
        Ok(p)
    }
}

} // verus!
