use crate::config::{ClockType, ClockTypeModel};
use crate::types::event::events_view;
use crate::types::{
    named_view, opt_str_view, Event, EventCount, EventModel, FieldValue, FieldValueModel,
    SequenceNumber, StreamId, Timestamp,
};
use vstd::prelude::*;

verus! {

/// A decoded packet: its header, its context and its events in order.
#[derive(Clone, PartialEq, Debug)]
pub struct Packet {
    pub header: PacketHeader,
    pub context: PacketContext,
    pub events: Vec<Event>,
}

/// What a `Packet` stands for.
pub struct PacketModel {
    pub header: PacketHeaderModel,
    pub context: PacketContextModel,
    pub events: Seq<EventModel>,
}

impl View for Packet {
    type V = PacketModel;

    open spec fn view(&self) -> PacketModel {
        PacketModel {
            header: self.header@,
            context: self.context@,
            events: events_view(self.events@),
        }
    }
}

/// A decoded packet header, with what the schema says of its stream.
#[derive(Clone, PartialEq, Debug)]
pub struct PacketHeader {
    /// Magic number (`CTF_MAGIC_NUMBER`) that marks a packet, if the schema has one.
    pub magic_number: Option<u32>,
    /// Trace UUID, if the schema has one, as its 16 bytes.
    pub trace_uuid: Option<[u8; 16]>,
    /// Stream ID, which names the stream's type in the schema.
    pub stream_id: StreamId,
    /// Stream name.
    pub stream_name: String,
    /// Name of this stream's default clock.
    pub clock_name: Option<String>,
    /// This stream's clock type.
    pub clock_type: Option<ClockType>,
}

/// What a `PacketHeader` stands for.
pub struct PacketHeaderModel {
    pub magic_number: Option<u32>,
    pub trace_uuid: Option<Seq<u8>>,
    pub stream_id: StreamId,
    pub stream_name: Seq<char>,
    pub clock_name: Option<Seq<char>>,
    pub clock_type: Option<ClockTypeModel>,
}

/// The view of an optional UUID.
pub open spec fn opt_uuid_view(u: Option<[u8; 16]>) -> Option<Seq<u8>> {
    match u {
        Some(b) => Some(b@),
        None => None,
    }
}

/// The view of an optional clock type.
pub open spec fn opt_clock_view(c: Option<ClockType>) -> Option<ClockTypeModel> {
    match c {
        Some(t) => Some(t@),
        None => None,
    }
}

impl View for PacketHeader {
    type V = PacketHeaderModel;

    open spec fn view(&self) -> PacketHeaderModel {
        PacketHeaderModel {
            magic_number: self.magic_number,
            trace_uuid: opt_uuid_view(self.trace_uuid),
            stream_id: self.stream_id,
            stream_name: self.stream_name@,
            clock_name: opt_str_view(self.clock_name),
            clock_type: opt_clock_view(self.clock_type),
        }
    }
}

/// A decoded packet context.
#[derive(Clone, PartialEq, Debug)]
pub struct PacketContext {
    /// Packet size (bits, padding included).
    pub packet_size_bits: usize,
    /// Packet content size (bits).
    pub content_size_bits: usize,
    /// Timestamp at the beginning of the packet.
    pub beginning_timestamp: Option<Timestamp>,
    /// Timestamp at the end of the packet.
    pub end_timestamp: Option<Timestamp>,
    /// Snapshot of the stream's count of discarded events.
    pub events_discarded: Option<EventCount>,
    /// Per-stream packet sequence count.
    pub sequence_number: Option<SequenceNumber>,
    /// The extra members that the stream's type appends to the context.
    pub extra_members: Vec<(String, FieldValue)>,
}

/// What a `PacketContext` stands for.
pub struct PacketContextModel {
    pub packet_size_bits: usize,
    pub content_size_bits: usize,
    pub beginning_timestamp: Option<Timestamp>,
    pub end_timestamp: Option<Timestamp>,
    pub events_discarded: Option<EventCount>,
    pub sequence_number: Option<SequenceNumber>,
    pub extra_members: Seq<(Seq<char>, FieldValueModel)>,
}

impl View for PacketContext {
    type V = PacketContextModel;

    open spec fn view(&self) -> PacketContextModel {
        PacketContextModel {
            packet_size_bits: self.packet_size_bits,
            content_size_bits: self.content_size_bits,
            beginning_timestamp: self.beginning_timestamp,
            end_timestamp: self.end_timestamp,
            events_discarded: self.events_discarded,
            sequence_number: self.sequence_number,
            extra_members: named_view(self.extra_members@),
        }
    }
}

impl PacketContext {
    /// Packet size (bytes).
    pub fn packet_size(&self) -> (r: usize)
        ensures
            r == self.packet_size_bits / 8,
    {
        self.packet_size_bits / 8
    }

    /// Packet content size (bytes).
    pub fn content_size(&self) -> (r: usize)
        ensures
            r == self.content_size_bits / 8,
    {
        self.content_size_bits / 8
    }
}

} // verus!
