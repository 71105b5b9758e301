//! Decoded values: field values, events, packets, and a helper that turns
//! narrow, wrapping timestamps into ever-growing ones.
use crate::config::{PreferredDisplayBase, UnsignedIntegerFieldType};
use vstd::prelude::*;

pub use event::{Event, EventModel};
pub use packet::{
    Packet, PacketContext, PacketContextModel, PacketHeader, PacketHeaderModel, PacketModel,
};

pub mod event;
pub mod packet;

verus! {

pub type StreamId = u64;

pub type EventId = u64;

/// Timestamp in cycles.
pub type Timestamp = u64;

pub type EventCount = u64;

pub type SequenceNumber = u64;

/// The value that opens every packet header that has a magic number.
pub const CTF_MAGIC_NUMBER: u32 = 0xC1FC1FC1;

/// The log level of an event record type.
#[derive(Copy, Clone, PartialEq, Eq, Structural, Hash, Debug)]
pub enum LogLevel {
    Emergency,
    Alert,
    Critical,
    Error,
    Warning,
    Notice,
    Info,
    DebugSystem,
    DebugProgram,
    DebugProcess,
    DebugModule,
    DebugUnit,
    DebugFunction,
    DebugLine,
    Debug,
    Other(i32),
}

/// The log level that a numeric level stands for.
pub open spec fn spec_log_level(v: i32) -> LogLevel {
    if v == 0 {
        LogLevel::Emergency
    } else if v == 1 {
        LogLevel::Alert
    } else if v == 2 {
        LogLevel::Critical
    } else if v == 3 {
        LogLevel::Error
    } else if v == 4 {
        LogLevel::Warning
    } else if v == 5 {
        LogLevel::Notice
    } else if v == 6 {
        LogLevel::Info
    } else if v == 7 {
        LogLevel::DebugSystem
    } else if v == 8 {
        LogLevel::DebugProgram
    } else if v == 9 {
        LogLevel::DebugProcess
    } else if v == 10 {
        LogLevel::DebugModule
    } else if v == 11 {
        LogLevel::DebugUnit
    } else if v == 12 {
        LogLevel::DebugFunction
    } else if v == 13 {
        LogLevel::DebugLine
    } else if v == 14 {
        LogLevel::Debug
    } else {
        LogLevel::Other(v)
    }
}

/// The numeric level of a log level.
pub open spec fn spec_log_level_value(l: LogLevel) -> i32 {
    match l {
        LogLevel::Emergency => 0,
        LogLevel::Alert => 1,
        LogLevel::Critical => 2,
        LogLevel::Error => 3,
        LogLevel::Warning => 4,
        LogLevel::Notice => 5,
        LogLevel::Info => 6,
        LogLevel::DebugSystem => 7,
        LogLevel::DebugProgram => 8,
        LogLevel::DebugProcess => 9,
        LogLevel::DebugModule => 10,
        LogLevel::DebugUnit => 11,
        LogLevel::DebugFunction => 12,
        LogLevel::DebugLine => 13,
        LogLevel::Debug => 14,
        LogLevel::Other(v) => v,
    }
}

/// The name under which a log level is shown; a level without a name is
/// shown as its number.
pub open spec fn spec_level_label(l: LogLevel) -> Option<Seq<char>> {
    match l {
        LogLevel::Emergency => Some("EMERG"@),
        LogLevel::Alert => Some("ALERT"@),
        LogLevel::Critical => Some("CRIT"@),
        LogLevel::Error => Some("ERR"@),
        LogLevel::Warning => Some("WARNING"@),
        LogLevel::Notice => Some("NOTICE"@),
        LogLevel::Info => Some("INFO"@),
        LogLevel::DebugSystem => Some("DEBUG_SYSTEM"@),
        LogLevel::DebugProgram => Some("DEBUG_PROGRAM"@),
        LogLevel::DebugProcess => Some("DEBUG_PROCESS"@),
        LogLevel::DebugModule => Some("DEBUG_MODULE"@),
        LogLevel::DebugUnit => Some("DEBUG_UNIT"@),
        LogLevel::DebugFunction => Some("DEBUG_FUNCTION"@),
        LogLevel::DebugLine => Some("DEBUG_LINE"@),
        LogLevel::Debug => Some("DEBUG"@),
        LogLevel::Other(_) => None,
    }
}

impl LogLevel {
    pub fn from_i32(v: i32) -> (r: LogLevel)
        ensures
            r == spec_log_level(v),
    {
        match v {
            0 => LogLevel::Emergency,
            1 => LogLevel::Alert,
            2 => LogLevel::Critical,
            3 => LogLevel::Error,
            4 => LogLevel::Warning,
            5 => LogLevel::Notice,
            6 => LogLevel::Info,
            7 => LogLevel::DebugSystem,
            8 => LogLevel::DebugProgram,
            9 => LogLevel::DebugProcess,
            10 => LogLevel::DebugModule,
            11 => LogLevel::DebugUnit,
            12 => LogLevel::DebugFunction,
            13 => LogLevel::DebugLine,
            14 => LogLevel::Debug,
            _ => LogLevel::Other(v),
        }
    }

    pub fn as_i32(&self) -> (r: i32)
        ensures
            r == spec_log_level_value(*self),
    {
        match self {
            LogLevel::Emergency => 0,
            LogLevel::Alert => 1,
            LogLevel::Critical => 2,
            LogLevel::Error => 3,
            LogLevel::Warning => 4,
            LogLevel::Notice => 5,
            LogLevel::Info => 6,
            LogLevel::DebugSystem => 7,
            LogLevel::DebugProgram => 8,
            LogLevel::DebugProcess => 9,
            LogLevel::DebugModule => 10,
            LogLevel::DebugUnit => 11,
            LogLevel::DebugFunction => 12,
            LogLevel::DebugLine => 13,
            LogLevel::Debug => 14,
            LogLevel::Other(v) => *v,
        }
    }

    /// The name under which the level is shown.
    pub fn label(&self) -> (r: Option<&'static str>)
        ensures
            match r {
                Some(t) => spec_level_label(*self) == Some(t@),
                None => spec_level_label(*self) is None,
            },
    {
        match self {
            LogLevel::Emergency => Some("EMERG"),
            LogLevel::Alert => Some("ALERT"),
            LogLevel::Critical => Some("CRIT"),
            LogLevel::Error => Some("ERR"),
            LogLevel::Warning => Some("WARNING"),
            LogLevel::Notice => Some("NOTICE"),
            LogLevel::Info => Some("INFO"),
            LogLevel::DebugSystem => Some("DEBUG_SYSTEM"),
            LogLevel::DebugProgram => Some("DEBUG_PROGRAM"),
            LogLevel::DebugProcess => Some("DEBUG_PROCESS"),
            LogLevel::DebugModule => Some("DEBUG_MODULE"),
            LogLevel::DebugUnit => Some("DEBUG_UNIT"),
            LogLevel::DebugFunction => Some("DEBUG_FUNCTION"),
            LogLevel::DebugLine => Some("DEBUG_LINE"),
            LogLevel::Debug => Some("DEBUG"),
            LogLevel::Other(_) => None,
        }
    }
}

impl From<i32> for LogLevel {
    fn from(v: i32) -> (r: LogLevel) {
        LogLevel::from_i32(v)
    }
}

impl vstd::std_specs::convert::FromSpecImpl<i32> for LogLevel {
    open spec fn obeys_from_spec() -> bool {
        true
    }

    open spec fn from_spec(v: i32) -> LogLevel {
        spec_log_level(v)
    }
}

/// The lower word of a `TrackingInstant`, in the width of the timestamp field.
#[derive(Copy, Clone, PartialEq, Eq, Structural, Hash, Debug)]
enum CyclesTracker {
    U8(u8),
    U16(u16),
    U32(u32),
    U64(u64),
}

impl CyclesTracker {
    spec fn spec_size_bits(self) -> nat {
        match self {
            CyclesTracker::U8(_) => 8,
            CyclesTracker::U16(_) => 16,
            CyclesTracker::U32(_) => 32,
            CyclesTracker::U64(_) => 64,
        }
    }

    spec fn spec_cycles(self) -> u64 {
        match self {
            CyclesTracker::U8(v) => v as u64,
            CyclesTracker::U16(v) => v as u64,
            CyclesTracker::U32(v) => v as u64,
            CyclesTracker::U64(v) => v,
        }
    }

    /// The same width, holding `cycles` cut to that width.
    spec fn spec_set(self, cycles: u64) -> CyclesTracker {
        match self {
            CyclesTracker::U8(_) => CyclesTracker::U8(cycles as u8),
            CyclesTracker::U16(_) => CyclesTracker::U16(cycles as u16),
            CyclesTracker::U32(_) => CyclesTracker::U32(cycles as u32),
            CyclesTracker::U64(_) => CyclesTracker::U64(cycles),
        }
    }

    fn size_bits(&self) -> (r: usize)
        ensures
            r == self.spec_size_bits(),
    {
        match self {
            CyclesTracker::U8(_) => 8,
            CyclesTracker::U16(_) => 16,
            CyclesTracker::U32(_) => 32,
            CyclesTracker::U64(_) => 64,
        }
    }

    fn reset(&mut self)
        ensures
            final(self).spec_size_bits() == old(self).spec_size_bits(),
            final(self).spec_cycles() == 0,
    {
        match self {
            CyclesTracker::U8(v) => {
                *v = 0;
            },
            CyclesTracker::U16(v) => {
                *v = 0;
            },
            CyclesTracker::U32(v) => {
                *v = 0;
            },
            CyclesTracker::U64(v) => {
                *v = 0;
            },
        }
    }

    fn set(&mut self, cycles: Timestamp)
        ensures
            *final(self) == old(self).spec_set(cycles),
    {
        match self {
            CyclesTracker::U8(v) => {
                *v = cycles as u8;
            },
            CyclesTracker::U16(v) => {
                *v = cycles as u16;
            },
            CyclesTracker::U32(v) => {
                *v = cycles as u32;
            },
            CyclesTracker::U64(v) => {
                *v = cycles;
            },
        }
    }

    fn as_cycles(&self) -> (r: u64)
        ensures
            r == self.spec_cycles(),
    {
        match self {
            CyclesTracker::U8(v) => *v as u64,
            CyclesTracker::U16(v) => *v as u64,
            CyclesTracker::U32(v) => *v as u64,
            CyclesTracker::U64(v) => *v,
        }
    }

    fn is_u64(&self) -> (r: bool)
        ensures
            r == (*self is U64),
    {
        matches!(self, CyclesTracker::U64(_))
    }
}

/// `cycles` cut to its lowest `width` bits.
pub open spec fn truncated(width: nat, cycles: u64) -> u64 {
    if width == 8 {
        cycles as u8 as u64
    } else if width == 16 {
        cycles as u16 as u64
    } else if width == 32 {
        cycles as u32 as u64
    } else {
        cycles
    }
}

/// A timestamp field type whose width is not 8, 16, 32 or 64 bits.
#[derive(Copy, Clone, PartialEq, Eq, Structural, Hash, Debug)]
pub struct UnsupportedTimestampFieldType {}

/// An instant, in cycles, that counts the rollovers of a narrow timestamp.
/// Supports 8, 16 and 32 bit timestamp field types; a 64 bit timestamp is
/// taken as it is, with no rollover tracking.
#[derive(Clone, PartialEq, Eq, Structural, Hash, Debug)]
pub struct TrackingInstant {
    lower: CyclesTracker,
    upper: u32,
}

impl TrackingInstant {
    /// Width of the tracked timestamp field (bits).
    pub closed spec fn width(&self) -> nat {
        self.lower.spec_size_bits()
    }

    /// The last timestamp seen, in the width of its field.
    pub closed spec fn lower_word(&self) -> u64 {
        self.lower.spec_cycles()
    }

    /// The number of rollovers counted so far.
    pub closed spec fn upper_word(&self) -> u32 {
        self.upper
    }

    /// The tracked instant: the rollovers above the lower word, or the lower
    /// word alone for a 64 bit timestamp.
    pub open spec fn spec_timestamp(&self) -> int {
        if self.width() == 64 {
            self.lower_word() as int
        } else if self.width() == 8 {
            self.upper_word() * 0x100 + self.lower_word()
        } else if self.width() == 16 {
            self.upper_word() * 0x1_0000 + self.lower_word()
        } else {
            self.upper_word() * 0x1_0000_0000 + self.lower_word()
        }
    }

    pub fn new(field_type: &UnsignedIntegerFieldType) -> (r: Result<
        Self,
        UnsupportedTimestampFieldType,
    >)
        ensures
            r is Ok <==> (field_type.field_type.size == 8 || field_type.field_type.size == 16
                || field_type.field_type.size == 32 || field_type.field_type.size == 64),
            r matches Ok(t) ==> t.width() == field_type.field_type.size && t.lower_word() == 0
                && t.upper_word() == 0,
    {
        let lower = match field_type.field_type.size {
            8 => CyclesTracker::U8(0),
            16 => CyclesTracker::U16(0),
            32 => CyclesTracker::U32(0),
            64 => CyclesTracker::U64(0),
            _ => {
                return Err(UnsupportedTimestampFieldType {  });
            },
        };
        Ok(TrackingInstant { lower, upper: 0 })
    }

    pub fn reset(&mut self)
        ensures
            final(self).width() == old(self).width(),
            final(self).lower_word() == 0,
            final(self).upper_word() == 0,
    {
        self.lower.reset();
        self.upper = 0;
    }

    pub fn reset_to(&mut self, cycles: Timestamp, upper: u32)
        ensures
            final(self).width() == old(self).width(),
            final(self).lower_word() == truncated(old(self).width(), cycles),
            final(self).upper_word() == upper,
    {
        self.lower.set(cycles);
        self.upper = upper;
    }

    /// The width is one of the supported ones, and the lower word fits in it.
    pub proof fn lemma_width(&self)
        ensures
            self.width() == 8 || self.width() == 16 || self.width() == 32 || self.width() == 64,
            self.lower_word() < width_limit(self.width()),
    {
    }

    /// The instant after taking the timestamp `cycles`.
    pub closed spec fn spec_after(self, cycles: u64) -> TrackingInstant {
        if self.lower is U64 {
            TrackingInstant { lower: self.lower.spec_set(cycles), upper: self.upper }
        } else if cycles < self.lower.spec_cycles() {
            TrackingInstant {
                lower: self.lower.spec_set(cycles),
                upper: ((self.upper + 1) % 0x1_0000_0000) as u32,
            }
        } else {
            TrackingInstant { lower: self.lower.spec_set(cycles), upper: self.upper }
        }
    }

    /// Takes a new timestamp and returns the tracked instant. For a field
    /// narrower than 64 bits, a timestamp below the previous one means the
    /// field has rolled over, and the upper word counts one more (wrapping).
    pub fn elapsed(&mut self, cycles: Timestamp) -> (r: Timestamp)
        ensures
            final(self).width() == old(self).width(),
            final(self).lower_word() == truncated(old(self).width(), cycles),
            old(self).width() == 64 ==> final(self).upper_word() == old(self).upper_word(),
            old(self).width() != 64 ==> final(self).upper_word() == (if cycles < old(
                self,
            ).lower_word() {
                (old(self).upper_word() + 1) % 0x1_0000_0000
            } else {
                old(self).upper_word() as int
            }),
            r == final(self).spec_timestamp(),
            *final(self) == old(self).spec_after(cycles),
    {
        if self.lower.is_u64() {
            self.lower.set(cycles)
        } else {
            if cycles < self.lower.as_cycles() {
                self.upper = self.upper.wrapping_add(1);
            }
            self.lower.set(cycles);
        }
        self.as_timestamp()
    }

    pub fn as_timestamp(&self) -> (r: Timestamp)
        ensures
            r == self.spec_timestamp(),
    {
        let upper = self.upper as u64;
        match self.lower {
            CyclesTracker::U8(v) => upper * 0x100 + v as u64,
            CyclesTracker::U16(v) => upper * 0x1_0000 + v as u64,
            CyclesTracker::U32(v) => upper * 0x1_0000_0000 + v as u64,
            CyclesTracker::U64(v) => v,
        }
    }
}

/// The largest value plus one of a timestamp field `width` bits wide.
pub open spec fn width_limit(width: nat) -> int {
    if width == 8 {
        0x100
    } else if width == 16 {
        0x1_0000
    } else if width == 32 {
        0x1_0000_0000
    } else {
        0x1_0000_0000_0000_0000
    }
}

/// Rollover tracking: for a timestamp field of 8, 16 or 32 bits, taking
/// `prev` and then a smaller `cur` counts exactly one more rollover in the
/// upper word (unless that word is full); for a 64 bit field no rollover is
/// counted and the instant is `cur` itself.
pub proof fn lemma_rollover(t: TrackingInstant, prev: u64, cur: u64)
    requires
        prev < width_limit(t.width()),
        cur < prev,
    ensures
        ({
            let t1 = t.spec_after(prev);
            let t2 = t1.spec_after(cur);
            &&& t.width() != 64 && t1.upper_word() < u32::MAX ==> t2.upper_word() == t1.upper_word() + 1
            &&& t.width() == 64 ==> t2.upper_word() == t.upper_word() && t2.spec_timestamp() == cur
        }),
{
    let t1 = t.spec_after(prev);
    assert(t1.lower_word() == prev) by {
        match t.lower {
            CyclesTracker::U8(_) => {
                assert(prev as u8 as u64 == prev) by (bit_vector)
                    requires
                        prev < 0x100,
                ;
            },
            CyclesTracker::U16(_) => {
                assert(prev as u16 as u64 == prev) by (bit_vector)
                    requires
                        prev < 0x1_0000,
                ;
            },
            CyclesTracker::U32(_) => {
                assert(prev as u32 as u64 == prev) by (bit_vector)
                    requires
                        prev < 0x1_0000_0000,
                ;
            },
            CyclesTracker::U64(_) => {},
        }
    }
}

/// A decoded value of a primitive field type.
#[derive(Clone, PartialEq, Debug)]
pub enum PrimitiveFieldValue {
    UnsignedInteger(u64, PreferredDisplayBase),
    SignedInteger(i64, PreferredDisplayBase),
    String(String),
    /// A 32 bit real, as its bit pattern.
    F32(u32),
    /// A 64 bit real, as its bit pattern.
    F64(u64),
    /// An enumeration's value, with the first label whose values hold it.
    Enumeration(i64, PreferredDisplayBase, Option<String>),
}

/// What a `PrimitiveFieldValue` stands for.
pub enum PrimitiveValueModel {
    UnsignedInteger(u64, PreferredDisplayBase),
    SignedInteger(i64, PreferredDisplayBase),
    String(Seq<char>),
    F32(u32),
    F64(u64),
    Enumeration(i64, PreferredDisplayBase, Option<Seq<char>>),
}

/// The view of an optional string.
pub open spec fn opt_str_view(s: Option<String>) -> Option<Seq<char>> {
    match s {
        Some(t) => Some(t@),
        None => None,
    }
}

impl View for PrimitiveFieldValue {
    type V = PrimitiveValueModel;

    open spec fn view(&self) -> PrimitiveValueModel {
        match self {
            PrimitiveFieldValue::UnsignedInteger(v, b) => PrimitiveValueModel::UnsignedInteger(*v, *b),
            PrimitiveFieldValue::SignedInteger(v, b) => PrimitiveValueModel::SignedInteger(*v, *b),
            PrimitiveFieldValue::String(s) => PrimitiveValueModel::String(s@),
            PrimitiveFieldValue::F32(v) => PrimitiveValueModel::F32(*v),
            PrimitiveFieldValue::F64(v) => PrimitiveValueModel::F64(*v),
            PrimitiveFieldValue::Enumeration(v, b, l) => PrimitiveValueModel::Enumeration(
                *v,
                *b,
                opt_str_view(*l),
            ),
        }
    }
}

/// The views of a list of primitive values.
pub open spec fn prims_view(s: Seq<PrimitiveFieldValue>) -> Seq<PrimitiveValueModel> {
    s.map_values(|x: PrimitiveFieldValue| x@)
}

/// A decoded value of a structure member: a primitive or an array of them.
#[derive(Clone, PartialEq, Debug)]
pub enum FieldValue {
    Primitive(PrimitiveFieldValue),
    Array(Vec<PrimitiveFieldValue>),
}

/// What a `FieldValue` stands for.
pub enum FieldValueModel {
    Primitive(PrimitiveValueModel),
    Array(Seq<PrimitiveValueModel>),
}

impl View for FieldValue {
    type V = FieldValueModel;

    open spec fn view(&self) -> FieldValueModel {
        match self {
            FieldValue::Primitive(p) => FieldValueModel::Primitive(p@),
            FieldValue::Array(a) => FieldValueModel::Array(prims_view(a@)),
        }
    }
}

/// The views of a list of named values.
pub open spec fn named_view(s: Seq<(String, FieldValue)>) -> Seq<(Seq<char>, FieldValueModel)> {
    s.map_values(|x: (String, FieldValue)| (x.0@, x.1@))
}

impl From<PrimitiveFieldValue> for FieldValue {
    fn from(v: PrimitiveFieldValue) -> (r: FieldValue) {
        FieldValue::Primitive(v)
    }
}

impl vstd::std_specs::convert::FromSpecImpl<PrimitiveFieldValue> for FieldValue {
    open spec fn obeys_from_spec() -> bool {
        true
    }

    open spec fn from_spec(v: PrimitiveFieldValue) -> FieldValue {
        FieldValue::Primitive(v)
    }
}

impl From<Vec<PrimitiveFieldValue>> for FieldValue {
    fn from(v: Vec<PrimitiveFieldValue>) -> (r: FieldValue) {
        FieldValue::Array(v)
    }
}

impl vstd::std_specs::convert::FromSpecImpl<Vec<PrimitiveFieldValue>> for FieldValue {
    open spec fn obeys_from_spec() -> bool {
        true
    }

    open spec fn from_spec(v: Vec<PrimitiveFieldValue>) -> FieldValue {
        FieldValue::Array(v)
    }
}

impl From<u32> for PrimitiveFieldValue {
    fn from(v: u32) -> (r: PrimitiveFieldValue) {
        PrimitiveFieldValue::UnsignedInteger(v as u64, PreferredDisplayBase::Decimal)
    }
}

impl vstd::std_specs::convert::FromSpecImpl<u32> for PrimitiveFieldValue {
    open spec fn obeys_from_spec() -> bool {
        true
    }

    open spec fn from_spec(v: u32) -> PrimitiveFieldValue {
        PrimitiveFieldValue::UnsignedInteger(v as u64, PreferredDisplayBase::Decimal)
    }
}

impl From<u64> for PrimitiveFieldValue {
    fn from(v: u64) -> (r: PrimitiveFieldValue) {
        PrimitiveFieldValue::UnsignedInteger(v, PreferredDisplayBase::Decimal)
    }
}

impl vstd::std_specs::convert::FromSpecImpl<u64> for PrimitiveFieldValue {
    open spec fn obeys_from_spec() -> bool {
        true
    }

    open spec fn from_spec(v: u64) -> PrimitiveFieldValue {
        PrimitiveFieldValue::UnsignedInteger(v, PreferredDisplayBase::Decimal)
    }
}

impl From<i32> for PrimitiveFieldValue {
    fn from(v: i32) -> (r: PrimitiveFieldValue) {
        PrimitiveFieldValue::SignedInteger(v as i64, PreferredDisplayBase::Decimal)
    }
}

impl vstd::std_specs::convert::FromSpecImpl<i32> for PrimitiveFieldValue {
    open spec fn obeys_from_spec() -> bool {
        true
    }

    open spec fn from_spec(v: i32) -> PrimitiveFieldValue {
        PrimitiveFieldValue::SignedInteger(v as i64, PreferredDisplayBase::Decimal)
    }
}

impl From<i64> for PrimitiveFieldValue {
    fn from(v: i64) -> (r: PrimitiveFieldValue) {
        PrimitiveFieldValue::SignedInteger(v, PreferredDisplayBase::Decimal)
    }
}

impl vstd::std_specs::convert::FromSpecImpl<i64> for PrimitiveFieldValue {
    open spec fn obeys_from_spec() -> bool {
        true
    }

    open spec fn from_spec(v: i64) -> PrimitiveFieldValue {
        PrimitiveFieldValue::SignedInteger(v, PreferredDisplayBase::Decimal)
    }
}

impl From<String> for PrimitiveFieldValue {
    fn from(v: String) -> (r: PrimitiveFieldValue) {
        PrimitiveFieldValue::String(v)
    }
}

impl vstd::std_specs::convert::FromSpecImpl<String> for PrimitiveFieldValue {
    open spec fn obeys_from_spec() -> bool {
        true
    }

    open spec fn from_spec(v: String) -> PrimitiveFieldValue {
        PrimitiveFieldValue::String(v)
    }
}

} // verus!
