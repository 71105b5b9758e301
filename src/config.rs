//! The schema of a trace: the effective configuration that a barectf tracer was
//! generated from, as far as decoding needs it.
use vstd::prelude::*;
use vstd::string::StringExecFns;

verus! {

/// Byte order of every multi-byte field of a trace.
#[derive(Copy, Clone, PartialEq, Eq, Structural, PartialOrd, Ord, Hash, Debug)]
pub enum NativeByteOrder {
    LittleEndian,
    BigEndian,
}

/// The radix in which an integer is best shown; it does not change its encoding.
#[derive(Copy, Clone, PartialEq, Eq, Structural, PartialOrd, Ord, Hash, Debug)]
pub enum PreferredDisplayBase {
    Binary,
    Octal,
    Decimal,
    Hexadecimal,
}

impl Default for PreferredDisplayBase {
    fn default() -> (r: Self)
        ensures
            r == PreferredDisplayBase::Decimal,
    {
        PreferredDisplayBase::Decimal
    }
}

/// Alignment (bits) of a field type that does not give one. Bit-packed fields
/// are not supported, so this is always a byte.
pub const DEFAULT_ALIGNMENT_BITS: usize = 8;

/// Minimum alignment (bits) of a structure field type that does not give one.
pub const DEFAULT_STRUCT_MIN_ALIGNMENT: usize = 1;

pub fn default_alignment_bits() -> (r: usize)
    ensures
        r == DEFAULT_ALIGNMENT_BITS,
{
    DEFAULT_ALIGNMENT_BITS
}

pub fn default_struct_min_alignment() -> (r: usize)
    ensures
        r == DEFAULT_STRUCT_MIN_ALIGNMENT,
{
    DEFAULT_STRUCT_MIN_ALIGNMENT
}

/// What the layout planner asks of a field type: its width, its alignment and
/// how its values are best shown.
pub trait FieldType {
    spec fn spec_size(&self) -> usize;

    spec fn spec_alignment(&self) -> usize;

    spec fn spec_preferred_display_base(&self) -> Option<PreferredDisplayBase>;

    /// Size of this field type's instances (bits).
    fn size(&self) -> (r: usize)
        ensures
            r == self.spec_size(),
    ;

    /// Alignment of this field type's instances (bits).
    fn alignment(&self) -> (r: usize)
        ensures
            r == self.spec_alignment(),
    ;

    /// The preferred base (radix) to use when displaying this field type's instances.
    fn preferred_display_base(&self) -> (r: Option<PreferredDisplayBase>)
        ensures
            r == self.spec_preferred_display_base(),
    ;
}

/// The type of integer data fields.
#[derive(Clone, PartialEq, Eq, Structural, Hash, Debug)]
pub struct IntegerFieldType {
    /// Size of this field type's instances (bits).
    pub size: usize,
    /// Alignment of the first bit of this field type's instances within a packet (bits).
    pub alignment: usize,
    /// The preferred base (radix) to use when displaying this field type's instances.
    pub preferred_display_base: PreferredDisplayBase,
}

impl FieldType for IntegerFieldType {
    open spec fn spec_size(&self) -> usize {
        self.size
    }

    open spec fn spec_alignment(&self) -> usize {
        self.alignment
    }

    open spec fn spec_preferred_display_base(&self) -> Option<PreferredDisplayBase> {
        Some(self.preferred_display_base)
    }

    fn size(&self) -> (r: usize) {
        self.size
    }

    fn alignment(&self) -> (r: usize) {
        self.alignment
    }

    fn preferred_display_base(&self) -> (r: Option<PreferredDisplayBase>) {
        Some(self.preferred_display_base)
    }
}

/// The type of unsigned integer data fields.
#[derive(Clone, PartialEq, Eq, Structural, Hash, Debug)]
pub struct UnsignedIntegerFieldType {
    pub field_type: IntegerFieldType,
}

/// The type of signed integer data fields.
#[derive(Clone, PartialEq, Eq, Structural, Hash, Debug)]
pub struct SignedIntegerFieldType {
    pub field_type: IntegerFieldType,
}

/// The type of floating point data fields.
#[derive(Clone, PartialEq, Eq, Structural, Hash, Debug)]
pub struct RealFieldType {
    /// Size of this field type's instances (bits).
    pub size: usize,
    /// Alignment of the first bit of this field type's instances within a packet (bits).
    pub alignment: usize,
}

impl FieldType for RealFieldType {
    open spec fn spec_size(&self) -> usize {
        self.size
    }

    open spec fn spec_alignment(&self) -> usize {
        self.alignment
    }

    open spec fn spec_preferred_display_base(&self) -> Option<PreferredDisplayBase> {
        None
    }

    fn size(&self) -> (r: usize) {
        self.size
    }

    fn alignment(&self) -> (r: usize) {
        self.alignment
    }

    fn preferred_display_base(&self) -> (r: Option<PreferredDisplayBase>) {
        None
    }
}

/// One entry of an enumeration label's value set: a single value or an
/// inclusive range.
#[derive(Copy, Clone, PartialEq, Eq, Structural, Hash, Debug)]
pub enum EnumerationFieldTypeMappingSequence {
    InclusiveRange(i64, i64),
    Value(i64),
}

impl EnumerationFieldTypeMappingSequence {
    pub open spec fn spec_contains(self, value: i64) -> bool {
        match self {
            EnumerationFieldTypeMappingSequence::InclusiveRange(min, max) => min <= value <= max,
            EnumerationFieldTypeMappingSequence::Value(v) => v == value,
        }
    }

    /// Returns true if the mapping sequence element contains the value.
    pub fn contains(&self, value: i64) -> (r: bool)
        ensures
            r == self.spec_contains(value),
    {
        match self {
            EnumerationFieldTypeMappingSequence::InclusiveRange(min, max) => value >= *min && value
                <= *max,
            EnumerationFieldTypeMappingSequence::Value(v) => *v == value,
        }
    }
}

/// The type of enumeration data fields: an integer with labels for some of
/// its values. The labels are listed in the order in which a lookup tries them.
#[derive(Clone, PartialEq, Eq, Hash, Debug)]
pub struct EnumerationFieldType {
    /// Size of this field type's instances (bits).
    pub size: usize,
    /// Alignment of the first bit of this field type's instances within a packet (bits).
    pub alignment: usize,
    /// The preferred base (radix) to use when displaying this field type's instances.
    pub preferred_display_base: PreferredDisplayBase,
    /// Each label with the values it stands for.
    pub mappings: Vec<(String, Vec<EnumerationFieldTypeMappingSequence>)>,
}

impl FieldType for EnumerationFieldType {
    open spec fn spec_size(&self) -> usize {
        self.size
    }

    open spec fn spec_alignment(&self) -> usize {
        self.alignment
    }

    open spec fn spec_preferred_display_base(&self) -> Option<PreferredDisplayBase> {
        Some(self.preferred_display_base)
    }

    fn size(&self) -> (r: usize) {
        self.size
    }

    fn alignment(&self) -> (r: usize) {
        self.alignment
    }

    fn preferred_display_base(&self) -> (r: Option<PreferredDisplayBase>) {
        Some(self.preferred_display_base)
    }
}

/// Field types that may be the elements of an array.
#[derive(Clone, PartialEq, Eq, Hash, Debug)]
pub enum PrimitiveFieldType {
    UnsignedInteger(IntegerFieldType),
    SignedInteger(IntegerFieldType),
    String,
    Real(RealFieldType),
    UnsignedEnumeration(EnumerationFieldType),
    SignedEnumeration(EnumerationFieldType),
}

impl FieldType for PrimitiveFieldType {
    open spec fn spec_size(&self) -> usize {
        match self {
            PrimitiveFieldType::UnsignedInteger(t) => t.size,
            PrimitiveFieldType::SignedInteger(t) => t.size,
            PrimitiveFieldType::UnsignedEnumeration(t) => t.size,
            PrimitiveFieldType::SignedEnumeration(t) => t.size,
            PrimitiveFieldType::Real(t) => t.size,
            PrimitiveFieldType::String => 8,
        }
    }

    open spec fn spec_alignment(&self) -> usize {
        match self {
            PrimitiveFieldType::UnsignedInteger(t) => t.alignment,
            PrimitiveFieldType::SignedInteger(t) => t.alignment,
            PrimitiveFieldType::UnsignedEnumeration(t) => t.alignment,
            PrimitiveFieldType::SignedEnumeration(t) => t.alignment,
            PrimitiveFieldType::Real(t) => t.alignment,
            PrimitiveFieldType::String => 8,
        }
    }

    open spec fn spec_preferred_display_base(&self) -> Option<PreferredDisplayBase> {
        match self {
            PrimitiveFieldType::UnsignedInteger(t) => Some(t.preferred_display_base),
            PrimitiveFieldType::SignedInteger(t) => Some(t.preferred_display_base),
            PrimitiveFieldType::UnsignedEnumeration(t) => Some(t.preferred_display_base),
            PrimitiveFieldType::SignedEnumeration(t) => Some(t.preferred_display_base),
            PrimitiveFieldType::Real(_) => None,
            PrimitiveFieldType::String => None,
        }
    }

    fn size(&self) -> (r: usize) {
        match self {
            PrimitiveFieldType::UnsignedInteger(t) => t.size,
            PrimitiveFieldType::SignedInteger(t) => t.size,
            PrimitiveFieldType::UnsignedEnumeration(t) => t.size,
            PrimitiveFieldType::SignedEnumeration(t) => t.size,
            PrimitiveFieldType::Real(t) => t.size,
            PrimitiveFieldType::String => 8,
        }
    }

    fn alignment(&self) -> (r: usize) {
        match self {
            PrimitiveFieldType::UnsignedInteger(t) => t.alignment,
            PrimitiveFieldType::SignedInteger(t) => t.alignment,
            PrimitiveFieldType::UnsignedEnumeration(t) => t.alignment,
            PrimitiveFieldType::SignedEnumeration(t) => t.alignment,
            PrimitiveFieldType::Real(t) => t.alignment,
            PrimitiveFieldType::String => 8,
        }
    }

    fn preferred_display_base(&self) -> (r: Option<PreferredDisplayBase>) {
        match self {
            PrimitiveFieldType::UnsignedInteger(t) => Some(t.preferred_display_base),
            PrimitiveFieldType::SignedInteger(t) => Some(t.preferred_display_base),
            PrimitiveFieldType::UnsignedEnumeration(t) => Some(t.preferred_display_base),
            PrimitiveFieldType::SignedEnumeration(t) => Some(t.preferred_display_base),
            PrimitiveFieldType::Real(_) => None,
            PrimitiveFieldType::String => None,
        }
    }
}

/// The type of arrays with a fixed number of elements.
#[derive(Clone, PartialEq, Eq, Hash, Debug)]
pub struct StaticArrayFieldType {
    /// Number of elements in this field type's instances.
    pub length: usize,
    /// Type of each element.
    pub element_field_type: PrimitiveFieldType,
}

impl FieldType for StaticArrayFieldType {
    open spec fn spec_size(&self) -> usize {
        self.element_field_type.spec_size()
    }

    open spec fn spec_alignment(&self) -> usize {
        self.element_field_type.spec_alignment()
    }

    open spec fn spec_preferred_display_base(&self) -> Option<PreferredDisplayBase> {
        self.element_field_type.spec_preferred_display_base()
    }

    fn size(&self) -> (r: usize) {
        self.element_field_type.size()
    }

    fn alignment(&self) -> (r: usize) {
        self.element_field_type.alignment()
    }

    fn preferred_display_base(&self) -> (r: Option<PreferredDisplayBase>) {
        self.element_field_type.preferred_display_base()
    }
}

/// The type of arrays whose length is written in front of them.
#[derive(Clone, PartialEq, Eq, Hash, Debug)]
pub struct DynamicArrayFieldType {
    /// Type of each element.
    pub element_field_type: PrimitiveFieldType,
}

impl FieldType for DynamicArrayFieldType {
    open spec fn spec_size(&self) -> usize {
        self.element_field_type.spec_size()
    }

    open spec fn spec_alignment(&self) -> usize {
        self.element_field_type.spec_alignment()
    }

    open spec fn spec_preferred_display_base(&self) -> Option<PreferredDisplayBase> {
        self.element_field_type.spec_preferred_display_base()
    }

    fn size(&self) -> (r: usize) {
        self.element_field_type.size()
    }

    fn alignment(&self) -> (r: usize) {
        self.element_field_type.alignment()
    }

    fn preferred_display_base(&self) -> (r: Option<PreferredDisplayBase>) {
        self.element_field_type.preferred_display_base()
    }
}

/// Field types that a structure member may have.
#[derive(Clone, PartialEq, Eq, Hash, Debug)]
pub enum StructureMemberFieldType {
    UnsignedInteger(IntegerFieldType),
    SignedInteger(IntegerFieldType),
    String,
    Real(RealFieldType),
    UnsignedEnumeration(EnumerationFieldType),
    SignedEnumeration(EnumerationFieldType),
    StaticArray(StaticArrayFieldType),
    DynamicArray(DynamicArrayFieldType),
}

impl FieldType for StructureMemberFieldType {
    open spec fn spec_size(&self) -> usize {
        match self {
            StructureMemberFieldType::UnsignedInteger(t) => t.size,
            StructureMemberFieldType::SignedInteger(t) => t.size,
            StructureMemberFieldType::UnsignedEnumeration(t) => t.size,
            StructureMemberFieldType::SignedEnumeration(t) => t.size,
            StructureMemberFieldType::Real(t) => t.size,
            StructureMemberFieldType::String => 8,
            StructureMemberFieldType::StaticArray(t) => t.spec_size(),
            StructureMemberFieldType::DynamicArray(t) => t.spec_size(),
        }
    }

    open spec fn spec_alignment(&self) -> usize {
        match self {
            StructureMemberFieldType::UnsignedInteger(t) => t.alignment,
            StructureMemberFieldType::SignedInteger(t) => t.alignment,
            StructureMemberFieldType::UnsignedEnumeration(t) => t.alignment,
            StructureMemberFieldType::SignedEnumeration(t) => t.alignment,
            StructureMemberFieldType::Real(t) => t.alignment,
            StructureMemberFieldType::String => 8,
            StructureMemberFieldType::StaticArray(t) => t.spec_alignment(),
            StructureMemberFieldType::DynamicArray(t) => t.spec_alignment(),
        }
    }

    open spec fn spec_preferred_display_base(&self) -> Option<PreferredDisplayBase> {
        match self {
            StructureMemberFieldType::UnsignedInteger(t) => Some(t.preferred_display_base),
            StructureMemberFieldType::SignedInteger(t) => Some(t.preferred_display_base),
            StructureMemberFieldType::UnsignedEnumeration(t) => Some(t.preferred_display_base),
            StructureMemberFieldType::SignedEnumeration(t) => Some(t.preferred_display_base),
            StructureMemberFieldType::Real(_) => None,
            StructureMemberFieldType::String => None,
            StructureMemberFieldType::StaticArray(t) => t.spec_preferred_display_base(),
            StructureMemberFieldType::DynamicArray(t) => t.spec_preferred_display_base(),
        }
    }

    fn size(&self) -> (r: usize) {
        match self {
            StructureMemberFieldType::UnsignedInteger(t) => t.size,
            StructureMemberFieldType::SignedInteger(t) => t.size,
            StructureMemberFieldType::UnsignedEnumeration(t) => t.size,
            StructureMemberFieldType::SignedEnumeration(t) => t.size,
            StructureMemberFieldType::Real(t) => t.size,
            StructureMemberFieldType::String => 8,
            StructureMemberFieldType::StaticArray(t) => t.size(),
            StructureMemberFieldType::DynamicArray(t) => t.size(),
        }
    }

    fn alignment(&self) -> (r: usize) {
        match self {
            StructureMemberFieldType::UnsignedInteger(t) => t.alignment,
            StructureMemberFieldType::SignedInteger(t) => t.alignment,
            StructureMemberFieldType::UnsignedEnumeration(t) => t.alignment,
            StructureMemberFieldType::SignedEnumeration(t) => t.alignment,
            StructureMemberFieldType::Real(t) => t.alignment,
            StructureMemberFieldType::String => 8,
            StructureMemberFieldType::StaticArray(t) => t.alignment(),
            StructureMemberFieldType::DynamicArray(t) => t.alignment(),
        }
    }

    fn preferred_display_base(&self) -> (r: Option<PreferredDisplayBase>) {
        match self {
            StructureMemberFieldType::UnsignedInteger(t) => Some(t.preferred_display_base),
            StructureMemberFieldType::SignedInteger(t) => Some(t.preferred_display_base),
            StructureMemberFieldType::UnsignedEnumeration(t) => Some(t.preferred_display_base),
            StructureMemberFieldType::SignedEnumeration(t) => Some(t.preferred_display_base),
            StructureMemberFieldType::Real(_) => None,
            StructureMemberFieldType::String => None,
            StructureMemberFieldType::StaticArray(t) => t.preferred_display_base(),
            StructureMemberFieldType::DynamicArray(t) => t.preferred_display_base(),
        }
    }
}

/// A named member of a structure field type.
#[derive(Clone, PartialEq, Eq, Hash, Debug)]
pub struct StructureFieldTypeMember {
    /// Member's field type.
    pub field_type: StructureMemberFieldType,
}

/// The largest alignment among `members`, if there is any member.
pub open spec fn members_max_alignment(members: Seq<(String, StructureFieldTypeMember)>) -> Option<
    usize,
>
    decreases members.len(),
{
    if members.len() == 0 {
        None
    } else {
        let a = members.last().1.field_type.spec_alignment();
        match members_max_alignment(members.drop_last()) {
            None => Some(a),
            Some(m) => Some(if m >= a { m } else { a }),
        }
    }
}

/// The alignment of a structure made of `members`: the largest alignment of
/// a member, or a byte when there is none.
pub open spec fn spec_members_alignment(members: Seq<(String, StructureFieldTypeMember)>) -> usize {
    match members_max_alignment(members) {
        Some(m) => m,
        None => DEFAULT_ALIGNMENT_BITS,
    }
}

fn members_alignment(members: &Vec<(String, StructureFieldTypeMember)>) -> (r: usize)
    ensures
        r == spec_members_alignment(members@),
{
    let mut best: Option<usize> = None;
    let mut i: usize = 0;
    while i < members.len()
        invariant
            i <= members@.len(),
            best == members_max_alignment(members@.take(i as int)),
        decreases members@.len() - i,
    {
        let a = members[i].1.field_type.alignment();
        assert(members@.take(i as int + 1).drop_last() =~= members@.take(i as int));
        best = match best {
            None => Some(a),
            Some(m) => Some(if m >= a { m } else { a }),
        };
        i = i + 1;
    }
    assert(members@.take(members@.len() as int) =~= members@);
    match best {
        Some(m) => m,
        None => default_alignment_bits(),
    }
}

/// The type of structure data fields: an ordered list of named members.
#[derive(Clone, PartialEq, Eq, Hash, Debug)]
pub struct StructureFieldType {
    /// Minimum alignment of the first bit of this field type's instances within a packet (bits).
    pub minimum_alignment: usize,
    /// Members of this structure field type, in the order in which they are written.
    pub members: Vec<(String, StructureFieldTypeMember)>,
}

impl StructureFieldType {
    /// The largest alignment of the members (bits), or a byte when there is none.
    pub fn alignment(&self) -> (r: usize)
        ensures
            r == spec_members_alignment(self.members@),
    {
        members_alignment(&self.members)
    }
}

/// A `$features` field type: either absent (`false`) or an unsigned integer.
#[derive(Clone, PartialEq, Eq, Hash, Debug)]
pub enum FeaturesUnsignedIntegerFieldType {
    False(bool),
    UnsignedInteger(UnsignedIntegerFieldType),
}

impl FeaturesUnsignedIntegerFieldType {
    pub open spec fn spec_alignment(&self) -> usize {
        match self {
            FeaturesUnsignedIntegerFieldType::False(_) => 0,
            FeaturesUnsignedIntegerFieldType::UnsignedInteger(ft) => ft.field_type.alignment,
        }
    }

    pub open spec fn spec_as_ft(&self) -> Option<UnsignedIntegerFieldType> {
        match self {
            FeaturesUnsignedIntegerFieldType::False(_) => None,
            FeaturesUnsignedIntegerFieldType::UnsignedInteger(ft) => Some(*ft),
        }
    }

    /// The alignment of the field type (bits), 0 when it is absent.
    pub fn alignment(&self) -> (r: usize)
        ensures
            r == self.spec_alignment(),
    {
        match self {
            FeaturesUnsignedIntegerFieldType::False(_) => 0,
            FeaturesUnsignedIntegerFieldType::UnsignedInteger(ft) => ft.field_type.alignment,
        }
    }

    pub fn as_ft(&self) -> (r: Option<&UnsignedIntegerFieldType>)
        ensures
            r matches Some(ft) ==> self.spec_as_ft() == Some(*ft),
            r is None <==> self.spec_as_ft() is None,
    {
        match self {
            FeaturesUnsignedIntegerFieldType::False(_) => None,
            FeaturesUnsignedIntegerFieldType::UnsignedInteger(ft) => Some(ft),
        }
    }
}

/// The larger of two values.
pub open spec fn max_of(a: usize, b: usize) -> usize {
    if a >= b {
        a
    } else {
        b
    }
}

fn max_usize(a: usize, b: usize) -> (r: usize)
    ensures
        r == max_of(a, b),
{
    if a >= b {
        a
    } else {
        b
    }
}

/// Offset information of a clock type's instances.
#[derive(Copy, Clone, PartialEq, Eq, Structural, Hash, Debug)]
pub struct ClockTypeOffset {
    /// Offset in seconds.
    pub seconds: i64,
    /// Offset in cycles.
    pub cycles: u64,
}

/// The type of data stream clocks.
#[derive(Clone, PartialEq, Eq, Hash, Debug)]
pub struct ClockType {
    /// Frequency of instances (Hz).
    pub frequency: u64,
    /// Offset of instances.
    pub offset: Option<ClockTypeOffset>,
    /// True if the origin of instances is the Unix epoch.
    pub origin_is_unix_epoch: bool,
    /// Precision of instances (cycles).
    pub precision: u64,
    /// Clock type's UUID, as its 16 bytes.
    pub uuid: Option<[u8; 16]>,
    /// Clock type's description.
    pub description: Option<String>,
    /// C type of the clock source function for this clock type.
    pub c_type: String,
}

/// What a `ClockType` stands for.
pub struct ClockTypeModel {
    pub frequency: u64,
    pub offset: Option<ClockTypeOffset>,
    pub origin_is_unix_epoch: bool,
    pub precision: u64,
    pub uuid: Option<Seq<u8>>,
    pub description: Option<Seq<char>>,
    pub c_type: Seq<char>,
}

impl View for ClockType {
    type V = ClockTypeModel;

    open spec fn view(&self) -> ClockTypeModel {
        ClockTypeModel {
            frequency: self.frequency,
            offset: self.offset,
            origin_is_unix_epoch: self.origin_is_unix_epoch,
            precision: self.precision,
            uuid: match self.uuid {
                Some(b) => Some(b@),
                None => None,
            },
            description: match self.description {
                Some(d) => Some(d@),
                None => None,
            },
            c_type: self.c_type@,
        }
    }
}

impl ClockType {
    /// A copy of this clock type.
    pub fn copy(&self) -> (r: ClockType)
        ensures
            r@ == self@,
    {
        ClockType {
            frequency: self.frequency,
            offset: self.offset,
            origin_is_unix_epoch: self.origin_is_unix_epoch,
            precision: self.precision,
            uuid: self.uuid,
            description: clone_opt_string(&self.description),
            c_type: self.c_type.clone(),
        }
    }
}

/// A copy of an optional string.
pub fn clone_opt_string(s: &Option<String>) -> (r: Option<String>)
    ensures
        match (r, *s) {
            (Some(a), Some(b)) => a@ == b@,
            (None, None) => true,
            _ => false,
        },
{
    match s {
        Some(t) => Some(t.clone()),
        None => None,
    }
}

/// The type of an event record.
#[derive(Clone, PartialEq, Eq, Hash, Debug)]
pub struct EventRecordType {
    /// Numeric log level of this event record type's instances.
    pub log_level: Option<i32>,
    /// Specific context field type of this event record type.
    pub specific_context_field_type: Option<StructureFieldType>,
    /// Payload field type of this event record type.
    pub payload_field_type: Option<StructureFieldType>,
}

/// The packet features of a data stream type.
#[derive(Clone, PartialEq, Eq, Hash, Debug)]
pub struct DataStreamTypePacketFeatures {
    /// Type of packet context's total size field.
    pub total_size_field_type: UnsignedIntegerFieldType,
    /// Type of packet context's content size field.
    pub content_size_field_type: UnsignedIntegerFieldType,
    /// Type of packet context's beginning timestamp field.
    pub beginning_timestamp_field_type: FeaturesUnsignedIntegerFieldType,
    /// Type of packet context's end timestamp field.
    pub end_timestamp_field_type: FeaturesUnsignedIntegerFieldType,
    /// Type of packet context's discarded event record counter snapshot field.
    pub discarded_event_records_counter_snapshot_field_type: FeaturesUnsignedIntegerFieldType,
    /// Type of packet context's sequence number field.
    pub sequence_number_field_type: FeaturesUnsignedIntegerFieldType,
}

impl DataStreamTypePacketFeatures {
    pub open spec fn spec_alignment(&self) -> usize {
        max_of(
            max_of(
                max_of(
                    self.total_size_field_type.field_type.alignment,
                    self.content_size_field_type.field_type.alignment,
                ),
                max_of(
                    self.beginning_timestamp_field_type.spec_alignment(),
                    self.end_timestamp_field_type.spec_alignment(),
                ),
            ),
            max_of(
                self.discarded_event_records_counter_snapshot_field_type.spec_alignment(),
                self.sequence_number_field_type.spec_alignment(),
            ),
        )
    }

    /// The largest alignment of the packet context's feature fields (bits).
    pub fn alignment(&self) -> (r: usize)
        ensures
            r == self.spec_alignment(),
    {
        let a = max_usize(
            self.total_size_field_type.field_type.alignment,
            self.content_size_field_type.field_type.alignment,
        );
        let b = max_usize(
            self.beginning_timestamp_field_type.alignment(),
            self.end_timestamp_field_type.alignment(),
        );
        let c = max_usize(
            self.discarded_event_records_counter_snapshot_field_type.alignment(),
            self.sequence_number_field_type.alignment(),
        );
        max_usize(max_usize(a, b), c)
    }
}

/// The event record features of a data stream type.
#[derive(Clone, PartialEq, Eq, Hash, Debug)]
pub struct DataStreamTypeEventRecordFeatures {
    /// Type of event header's event record type ID field.
    pub type_id_field_type: UnsignedIntegerFieldType,
    /// Type of event header's timestamp field.
    pub timestamp_field_type: UnsignedIntegerFieldType,
}

impl DataStreamTypeEventRecordFeatures {
    pub open spec fn spec_alignment(&self) -> usize {
        max_of(
            self.type_id_field_type.field_type.alignment,
            self.timestamp_field_type.field_type.alignment,
        )
    }

    /// The largest alignment of the event header's fields (bits).
    pub fn alignment(&self) -> (r: usize)
        ensures
            r == self.spec_alignment(),
    {
        max_usize(
            self.type_id_field_type.field_type.alignment,
            self.timestamp_field_type.field_type.alignment,
        )
    }
}

/// The features of a data stream type.
#[derive(Clone, PartialEq, Eq, Hash, Debug)]
pub struct DataStreamTypeFeatures {
    /// Features related to packets.
    pub packet: DataStreamTypePacketFeatures,
    /// Features related to event records.
    pub event_record: DataStreamTypeEventRecordFeatures,
}

/// Extra, user-defined members appended to a packet context.
#[derive(Clone, PartialEq, Eq, Hash, Debug)]
pub struct PacketContextExtraMembers(pub Vec<(String, StructureFieldTypeMember)>);

impl PacketContextExtraMembers {
    /// The largest alignment of the members (bits), or a byte when there is none.
    pub fn alignment(&self) -> (r: usize)
        ensures
            r == spec_members_alignment(self.0@),
    {
        members_alignment(&self.0)
    }
}

/// The type of a data stream: everything needed to decode its packets.
#[derive(Clone, PartialEq, Eq, Hash, Debug)]
pub struct DataStreamType {
    /// Whether this is its trace type's default data stream type.
    pub is_default: bool,
    /// Name of the clock type of this data stream type's default clock.
    pub default_clock_type_name: Option<String>,
    /// Features of this data stream type's instances.
    pub features: DataStreamTypeFeatures,
    /// Extra members appended to the packet context.
    pub packet_context_field_type_extra_members: PacketContextExtraMembers,
    /// Event record common context field type.
    pub event_record_common_context_field_type: Option<StructureFieldType>,
    /// Event record types, each with its name.
    pub event_record_types: Vec<(String, EventRecordType)>,
}

/// The features of a trace type: what each packet header holds.
#[derive(Clone, PartialEq, Eq, Hash, Debug)]
pub struct TraceTypeFeatures {
    /// Type of packet header's magic number field.
    pub magic_field_type: FeaturesUnsignedIntegerFieldType,
    /// Whether the packet header holds the trace type's UUID.
    pub uuid_field_type: bool,
    /// Type of packet header's data stream type ID field.
    pub data_stream_type_id_field_type: UnsignedIntegerFieldType,
}

impl TraceTypeFeatures {
    pub open spec fn spec_alignment(&self) -> usize {
        max_of(
            max_of(
                self.magic_field_type.spec_alignment(),
                if self.uuid_field_type {
                    DEFAULT_ALIGNMENT_BITS
                } else {
                    0
                },
            ),
            self.data_stream_type_id_field_type.field_type.alignment,
        )
    }

    /// The largest alignment of the packet header's fields (bits); the UUID
    /// is always byte-aligned.
    pub fn alignment(&self) -> (r: usize)
        ensures
            r == self.spec_alignment(),
    {
        let uuid_alignment: usize = if self.uuid_field_type {
            default_alignment_bits()
        } else {
            0
        };
        max_usize(
            max_usize(self.magic_field_type.alignment(), uuid_alignment),
            self.data_stream_type_id_field_type.field_type.alignment,
        )
    }
}

/// The type of a trace: byte order, header layout, clocks and data streams.
#[derive(Clone, PartialEq, Eq, Hash, Debug)]
pub struct TraceType {
    /// Native byte order of the system that produces the data streams.
    pub native_byte_order: NativeByteOrder,
    /// UUID of this trace type, as its 16 bytes.
    pub uuid: Option<[u8; 16]>,
    /// Features of this trace type's instance.
    pub features: TraceTypeFeatures,
    /// Clock types, each with its name.
    pub clock_types: Vec<(String, ClockType)>,
    /// Data stream types, each with its name.
    pub data_stream_types: Vec<(String, DataStreamType)>,
}

/// Whether no two entries of `s` have the same name, as in a map.
pub open spec fn names_unique<T>(s: Seq<(String, T)>) -> bool {
    forall|i: int, j: int| 0 <= i < j < s.len() ==> (#[trigger] s[i]).0@ != (#[trigger] s[j]).0@
}

/// Whether no two entries of `items` have the same name.
pub fn has_unique_names<T>(items: &Vec<(String, T)>) -> (r: bool)
    ensures
        r == names_unique(items@),
{
    let mut i: usize = 0;
    while i < items.len()
        invariant
            i <= items@.len(),
            forall|a: int, b: int|
                0 <= a < i && a < b < items@.len() ==> (#[trigger] items@[a]).0@ != (#[trigger] items@[b]).0@,
        decreases items@.len() - i,
    {
        let mut j: usize = i + 1;
        while j < items.len()
            invariant
                i < items@.len(),
                i + 1 <= j <= items@.len(),
                forall|a: int, b: int|
                    0 <= a < i && a < b < items@.len() ==> (#[trigger] items@[a]).0@ != (#[trigger] items@[b]).0@,
                forall|b: int| i < b < j ==> items@[i as int].0@ != (#[trigger] items@[b]).0@,
            decreases items@.len() - j,
        {
            if items[i].0 == items[j].0 {
                return false;
            }
            j = j + 1;
        }
        i = i + 1;
    }
    true
}

impl TraceType {
    /// Whether the named entries hold one entry per name, as the maps of a
    /// configuration do: clock types, data stream types, and the event
    /// record types of each data stream type.
    pub open spec fn keys_unique(&self) -> bool {
        &&& names_unique(self.clock_types@)
        &&& names_unique(self.data_stream_types@)
        &&& forall|i: int|
            0 <= i < self.data_stream_types@.len() ==> names_unique(
                (#[trigger] self.data_stream_types@[i]).1.event_record_types@,
            )
    }

    pub fn has_unique_keys(&self) -> (r: bool)
        ensures
            r == self.keys_unique(),
    {
        if !has_unique_names(&self.clock_types) || !has_unique_names(&self.data_stream_types) {
            return false;
        }
        let dsts = &self.data_stream_types;
        let mut i: usize = 0;
        while i < dsts.len()
            invariant
                dsts == &self.data_stream_types,
                i <= dsts@.len(),
                forall|k: int| 0 <= k < i ==> names_unique((#[trigger] dsts@[k]).1.event_record_types@),
            decreases dsts@.len() - i,
        {
            if !has_unique_names(&dsts[i].1.event_record_types) {
                return false;
            }
            i = i + 1;
        }
        true
    }
}

/// A trace.
#[derive(Clone, PartialEq, Eq, Hash, Debug)]
pub struct Trace {
    /// Type of this trace.
    pub typ: TraceType,
}

/// The code generation options of a configuration.
#[derive(Clone, PartialEq, Eq, Hash, Debug)]
pub struct CodeGenerationOptions {
    /// Prefix of any C file which barectf generates.
    pub file_name: String,
    /// Prefix of any public C identifier which barectf generates.
    pub identifier: String,
}

impl Default for CodeGenerationOptions {
    fn default() -> (r: Self)
        ensures
            r.file_name@ == "barectf"@,
            r.identifier@ == "barectf_"@,
    {
        CodeGenerationOptions {
            file_name: String::from_str("barectf"),
            identifier: String::from_str("barectf_"),
        }
    }
}

/// The C header generation options of a configuration.
#[derive(Clone, PartialEq, Eq, Structural, Hash, Debug)]
pub struct HeaderGenerationOptions {
    /// Whether barectf defines `_BARECTF_IDENTIFIER_PREFIX`.
    pub identifier_prefix_definition: bool,
    /// Whether barectf defines `_BARECTF_DEFAULT_DATA_STREAM_TYPE_NAME`.
    pub default_data_stream_type_name_definition: bool,
}

impl Default for HeaderGenerationOptions {
    fn default() -> (r: Self)
        ensures
            !r.identifier_prefix_definition,
            !r.default_data_stream_type_name_definition,
    {
        HeaderGenerationOptions {
            identifier_prefix_definition: false,
            default_data_stream_type_name_definition: false,
        }
    }
}

/// The options of a configuration.
#[derive(Clone, PartialEq, Eq, Hash, Debug)]
pub struct Options {
    /// Code generation options.
    pub code_generation: CodeGenerationOptions,
    /// C header generation options.
    pub header: HeaderGenerationOptions,
}

impl Default for Options {
    fn default() -> (r: Self)
        ensures
            r.code_generation.file_name@ == "barectf"@,
            r.code_generation.identifier@ == "barectf_"@,
            !r.header.identifier_prefix_definition,
            !r.header.default_data_stream_type_name_definition,
    {
        Options { code_generation: CodeGenerationOptions::default(), header: HeaderGenerationOptions::default() }
    }
}

/// A barectf configuration: the input of the layout planner.
#[derive(Clone, PartialEq, Eq, Hash, Debug)]
pub struct Config {
    /// Configuration options.
    pub options: Options,
    /// Configuration's trace.
    pub trace: Trace,
}

} // verus!
