use crate::config::{
    ClockType,
    EnumerationFieldTypeMappingSequence, FeaturesUnsignedIntegerFieldType, FieldType,
    NativeByteOrder, PreferredDisplayBase, PrimitiveFieldType, StructureMemberFieldType,
    UnsignedIntegerFieldType,
};
use crate::types::{
    named_view, opt_str_view, prims_view, FieldValue, FieldValueModel, PrimitiveFieldValue,
    PrimitiveValueModel,
};
use crate::error::{Error, IoErrorKind};
use crate::parser::wire::{decode_uint, lemma_pow256_facts, pow256, signed_of, to_signed, uint_of};
use vstd::prelude::*;
use vstd::slice::slice_subrange;

verus! {

/// The widths (and alignments) that a field may have, in bits.
#[derive(Copy, Clone, PartialEq, Eq, Structural, PartialOrd, Ord, Hash, Debug)]
pub enum Size {
    Bits8,
    Bits16,
    Bits32,
    Bits64,
}

/// Whether `bits` is one of the supported widths.
pub open spec fn is_size_bits(bits: int) -> bool {
    bits == 8 || bits == 16 || bits == 32 || bits == 64
}

impl Size {
    pub open spec fn spec_bits(self) -> int {
        match self {
            Size::Bits8 => 8,
            Size::Bits16 => 16,
            Size::Bits32 => 32,
            Size::Bits64 => 64,
        }
    }

    pub fn from_bits(bits: usize) -> (r: Option<Size>)
        ensures
            r is Some <==> is_size_bits(bits as int),
            r matches Some(s) ==> s.spec_bits() == bits,
    {
        match bits {
            8 => Some(Size::Bits8),
            16 => Some(Size::Bits16),
            32 => Some(Size::Bits32),
            64 => Some(Size::Bits64),
            _ => None,
        }
    }

    pub fn bits(&self) -> (r: usize)
        ensures
            r == self.spec_bits(),
    {
        match self {
            Size::Bits8 => 8,
            Size::Bits16 => 16,
            Size::Bits32 => 32,
            Size::Bits64 => 64,
        }
    }
}

/// The wire layout of one field: its width and its alignment.
#[derive(Copy, Clone, PartialEq, Eq, Structural, PartialOrd, Ord, Hash, Debug)]
pub struct FieldDesc {
    pub size: Size,
    pub alignment: Size,
}

/// A field type whose width or alignment (bits) is not supported.
#[derive(Copy, Clone, PartialEq, Eq, Structural, Hash, Debug)]
pub struct FieldUnsupportedError(pub usize, pub usize);

/// The first position at or after `pos` that is a multiple of `a`.
pub open spec fn align_up(pos: int, a: int) -> int {
    if pos % a == 0 {
        pos
    } else {
        pos + (a - pos % a)
    }
}

pub proof fn lemma_align_up(pos: int, a: int)
    requires
        pos >= 0,
        pos % 8 == 0,
        is_size_bits(a),
    ensures
        pos <= align_up(pos, a) < pos + a,
        align_up(pos, a) % a == 0,
        align_up(pos, a) % 8 == 0,
        (align_up(pos, a) - pos) % 8 == 0,
{
}

/// A bit position within a packet, advanced by alignment and by reads.
#[derive(Copy, Clone, PartialEq, Eq, Structural, PartialOrd, Ord, Hash, Debug)]
pub struct AlignedCursor {
    bit_index: usize,
}

impl Default for AlignedCursor {
    fn default() -> (r: Self)
        ensures
            r.wf(),
            r.bits() == 0,
    {
        AlignedCursor::new()
    }
}

/// The largest bit position a cursor is let to reach; it keeps every
/// alignment and increment free of overflow.
pub const MAX_CURSOR_BITS: usize = usize::MAX - 255;

impl AlignedCursor {
    pub closed spec fn bits(self) -> int {
        self.bit_index as int
    }

    pub closed spec fn wf(self) -> bool {
        self.bit_index % 8 == 0 && self.bit_index <= MAX_CURSOR_BITS
    }

    pub proof fn lemma_wf(self)
        requires
            self.wf(),
        ensures
            self.bits() % 8 == 0,
            0 <= self.bits() <= MAX_CURSOR_BITS,
    {
    }

    /// A cursor at the start of a packet.
    pub fn new() -> (r: AlignedCursor)
        ensures
            r.wf(),
            r.bits() == 0,
    {
        AlignedCursor { bit_index: 0 }
    }

    pub fn cursor_bits(&self) -> (r: usize)
        ensures
            r == self.bits(),
    {
        self.bit_index
    }

    pub fn cursor_bytes(&self) -> (r: usize)
        ensures
            r == self.bits() / 8,
    {
        self.bit_index / 8
    }

    /// Moves to the next multiple of `align`; returns the padding passed over (bits).
    pub fn align_to(&mut self, align: Size) -> (padding: usize)
        requires
            old(self).wf(),
            old(self).bits() + 64 <= MAX_CURSOR_BITS,
        ensures
            final(self).wf(),
            final(self).bits() == align_up(old(self).bits(), align.spec_bits() as int),
            final(self).bits() % align.spec_bits() == 0,
            padding == final(self).bits() - old(self).bits(),
            padding % 8 == 0,
            padding < align.spec_bits(),
    {
        let ghost pos = self.bit_index as int;
        proof {
            lemma_align_up(pos, align.spec_bits() as int);
        }
        let a = align.bits();
        let rem = self.bit_index % a;
        let padding: usize = if rem == 0 {
            0
        } else {
            a - rem
        };
        assert(padding == align_up(pos, a as int) - pos);
        self.bit_index = self.bit_index + padding;
        padding
    }

    /// Aligns to `desc.alignment`, then moves past `desc.size` bits.
    pub fn aligned_increment(&mut self, desc: &FieldDesc)
        requires
            old(self).wf(),
            old(self).bits() + 128 <= MAX_CURSOR_BITS,
        ensures
            final(self).wf(),
            final(self).bits() == align_up(old(self).bits(), desc.alignment.spec_bits() as int)
                + desc.size.spec_bits(),
    {
        let _padding = self.align_to(desc.alignment);
        self.increment(desc.size);
    }

    /// Moves past `size` bits.
    pub fn increment(&mut self, size: Size)
        requires
            old(self).wf(),
            old(self).bits() + 64 <= MAX_CURSOR_BITS,
        ensures
            final(self).wf(),
            final(self).bits() == old(self).bits() + size.spec_bits(),
    {
        self.bit_index = self.bit_index + size.bits();
    }
}

/// What a decoding step gives: a value and the position after it, or an error.
pub open spec fn outcome<T: View>(r: Result<T, Error>, s: Result<(T::V, int), Error>, pos: int) -> bool {
    match s {
        Ok((v, p)) => r is Ok && r->Ok_0@ == v && pos == p,
        Err(e) => r is Err && r->Err_0 == e,
    }
}

pub open spec fn eof() -> Error {
    Error::Io(IoErrorKind::UnexpectedEof)
}

/// The text that `String::from_utf8_lossy` makes of `b`.
pub uninterp spec fn utf8_lossy(b: Seq<u8>) -> Seq<char>;

/// Relies on `String::from_utf8_lossy`: the text depends on the bytes alone.
#[verifier::external_body]
fn lossy_string(b: &[u8]) -> (r: String)
    ensures
        r@ == utf8_lossy(b@),
{
    String::from_utf8_lossy(b).into_owned()
}

/// The index of the first zero byte of `data` at or after `i`.
pub open spec fn first_zero(data: Seq<u8>, i: int) -> Option<int>
    decreases data.len() - i,
{
    if i < 0 || i >= data.len() {
        None
    } else if data[i] == 0 {
        Some(i)
    } else {
        first_zero(data, i + 1)
    }
}

/// The bytes that a reader walks over: `data[0]` is the byte at bit
/// position `start` of the packet.
pub struct Source {
    pub data: Seq<u8>,
    pub start: int,
    pub order: NativeByteOrder,
}

impl Source {
    /// The index in `data` of the byte at bit position `pos`.
    pub open spec fn index_of(self, pos: int) -> int {
        (pos - self.start) / 8
    }

    /// Passing over the padding up to alignment `a`.
    pub open spec fn align(self, pos: int, a: Size) -> Result<(), Error> {
        if self.index_of(align_up(pos, a.spec_bits() as int)) <= self.data.len() {
            Ok(())
        } else {
            Err(eof())
        }
    }

    pub open spec fn align_pos(self, pos: int, a: Size) -> Result<((), int), Error> {
        match self.align(pos, a) {
            Ok(_) => Ok(((), align_up(pos, a.spec_bits() as int))),
            Err(e) => Err(e),
        }
    }

    /// The `n` bytes at aligned position `p`, if the source holds them.
    pub open spec fn bytes_at(self, p: int, n: int) -> Option<Seq<u8>> {
        let i = self.index_of(p);
        if 0 <= i && i + n <= self.data.len() {
            Some(self.data.subrange(i, i + n))
        } else {
            None
        }
    }

    /// Reading an unsigned integer of width `size` at alignment `align`.
    pub open spec fn read_uint(self, pos: int, size: Size, align: Size) -> Result<(u64, int), Error> {
        let p = align_up(pos, align.spec_bits() as int);
        match self.bytes_at(p, size.spec_bits() / 8) {
            Some(b) => Ok((uint_of(b, self.order) as u64, p + size.spec_bits())),
            None => Err(eof()),
        }
    }

    /// Reading a signed integer of width `size` at alignment `align`.
    pub open spec fn read_int(self, pos: int, size: Size, align: Size) -> Result<(i64, int), Error> {
        let p = align_up(pos, align.spec_bits() as int);
        match self.bytes_at(p, size.spec_bits() / 8) {
            Some(b) => Ok(
                (signed_of(uint_of(b, self.order), (size.spec_bits() / 8) as nat) as i64, p + size.spec_bits()),
            ),
            None => Err(eof()),
        }
    }

    /// Reading a null-terminated string: the text before the first zero byte.
    pub open spec fn read_string(self, pos: int) -> Result<(Seq<char>, int), Error> {
        let p = align_up(pos, 8);
        let i = self.index_of(p);
        match first_zero(self.data, i) {
            Some(k) => Ok((utf8_lossy(self.data.subrange(i, k)), p + 8 * (k - i + 1))),
            None => Err(eof()),
        }
    }

    /// Reading the 16 bytes of a UUID, byte-aligned.
    pub open spec fn read_uuid(self, pos: int) -> Result<(Seq<u8>, int), Error> {
        let p = align_up(pos, 8);
        match self.bytes_at(p, 16) {
            Some(b) => Ok((b, p + 128)),
            None => Err(eof()),
        }
    }
}

/// Alignment at every boundary: a structure that is aligned to `align`
/// starts at a multiple of it, and so does every integer field read at
/// alignment `align`.
pub proof fn lemma_boundaries_aligned(src: Source, pos: int, size: Size, align: Size)
    requires
        pos >= 0,
        pos % 8 == 0,
    ensures
        src.align_pos(pos, align) matches Ok((_, q)) ==> q % align.spec_bits() == 0,
        src.read_uint(pos, size, align) matches Ok((_, end)) ==> (end - size.spec_bits())
            % align.spec_bits() == 0,
        src.read_int(pos, size, align) matches Ok((_, end)) ==> (end - size.spec_bits())
            % align.spec_bits() == 0,
{
    lemma_align_up(pos, align.spec_bits());
}

/// The largest number of bytes a reader takes in one source.
pub const MAX_SOURCE_BYTES: usize = usize::MAX / 32;

/// Reads fields in the trace's byte order from a byte slice, keeping the bit
/// position within the packet so that each field can be aligned.
pub struct StreamReader<'a> {
    data: &'a [u8],
    start: usize,
    byte_order: NativeByteOrder,
    cursor: AlignedCursor,
}

impl<'a> StreamReader<'a> {
    pub closed spec fn source(&self) -> Source {
        Source { data: self.data@, start: self.start as int, order: self.byte_order }
    }

    /// The bit position of the next field.
    pub closed spec fn pos(&self) -> int {
        self.cursor.bits() as int
    }

    pub closed spec fn wf(&self) -> bool {
        &&& self.cursor.wf()
        &&& self.start % 8 == 0
        &&& self.start <= self.cursor.bits()
        &&& (self.cursor.bits() - self.start) / 8 <= self.data@.len()
        &&& self.data@.len() <= MAX_SOURCE_BYTES
        &&& self.start <= MAX_CURSOR_BITS / 2
    }

    pub proof fn lemma_pos(&self)
        requires
            self.wf(),
        ensures
            self.pos() % 8 == 0,
            self.source().start % 8 == 0,
            self.pos() >= self.source().start,
            self.pos() >= 0,
            self.source().index_of(self.pos()) <= self.source().data.len(),
    {
    }

    /// A reader at the start of a packet.
    pub fn new(byte_order: NativeByteOrder, data: &'a [u8]) -> (r: Self)
        requires
            data@.len() <= MAX_SOURCE_BYTES,
        ensures
            r.wf(),
            r.source() == (Source { data: data@, start: 0, order: byte_order }),
            r.pos() == 0,
    {
        StreamReader { data, start: 0, byte_order, cursor: AlignedCursor::new() }
    }

    /// A reader that goes on from `cursor`: `data[0]` is the byte there.
    pub fn new_with_cursor(byte_order: NativeByteOrder, cursor: AlignedCursor, data: &'a [u8]) -> (r:
        Self)
        requires
            cursor.wf(),
            cursor.bits() <= MAX_CURSOR_BITS / 2,
            data@.len() <= MAX_SOURCE_BYTES,
        ensures
            r.wf(),
            r.source() == (Source { data: data@, start: cursor.bits() as int, order: byte_order }),
            r.pos() == cursor.bits(),
    {
        StreamReader { data, start: cursor.bit_index, byte_order, cursor }
    }

    pub fn into_cursor(self) -> (r: AlignedCursor)
        requires
            self.wf(),
        ensures
            r.wf(),
            r.bits() == self.pos(),
    {
        self.cursor
    }

    pub fn cursor_bits(&self) -> (r: usize)
        ensures
            r == self.pos(),
    {
        self.cursor.bit_index
    }

    /// The number of source bytes passed over so far.
    pub fn consumed(&self) -> (r: usize)
        requires
            self.wf(),
        ensures
            r == self.source().index_of(self.pos()),
            r <= self.source().data.len(),
    {
        (self.cursor.bit_index - self.start) / 8
    }

    /// Passes over the next `n` bytes, whatever they hold.
    pub fn skip(&mut self, n: usize) -> (r: Result<(), Error>)
        requires
            old(self).wf(),
        ensures
            final(self).wf(),
            final(self).source() == old(self).source(),
            final(self).pos() >= old(self).pos(),
            match old(self).source().bytes_at(old(self).pos(), n as int) {
                Some(_) => r is Ok && final(self).pos() == old(self).pos() + 8 * n,
                None => r == Err::<(), Error>(eof()),
            },
    {
        let i = (self.cursor.bit_index - self.start) / 8;
        if n > self.data.len() - i {
            return Err(Error::Io(IoErrorKind::UnexpectedEof));
        }
        self.cursor.bit_index = self.cursor.bit_index + 8 * n;
        Ok(())
    }

    /// Passes over the padding up to alignment `align`.
    pub fn align_to(&mut self, align: Size) -> (r: Result<(), Error>)
        requires
            old(self).wf(),
        ensures
            final(self).wf(),
            final(self).source() == old(self).source(),
            final(self).pos() >= old(self).pos(),
            outcome(r, old(self).source().align_pos(old(self).pos(), align), final(self).pos()),
            r is Ok ==> final(self).pos() % align.spec_bits() == 0,
    {
        let mut c = self.cursor;
        c.align_to(align);
        let i = (c.bit_index - self.start) / 8;
        if i > self.data.len() {
            return Err(Error::Io(IoErrorKind::UnexpectedEof));
        }
        self.cursor = c;
        Ok(())
    }

    /// Takes the `n` bytes at the next position aligned to `align`.
    #[verifier::spinoff_prover]
    #[verifier::rlimit(50)]
    fn take(&mut self, n: usize, align: Size) -> (r: Result<&'a [u8], Error>)
        requires
            old(self).wf(),
            n == 1 || n == 2 || n == 4 || n == 8 || n == 16,
        ensures
            final(self).wf(),
            final(self).source() == old(self).source(),
            final(self).pos() >= old(self).pos(),
            r is Ok ==> final(self).pos() > old(self).pos(),
            ({
                let p = align_up(old(self).pos(), align.spec_bits() as int);
                match old(self).source().bytes_at(p, n as int) {
                    Some(b) => r is Ok && r->Ok_0@ == b && final(self).pos() == p + 8 * n,
                    None => r == Err::<&[u8], Error>(eof()),
                }
            }),
    {
        proof {
            lemma_align_up(self.pos(), align.spec_bits());
        }
        let mut c = self.cursor;
        c.align_to(align);
        let i = (c.bit_index - self.start) / 8;
        if i > self.data.len() || n > self.data.len() - i {
            return Err(Error::Io(IoErrorKind::UnexpectedEof));
        }
        let b = slice_subrange(self.data, i, i + n);
        c.bit_index = c.bit_index + 8 * n;
        self.cursor = c;
        Ok(b)
    }

    /// Reads an unsigned integer of width `size` at alignment `align`.
    pub fn read_uint(&mut self, size: Size, align: Size) -> (r: Result<u64, Error>)
        requires
            old(self).wf(),
        ensures
            final(self).wf(),
            final(self).source() == old(self).source(),
            final(self).pos() >= old(self).pos(),
            r is Ok ==> final(self).pos() > old(self).pos(),
            outcome(r, old(self).source().read_uint(old(self).pos(), size, align), final(self).pos()),
            r is Ok ==> (final(self).pos() - size.spec_bits()) % align.spec_bits() as int == 0,
    {
        proof {
            lemma_align_up(self.pos(), align.spec_bits() as int);
        }
        let n = size.bits() / 8;
        let b = self.take(n, align)?;
        Ok(decode_uint(b, self.byte_order))
    }

    /// Reads a signed integer of width `size` at alignment `align`.
    pub fn read_int(&mut self, size: Size, align: Size) -> (r: Result<i64, Error>)
        requires
            old(self).wf(),
        ensures
            final(self).wf(),
            final(self).source() == old(self).source(),
            final(self).pos() >= old(self).pos(),
            r is Ok ==> final(self).pos() > old(self).pos(),
            outcome(r, old(self).source().read_int(old(self).pos(), size, align), final(self).pos()),
            r is Ok ==> (final(self).pos() - size.spec_bits()) % align.spec_bits() as int == 0,
    {
        proof {
            lemma_align_up(self.pos(), align.spec_bits() as int);
        }
        let n = size.bits() / 8;
        let b = self.take(n, align)?;
        let v = decode_uint(b, self.byte_order);
        Ok(to_signed(v, n))
    }

    /// Reads a byte at alignment `align`.
    pub fn read_u8(&mut self, align: Size) -> (r: Result<u8, Error>)
        requires
            old(self).wf(),
        ensures
            final(self).wf(),
            final(self).source() == old(self).source(),
            final(self).pos() >= old(self).pos(),
            r is Ok ==> final(self).pos() > old(self).pos(),
            outcome(r, match old(self).source().read_uint(old(self).pos(), Size::Bits8, align) {
                Ok((v, p)) => Ok((v as u8, p)),
                Err(e) => Err(e),
            }, final(self).pos()),
    {
        let v = self.read_uint(Size::Bits8, align)?;
        proof {
            lemma_pow256_facts();
        }
        Ok(v as u8)
    }

    /// Reads a 32 bit unsigned integer at alignment `align`.
    pub fn read_u32(&mut self, align: Size) -> (r: Result<u32, Error>)
        requires
            old(self).wf(),
        ensures
            final(self).wf(),
            final(self).source() == old(self).source(),
            final(self).pos() >= old(self).pos(),
            r is Ok ==> final(self).pos() > old(self).pos(),
            outcome(r, match old(self).source().read_uint(old(self).pos(), Size::Bits32, align) {
                Ok((v, p)) => Ok((v as u32, p)),
                Err(e) => Err(e),
            }, final(self).pos()),
    {
        let v = self.read_uint(Size::Bits32, align)?;
        Ok(v as u32)
    }

    /// Reads a 16 bit unsigned integer at alignment `align`.
    pub fn read_u16(&mut self, align: Size) -> (r: Result<u16, Error>)
        requires
            old(self).wf(),
        ensures
            final(self).wf(),
            final(self).source() == old(self).source(),
            final(self).pos() >= old(self).pos(),
            outcome(r, match old(self).source().read_uint(old(self).pos(), Size::Bits16, align) {
                Ok((v, p)) => Ok((v as u16, p)),
                Err(e) => Err(e),
            }, final(self).pos()),
    {
        let v = self.read_uint(Size::Bits16, align)?;
        Ok(v as u16)
    }

    /// Reads a 64 bit unsigned integer at alignment `align`.
    pub fn read_u64(&mut self, align: Size) -> (r: Result<u64, Error>)
        requires
            old(self).wf(),
        ensures
            final(self).wf(),
            final(self).source() == old(self).source(),
            final(self).pos() >= old(self).pos(),
            outcome(r, match old(self).source().read_uint(old(self).pos(), Size::Bits64, align) {
                Ok((v, p)) => Ok((v as u64, p)),
                Err(e) => Err(e),
            }, final(self).pos()),
    {
        let v = self.read_uint(Size::Bits64, align)?;
        Ok(v as u64)
    }

    /// Reads an 8 bit signed integer at alignment `align`.
    pub fn read_i8(&mut self, align: Size) -> (r: Result<i8, Error>)
        requires
            old(self).wf(),
        ensures
            final(self).wf(),
            final(self).source() == old(self).source(),
            final(self).pos() >= old(self).pos(),
            outcome(r, match old(self).source().read_int(old(self).pos(), Size::Bits8, align) {
                Ok((v, p)) => Ok((v as i8, p)),
                Err(e) => Err(e),
            }, final(self).pos()),
    {
        let v = self.read_int(Size::Bits8, align)?;
        Ok(v as i8)
    }

    /// Reads a 16 bit signed integer at alignment `align`.
    pub fn read_i16(&mut self, align: Size) -> (r: Result<i16, Error>)
        requires
            old(self).wf(),
        ensures
            final(self).wf(),
            final(self).source() == old(self).source(),
            final(self).pos() >= old(self).pos(),
            outcome(r, match old(self).source().read_int(old(self).pos(), Size::Bits16, align) {
                Ok((v, p)) => Ok((v as i16, p)),
                Err(e) => Err(e),
            }, final(self).pos()),
    {
        let v = self.read_int(Size::Bits16, align)?;
        Ok(v as i16)
    }

    /// Reads a 32 bit signed integer at alignment `align`.
    pub fn read_i32(&mut self, align: Size) -> (r: Result<i32, Error>)
        requires
            old(self).wf(),
        ensures
            final(self).wf(),
            final(self).source() == old(self).source(),
            final(self).pos() >= old(self).pos(),
            outcome(r, match old(self).source().read_int(old(self).pos(), Size::Bits32, align) {
                Ok((v, p)) => Ok((v as i32, p)),
                Err(e) => Err(e),
            }, final(self).pos()),
    {
        let v = self.read_int(Size::Bits32, align)?;
        Ok(v as i32)
    }

    /// Reads a 64 bit signed integer at alignment `align`.
    pub fn read_i64(&mut self, align: Size) -> (r: Result<i64, Error>)
        requires
            old(self).wf(),
        ensures
            final(self).wf(),
            final(self).source() == old(self).source(),
            final(self).pos() >= old(self).pos(),
            outcome(r, match old(self).source().read_int(old(self).pos(), Size::Bits64, align) {
                Ok((v, p)) => Ok((v as i64, p)),
                Err(e) => Err(e),
            }, final(self).pos()),
    {
        let v = self.read_int(Size::Bits64, align)?;
        Ok(v as i64)
    }

    /// Reads a 32 bit real at alignment `align`, as its bit pattern (`f32::from_bits`).
    pub fn read_f32(&mut self, align: Size) -> (r: Result<u32, Error>)
        requires
            old(self).wf(),
        ensures
            final(self).wf(),
            final(self).source() == old(self).source(),
            final(self).pos() >= old(self).pos(),
            outcome(r, match old(self).source().read_uint(old(self).pos(), Size::Bits32, align) {
                Ok((v, p)) => Ok((v as u32, p)),
                Err(e) => Err(e),
            }, final(self).pos()),
    {
        let v = self.read_uint(Size::Bits32, align)?;
        Ok(v as u32)
    }

    /// Reads a 64 bit real at alignment `align`, as its bit pattern (`f64::from_bits`).
    pub fn read_f64(&mut self, align: Size) -> (r: Result<u64, Error>)
        requires
            old(self).wf(),
        ensures
            final(self).wf(),
            final(self).source() == old(self).source(),
            final(self).pos() >= old(self).pos(),
            outcome(r, match old(self).source().read_uint(old(self).pos(), Size::Bits64, align) {
                Ok((v, p)) => Ok((v as u64, p)),
                Err(e) => Err(e),
            }, final(self).pos()),
    {
        let v = self.read_uint(Size::Bits64, align)?;
        Ok(v as u64)
    }

    /// Reads the 16 bytes of a UUID, byte-aligned.
    pub fn read_uuid(&mut self) -> (r: Result<[u8; 16], Error>)
        requires
            old(self).wf(),
        ensures
            final(self).wf(),
            final(self).source() == old(self).source(),
            final(self).pos() >= old(self).pos(),
            r is Ok ==> final(self).pos() > old(self).pos(),
            outcome(r, old(self).source().read_uuid(old(self).pos()), final(self).pos()),
    {
        let b = self.take(16, Size::Bits8)?;
        let u = [
            b[0], b[1], b[2], b[3], b[4], b[5], b[6], b[7],
            b[8], b[9], b[10], b[11], b[12], b[13], b[14], b[15],
        ];
        assert(u@ =~= b@);
        Ok(u)
    }

    /// Reads a null-terminated string, byte-aligned; invalid UTF-8 is replaced.
    pub fn read_string(&mut self) -> (r: Result<String, Error>)
        requires
            old(self).wf(),
        ensures
            final(self).wf(),
            final(self).source() == old(self).source(),
            final(self).pos() >= old(self).pos(),
            r is Ok ==> final(self).pos() > old(self).pos(),
            outcome(r, old(self).source().read_string(old(self).pos()), final(self).pos()),
    {
        let i = (self.cursor.bit_index - self.start) / 8;
        let mut j = i;
        while j < self.data.len() && self.data[j] != 0
            invariant
                i <= j <= self.data@.len(),
                first_zero(self.data@, i as int) == first_zero(self.data@, j as int),
            decreases self.data@.len() - j,
        {
            j = j + 1;
        }
        if j >= self.data.len() {
            return Err(Error::Io(IoErrorKind::UnexpectedEof));
        }
        let text = lossy_string(slice_subrange(self.data, i, j));
        self.cursor.bit_index = self.cursor.bit_index + 8 * (j - i + 1);
        Ok(text)
    }
}

/// The `Size` of `bits`, one of the supported widths.
pub open spec fn size_of_bits(bits: int) -> Size {
    if bits == 8 {
        Size::Bits8
    } else if bits == 16 {
        Size::Bits16
    } else if bits == 32 {
        Size::Bits32
    } else {
        Size::Bits64
    }
}

/// The layout of a field of width `size` and alignment `alignment` (bits),
/// when both are supported.
pub open spec fn desc_of(size: usize, alignment: usize) -> Result<FieldDesc, FieldUnsupportedError> {
    if is_size_bits(size as int) && is_size_bits(alignment as int) {
        Ok(FieldDesc { size: size_of_bits(size as int), alignment: size_of_bits(alignment as int) })
    } else {
        Err(FieldUnsupportedError(size, alignment))
    }
}

impl FieldDesc {
    pub fn from_ft<T: FieldType>(ft: &T) -> (r: Result<Self, FieldUnsupportedError>)
        ensures
            r == desc_of(ft.spec_size(), ft.spec_alignment()),
    {
        let size = ft.size();
        let alignment = ft.alignment();
        match (Size::from_bits(size), Size::from_bits(alignment)) {
            (Some(size), Some(alignment)) => Ok(FieldDesc { size, alignment }),
            _ => Err(FieldUnsupportedError(size, alignment)),
        }
    }
}

/// Reads the 16 byte trace UUID of a packet header.
#[derive(Copy, Clone, PartialEq, Eq, Structural, Hash, Debug)]
pub struct UuidParser {}

impl UuidParser {
    pub fn from_bool_ft(uuid_field_type: bool) -> (r: Option<Self>)
        ensures
            r is Some <==> uuid_field_type,
    {
        if uuid_field_type {
            Some(UuidParser {  })
        } else {
            None
        }
    }

    pub fn parse(&self, r: &mut StreamReader) -> (res: Result<[u8; 16], Error>)
        requires
            old(r).wf(),
        ensures
            final(r).wf(),
            final(r).source() == old(r).source(),
            final(r).pos() >= old(r).pos(),
            outcome(res, old(r).source().read_uuid(old(r).pos()), final(r).pos()),
    {
        r.read_uuid()
    }
}

/// Reads an unsigned integer field, widened to 64 bits.
#[derive(Copy, Clone, PartialEq, Eq, Structural, Hash, Debug)]
pub struct UIntParser(pub FieldDesc);

impl UIntParser {
    pub open spec fn spec_parse(self, src: Source, pos: int) -> Result<(u64, int), Error> {
        src.read_uint(pos, self.0.size, self.0.alignment)
    }

    pub fn from_uint_ft(ft: &UnsignedIntegerFieldType) -> (r: Result<Self, FieldUnsupportedError>)
        ensures
            r == (match desc_of(ft.field_type.size, ft.field_type.alignment) {
                Ok(d) => Ok(UIntParser(d)),
                Err(e) => Err(e),
            }),
    {
        Ok(UIntParser(FieldDesc::from_ft(&ft.field_type)?))
    }

    pub fn from_opt_uint_ft(ft: &FeaturesUnsignedIntegerFieldType) -> (r: Result<
        Option<Self>,
        FieldUnsupportedError,
    >)
        ensures
            r == (match ft.spec_as_ft() {
                None => Ok(None),
                Some(u) => match desc_of(u.field_type.size, u.field_type.alignment) {
                    Ok(d) => Ok(Some(UIntParser(d))),
                    Err(e) => Err(e),
                },
            }),
    {
        match ft {
            FeaturesUnsignedIntegerFieldType::False(_) => Ok(None),
            FeaturesUnsignedIntegerFieldType::UnsignedInteger(uint) => Ok(
                Some(UIntParser::from_uint_ft(uint)?),
            ),
        }
    }

    pub fn desc(&self) -> (r: &FieldDesc)
        ensures
            *r == self.0,
    {
        &self.0
    }

    pub fn parse(&self, r: &mut StreamReader) -> (res: Result<u64, Error>)
        requires
            old(r).wf(),
        ensures
            final(r).wf(),
            final(r).source() == old(r).source(),
            final(r).pos() >= old(r).pos(),
            res is Ok ==> final(r).pos() > old(r).pos(),
            outcome(res, self.spec_parse(old(r).source(), old(r).pos()), final(r).pos()),
    {
        r.read_uint(self.0.size, self.0.alignment)
    }
}

/// Reads one primitive field.
#[derive(Copy, Clone, PartialEq, Eq, Structural, Hash, Debug)]
pub enum PrimitiveFieldTypeParser {
    UInt(FieldDesc),
    Int(FieldDesc),
    String(FieldDesc),
    Real(FieldDesc),
    UEnum(FieldDesc),
    Enum(FieldDesc),
}

/// The reader of a primitive field type, when its layout is supported.
pub open spec fn prim_parser_of(ft: PrimitiveFieldType) -> Result<
    PrimitiveFieldTypeParser,
    FieldUnsupportedError,
> {
    match desc_of(ft.spec_size(), ft.spec_alignment()) {
        Err(e) => Err(e),
        Ok(d) => Ok(
            match ft {
                PrimitiveFieldType::UnsignedInteger(_) => PrimitiveFieldTypeParser::UInt(d),
                PrimitiveFieldType::SignedInteger(_) => PrimitiveFieldTypeParser::Int(d),
                PrimitiveFieldType::String => PrimitiveFieldTypeParser::String(d),
                PrimitiveFieldType::Real(_) => PrimitiveFieldTypeParser::Real(d),
                PrimitiveFieldType::UnsignedEnumeration(_) => PrimitiveFieldTypeParser::UEnum(d),
                PrimitiveFieldType::SignedEnumeration(_) => PrimitiveFieldTypeParser::Enum(d),
            },
        ),
    }
}

/// Attaches a decoded unsigned integer to a model.
pub open spec fn uint_model(r: Result<(u64, int), Error>) -> Result<(PrimitiveValueModel, int), Error> {
    match r {
        Ok((v, p)) => Ok((PrimitiveValueModel::UnsignedInteger(v, PreferredDisplayBase::Decimal), p)),
        Err(e) => Err(e),
    }
}

/// Attaches a decoded signed integer to a model.
pub open spec fn int_model(r: Result<(i64, int), Error>) -> Result<(PrimitiveValueModel, int), Error> {
    match r {
        Ok((v, p)) => Ok((PrimitiveValueModel::SignedInteger(v, PreferredDisplayBase::Decimal), p)),
        Err(e) => Err(e),
    }
}

impl PrimitiveFieldTypeParser {
    pub open spec fn spec_desc(self) -> FieldDesc {
        match self {
            PrimitiveFieldTypeParser::UInt(d) => d,
            PrimitiveFieldTypeParser::Int(d) => d,
            PrimitiveFieldTypeParser::String(d) => d,
            PrimitiveFieldTypeParser::Real(d) => d,
            PrimitiveFieldTypeParser::UEnum(d) => d,
            PrimitiveFieldTypeParser::Enum(d) => d,
        }
    }

    pub open spec fn spec_parse(self, src: Source, pos: int) -> Result<(PrimitiveValueModel, int), Error> {
        match self {
            PrimitiveFieldTypeParser::UInt(d) => uint_model(src.read_uint(pos, d.size, d.alignment)),
            PrimitiveFieldTypeParser::UEnum(d) => uint_model(src.read_uint(pos, d.size, d.alignment)),
            PrimitiveFieldTypeParser::Int(d) => int_model(src.read_int(pos, d.size, d.alignment)),
            PrimitiveFieldTypeParser::Enum(d) => int_model(src.read_int(pos, d.size, d.alignment)),
            PrimitiveFieldTypeParser::String(_) => match src.read_string(pos) {
                Ok((t, p)) => Ok((PrimitiveValueModel::String(t), p)),
                Err(e) => Err(e),
            },
            PrimitiveFieldTypeParser::Real(d) => if d.size == Size::Bits32 {
                match src.read_uint(pos, Size::Bits32, d.alignment) {
                    Ok((v, p)) => Ok((PrimitiveValueModel::F32(v as u32), p)),
                    Err(e) => Err(e),
                }
            } else if d.size == Size::Bits64 {
                match src.read_uint(pos, Size::Bits64, d.alignment) {
                    Ok((v, p)) => Ok((PrimitiveValueModel::F64(v), p)),
                    Err(e) => Err(e),
                }
            } else {
                Err(Error::InvalidFloatSize(d.size.spec_bits() as usize))
            },
        }
    }

    pub fn from_ft(ft: &PrimitiveFieldType) -> (r: Result<Self, FieldUnsupportedError>)
        ensures
            r == prim_parser_of(*ft),
    {
        let desc = FieldDesc::from_ft(ft)?;
        Ok(
            match ft {
                PrimitiveFieldType::UnsignedInteger(_) => PrimitiveFieldTypeParser::UInt(desc),
                PrimitiveFieldType::SignedInteger(_) => PrimitiveFieldTypeParser::Int(desc),
                PrimitiveFieldType::String => PrimitiveFieldTypeParser::String(desc),
                PrimitiveFieldType::Real(_) => PrimitiveFieldTypeParser::Real(desc),
                PrimitiveFieldType::UnsignedEnumeration(_) => PrimitiveFieldTypeParser::UEnum(desc),
                PrimitiveFieldType::SignedEnumeration(_) => PrimitiveFieldTypeParser::Enum(desc),
            },
        )
    }

    pub fn desc(&self) -> (r: &FieldDesc)
        ensures
            *r == self.spec_desc(),
    {
        match self {
            PrimitiveFieldTypeParser::UInt(t) => t,
            PrimitiveFieldTypeParser::Int(t) => t,
            PrimitiveFieldTypeParser::String(t) => t,
            PrimitiveFieldTypeParser::Real(t) => t,
            PrimitiveFieldTypeParser::UEnum(t) => t,
            PrimitiveFieldTypeParser::Enum(t) => t,
        }
    }

    pub fn parse(&self, r: &mut StreamReader) -> (res: Result<PrimitiveFieldValue, Error>)
        requires
            old(r).wf(),
        ensures
            final(r).wf(),
            final(r).source() == old(r).source(),
            final(r).pos() >= old(r).pos(),
            outcome(res, self.spec_parse(old(r).source(), old(r).pos()), final(r).pos()),
            res matches Err(Error::InvalidFloatSize(_)) ==> final(r).pos() == old(r).pos(),
    {
        match self {
            PrimitiveFieldTypeParser::UInt(d) => Ok(
                PrimitiveFieldValue::UnsignedInteger(
                    r.read_uint(d.size, d.alignment)?,
                    PreferredDisplayBase::Decimal,
                ),
            ),
            PrimitiveFieldTypeParser::UEnum(d) => Ok(
                PrimitiveFieldValue::UnsignedInteger(
                    r.read_uint(d.size, d.alignment)?,
                    PreferredDisplayBase::Decimal,
                ),
            ),
            PrimitiveFieldTypeParser::Int(d) => Ok(
                PrimitiveFieldValue::SignedInteger(
                    r.read_int(d.size, d.alignment)?,
                    PreferredDisplayBase::Decimal,
                ),
            ),
            PrimitiveFieldTypeParser::Enum(d) => Ok(
                PrimitiveFieldValue::SignedInteger(
                    r.read_int(d.size, d.alignment)?,
                    PreferredDisplayBase::Decimal,
                ),
            ),
            PrimitiveFieldTypeParser::String(_) => Ok(PrimitiveFieldValue::String(r.read_string()?)),
            PrimitiveFieldTypeParser::Real(d) => match d.size {
                Size::Bits32 => Ok(PrimitiveFieldValue::F32(r.read_u32(d.alignment)?)),
                Size::Bits64 => Ok(PrimitiveFieldValue::F64(r.read_uint(Size::Bits64, d.alignment)?)),
                _ => Err(Error::InvalidFloatSize(d.size.bits())),
            },
        }
    }
}

/// `s` in front of the list that `r` gives.
pub open spec fn prepend<T>(s: Seq<T>, r: Result<(Seq<T>, int), Error>) -> Result<(Seq<T>, int), Error> {
    match r {
        Ok((t, q)) => Ok((s + t, q)),
        Err(e) => Err(e),
    }
}

pub proof fn lemma_prepend<T>(acc: Seq<T>, v: T, r: Result<(Seq<T>, int), Error>)
    ensures
        prepend(acc, prepend(seq![v], r)) == prepend(acc.push(v), r),
{
    match r {
        Ok((t, q)) => {
            assert(acc + (seq![v] + t) =~= acc.push(v) + t);
        },
        Err(_) => {},
    }
    assert(acc + Seq::<T>::empty() =~= acc);
}

pub proof fn lemma_prepend_empty<T>(acc: Seq<T>, q: int, r: Result<(Seq<T>, int), Error>)
    ensures
        prepend(acc, Ok((Seq::<T>::empty(), q))) == Ok::<(Seq<T>, int), Error>((acc, q)),
        prepend(Seq::<T>::empty(), r) == r,
{
    assert(acc + Seq::<T>::empty() =~= acc);
    match r {
        Ok((t, _)) => {
            assert(Seq::<T>::empty() + t =~= t);
        },
        Err(_) => {},
    }
}

/// Reading `n` elements one after the other, each at its own alignment.
pub open spec fn spec_elems(p: PrimitiveFieldTypeParser, src: Source, pos: int, n: nat) -> Result<
    (Seq<PrimitiveValueModel>, int),
    Error,
>
    decreases n,
{
    if n == 0 {
        Ok((Seq::empty(), pos))
    } else {
        match p.spec_parse(src, pos) {
            Ok((v, q)) => prepend(seq![v], spec_elems(p, src, q, (n - 1) as nat)),
            Err(e) => Err(e),
        }
    }
}

/// Reads the value of a structure member: a primitive or an array of them.
#[derive(Copy, Clone, PartialEq, Eq, Structural, Hash, Debug)]
pub enum FieldTypeParser {
    Primitive(PrimitiveFieldTypeParser),
    StaticArray(usize, PrimitiveFieldTypeParser),
    DynamicArray(PrimitiveFieldTypeParser),
}

/// The reader of a member's field type, when its layout is supported.
pub open spec fn field_parser_of(ft: StructureMemberFieldType) -> Result<
    FieldTypeParser,
    FieldUnsupportedError,
> {
    match desc_of(ft.spec_size(), ft.spec_alignment()) {
        Err(e) => Err(e),
        Ok(d) => match ft {
            StructureMemberFieldType::UnsignedInteger(_) => Ok(
                FieldTypeParser::Primitive(PrimitiveFieldTypeParser::UInt(d)),
            ),
            StructureMemberFieldType::SignedInteger(_) => Ok(
                FieldTypeParser::Primitive(PrimitiveFieldTypeParser::Int(d)),
            ),
            StructureMemberFieldType::String => Ok(
                FieldTypeParser::Primitive(PrimitiveFieldTypeParser::String(d)),
            ),
            StructureMemberFieldType::Real(_) => Ok(
                FieldTypeParser::Primitive(PrimitiveFieldTypeParser::Real(d)),
            ),
            StructureMemberFieldType::UnsignedEnumeration(_) => Ok(
                FieldTypeParser::Primitive(PrimitiveFieldTypeParser::UEnum(d)),
            ),
            StructureMemberFieldType::SignedEnumeration(_) => Ok(
                FieldTypeParser::Primitive(PrimitiveFieldTypeParser::Enum(d)),
            ),
            StructureMemberFieldType::StaticArray(t) => match prim_parser_of(t.element_field_type) {
                Ok(p) => Ok(FieldTypeParser::StaticArray(t.length, p)),
                Err(e) => Err(e),
            },
            StructureMemberFieldType::DynamicArray(t) => match prim_parser_of(t.element_field_type) {
                Ok(p) => Ok(FieldTypeParser::DynamicArray(p)),
                Err(e) => Err(e),
            },
        },
    }
}

impl FieldTypeParser {
    pub open spec fn spec_desc(self) -> FieldDesc {
        match self {
            FieldTypeParser::Primitive(p) => p.spec_desc(),
            FieldTypeParser::StaticArray(_, p) => p.spec_desc(),
            FieldTypeParser::DynamicArray(p) => p.spec_desc(),
        }
    }

    /// Aligning to the elements, then reading `n` of them.
    pub open spec fn spec_array(p: PrimitiveFieldTypeParser, src: Source, pos: int, n: nat) -> Result<
        (FieldValueModel, int),
        Error,
    > {
        match src.align_pos(pos, p.spec_desc().alignment) {
            Ok((_, q)) => match spec_elems(p, src, q, n) {
                Ok((s, q2)) => Ok((FieldValueModel::Array(s), q2)),
                Err(e) => Err(e),
            },
            Err(e) => Err(e),
        }
    }

    pub open spec fn spec_parse(self, src: Source, pos: int) -> Result<(FieldValueModel, int), Error> {
        match self {
            FieldTypeParser::Primitive(p) => match p.spec_parse(src, pos) {
                Ok((v, q)) => Ok((FieldValueModel::Primitive(v), q)),
                Err(e) => Err(e),
            },
            FieldTypeParser::StaticArray(len, p) => FieldTypeParser::spec_array(
                p,
                src,
                pos,
                len as nat,
            ),
            FieldTypeParser::DynamicArray(p) => match src.read_uint(pos, Size::Bits32, Size::Bits8) {
                Ok((n, q)) => FieldTypeParser::spec_array(p, src, q, n as u32 as nat),
                Err(e) => Err(e),
            },
        }
    }

    pub fn from_ft(ft: &StructureMemberFieldType) -> (r: Result<Self, FieldUnsupportedError>)
        ensures
            r == field_parser_of(*ft),
    {
        let desc = FieldDesc::from_ft(ft)?;
        match ft {
            StructureMemberFieldType::UnsignedInteger(_) => Ok(
                FieldTypeParser::Primitive(PrimitiveFieldTypeParser::UInt(desc)),
            ),
            StructureMemberFieldType::SignedInteger(_) => Ok(
                FieldTypeParser::Primitive(PrimitiveFieldTypeParser::Int(desc)),
            ),
            StructureMemberFieldType::String => Ok(
                FieldTypeParser::Primitive(PrimitiveFieldTypeParser::String(desc)),
            ),
            StructureMemberFieldType::Real(_) => Ok(
                FieldTypeParser::Primitive(PrimitiveFieldTypeParser::Real(desc)),
            ),
            StructureMemberFieldType::UnsignedEnumeration(_) => Ok(
                FieldTypeParser::Primitive(PrimitiveFieldTypeParser::UEnum(desc)),
            ),
            StructureMemberFieldType::SignedEnumeration(_) => Ok(
                FieldTypeParser::Primitive(PrimitiveFieldTypeParser::Enum(desc)),
            ),
            StructureMemberFieldType::StaticArray(t) => Ok(
                FieldTypeParser::StaticArray(
                    t.length,
                    PrimitiveFieldTypeParser::from_ft(&t.element_field_type)?,
                ),
            ),
            StructureMemberFieldType::DynamicArray(t) => Ok(
                FieldTypeParser::DynamicArray(
                    PrimitiveFieldTypeParser::from_ft(&t.element_field_type)?,
                ),
            ),
        }
    }

    pub fn desc(&self) -> (r: &FieldDesc)
        ensures
            *r == self.spec_desc(),
    {
        match self {
            FieldTypeParser::Primitive(t) => t.desc(),
            FieldTypeParser::StaticArray(_len, t) => t.desc(),
            FieldTypeParser::DynamicArray(t) => t.desc(),
        }
    }

    fn parse_elems(p: &PrimitiveFieldTypeParser, r: &mut StreamReader, len: usize) -> (res: Result<
        FieldValue,
        Error,
    >)
        requires
            old(r).wf(),
        ensures
            final(r).wf(),
            final(r).source() == old(r).source(),
            final(r).pos() >= old(r).pos(),
            outcome(res, FieldTypeParser::spec_array(*p, old(r).source(), old(r).pos(), len as nat), final(r).pos()),
    {
        r.align_to(p.desc().alignment)?;
        let ghost src = r.source();
        let ghost q0 = r.pos();
        let mut arr: Vec<PrimitiveFieldValue> = Vec::new();
        let mut i: usize = 0;
        proof {
            lemma_prepend_empty(prims_view(arr@), q0, spec_elems(*p, src, q0, len as nat));
            assert(prims_view(arr@) =~= Seq::<PrimitiveValueModel>::empty());
        }
        while i < len
            invariant
                r.wf(),
                r.source() == src,
                src == old(r).source(),
                r.pos() >= q0,
                q0 >= old(r).pos(),
                i <= len,
                FieldTypeParser::spec_array(*p, src, old(r).pos(), len as nat) == (match prepend(
                    prims_view(arr@),
                    spec_elems(*p, src, r.pos(), (len - i) as nat),
                ) {
                    Ok((s, q)) => Ok((FieldValueModel::Array(s), q)),
                    Err(e) => Err(e),
                }),
            decreases len - i,
        {
            let ghost cur = r.pos();
            let v = p.parse(r)?;
            proof {
                assert(prims_view(arr@.push(v)) =~= prims_view(arr@).push(v@));
                lemma_prepend(prims_view(arr@), v@, spec_elems(*p, src, r.pos(), (len - i - 1) as nat));
            }
            arr.push(v);
            i = i + 1;
        }
        proof {
            lemma_prepend_empty(prims_view(arr@), r.pos(), spec_elems(*p, src, r.pos(), 0));
        }
        Ok(FieldValue::Array(arr))
    }

    pub fn parse(&self, r: &mut StreamReader) -> (res: Result<FieldValue, Error>)
        requires
            old(r).wf(),
        ensures
            final(r).wf(),
            final(r).source() == old(r).source(),
            final(r).pos() >= old(r).pos(),
            outcome(res, self.spec_parse(old(r).source(), old(r).pos()), final(r).pos()),
    {
        match self {
            FieldTypeParser::Primitive(p) => Ok(FieldValue::Primitive(p.parse(r)?)),
            FieldTypeParser::StaticArray(len, p) => FieldTypeParser::parse_elems(p, r, *len),
            FieldTypeParser::DynamicArray(p) => {
                // The length is always a byte-aligned 32 bit unsigned integer.
                let len = r.read_u32(Size::Bits8)?;
                FieldTypeParser::parse_elems(p, r, len as usize)
            },
        }
    }
}

/// Whether one entry of `seqs` holds `v`.
pub open spec fn mapping_holds(seqs: Seq<EnumerationFieldTypeMappingSequence>, v: i64) -> bool {
    exists|j: int| 0 <= j < seqs.len() && (#[trigger] seqs[j]).spec_contains(v)
}

/// The first label, in list order, whose values hold `v`.
pub open spec fn label_of(
    maps: Seq<(String, Vec<EnumerationFieldTypeMappingSequence>)>,
    v: i64,
) -> Option<Seq<char>>
    decreases maps.len(),
{
    if maps.len() == 0 {
        None
    } else if mapping_holds(maps[0].1@, v) {
        Some(maps[0].0@)
    } else {
        label_of(maps.drop_first(), v)
    }
}

/// The labels of a member's field type, if it is an enumeration.
pub open spec fn enum_mappings_of(ft: StructureMemberFieldType) -> Option<
    Seq<(String, Vec<EnumerationFieldTypeMappingSequence>)>,
> {
    match ft {
        StructureMemberFieldType::UnsignedEnumeration(t) => Some(t.mappings@),
        StructureMemberFieldType::SignedEnumeration(t) => Some(t.mappings@),
        _ => None,
    }
}

/// Whether two lists of labels hold the same labels with the same values.
pub open spec fn same_mappings(
    a: Seq<(String, Vec<EnumerationFieldTypeMappingSequence>)>,
    b: Seq<(String, Vec<EnumerationFieldTypeMappingSequence>)>,
) -> bool {
    a.len() == b.len() && forall|i: int|
        0 <= i < a.len() ==> (#[trigger] a[i]).0@ == b[i].0@ && a[i].1@ == b[i].1@
}

/// The labels of an enumeration, in the order in which a lookup tries them.
#[derive(Clone, Debug)]
pub struct EnumerationMappings(pub Vec<(String, Vec<EnumerationFieldTypeMappingSequence>)>);

impl EnumerationMappings {
    pub open spec fn spec_label(&self, v: i64) -> Option<Seq<char>> {
        label_of(self.0@, v)
    }

    /// The labels of an enumeration member's field type; `None` for any other type.
    pub fn from_struct_ft(ft: &StructureMemberFieldType) -> (r: Option<Self>)
        ensures
            r is Some <==> enum_mappings_of(*ft) is Some,
            r matches Some(m) ==> same_mappings(m.0@, enum_mappings_of(*ft)->Some_0),
    {
        match ft {
            StructureMemberFieldType::UnsignedEnumeration(t) => Some(
                EnumerationMappings(copy_mappings(&t.mappings)),
            ),
            StructureMemberFieldType::SignedEnumeration(t) => Some(
                EnumerationMappings(copy_mappings(&t.mappings)),
            ),
            _ => None,
        }
    }

    /// The first label whose values hold `v`: the labels are tried in order,
    /// and a label holds `v` when one of its entries is `v` or a range that
    /// contains it. `None` when no label does.
    pub fn label(&self, v: i64) -> (r: Option<String>)
        ensures
            opt_str_view(r) == self.spec_label(v),
            r matches Some(l) ==> exists|i: int|
                0 <= i < self.0@.len() && l@ == (#[trigger] self.0@[i]).0@ && mapping_holds(
                    self.0@[i].1@,
                    v,
                ) && forall|k: int| 0 <= k < i ==> !mapping_holds((#[trigger] self.0@[k]).1@, v),
            r is None <==> forall|i: int|
                0 <= i < self.0@.len() ==> !mapping_holds((#[trigger] self.0@[i]).1@, v),
    {
        let maps = &self.0;
        let mut i: usize = 0;
        assert(maps@.subrange(0, maps@.len() as int) =~= maps@);
        while i < maps.len()
            invariant
                maps == &self.0,
                i <= maps@.len(),
                label_of(maps@, v) == label_of(maps@.subrange(i as int, maps@.len() as int), v),
                forall|k: int| 0 <= k < i ==> !mapping_holds((#[trigger] maps@[k]).1@, v),
            decreases maps@.len() - i,
        {
            let seqs = &maps[i].1;
            let mut j: usize = 0;
            let mut found = false;
            while j < seqs.len() && !found
                invariant
                    i < maps@.len(),
                    maps == &self.0,
                    seqs == &maps@[i as int].1,
                    label_of(maps@, v) == label_of(maps@.subrange(i as int, maps@.len() as int), v),
                    forall|k: int| 0 <= k < i ==> !mapping_holds((#[trigger] maps@[k]).1@, v),
                    j <= seqs@.len(),
                    found ==> mapping_holds(seqs@, v),
                    !found ==> forall|jj: int| 0 <= jj < j ==> !(#[trigger] seqs@[jj]).spec_contains(v),
                decreases seqs@.len() - j + (if found { 0int } else { 1int }),
            {
                if seqs[j].contains(v) {
                    found = true;
                } else {
                    j = j + 1;
                }
            }
            let ghost rest = maps@.subrange(i as int, maps@.len() as int);
            assert(rest[0] == maps@[i as int]);
            if found {
                let l = maps[i].0.clone();
                assert(seqs@ == maps@[i as int].1@);
                assert(label_of(rest, v) == Some(rest[0].0@));
                assert(l@ == self.0@[i as int].0@ && mapping_holds(self.0@[i as int].1@, v));
                return Some(l);
            }
            assert(rest.drop_first() =~= maps@.subrange(i + 1, maps@.len() as int));
            assert(!mapping_holds(maps@[i as int].1@, v));
            i = i + 1;
        }
        None
    }
}

fn copy_mappings(m: &Vec<(String, Vec<EnumerationFieldTypeMappingSequence>)>) -> (r: Vec<
    (String, Vec<EnumerationFieldTypeMappingSequence>),
>)
    ensures
        same_mappings(r@, m@),
{
    let mut r: Vec<(String, Vec<EnumerationFieldTypeMappingSequence>)> = Vec::new();
    let mut i: usize = 0;
    while i < m.len()
        invariant
            i <= m@.len(),
            r@.len() == i,
            forall|k: int|
                0 <= k < i ==> (#[trigger] r@[k]).0@ == m@[k].0@ && r@[k].1@ == m@[k].1@,
        decreases m@.len() - i,
    {
        let mut seqs: Vec<EnumerationFieldTypeMappingSequence> = Vec::new();
        let mut j: usize = 0;
        while j < m[i].1.len()
            invariant
                i < m@.len(),
                j <= m@[i as int].1@.len(),
                seqs@ == m@[i as int].1@.take(j as int),
            decreases m@[i as int].1@.len() - j,
        {
            seqs.push(m[i].1[j]);
            assert(m@[i as int].1@.take(j + 1) =~= m@[i as int].1@.take(j as int).push(m@[i as int].1@[j as int]));
            j = j + 1;
        }
        assert(m@[i as int].1@.take(j as int) =~= m@[i as int].1@);
        r.push((m[i].0.clone(), seqs));
        i = i + 1;
    }
    r
}

/// Reads one named member of a structure, with its display base and, for an
/// enumeration, its label.
#[derive(Clone, Debug)]
pub struct EventPayloadMemberParser {
    pub member_name: String,
    pub preferred_display_base: Option<PreferredDisplayBase>,
    pub enum_mappings: Option<EnumerationMappings>,
    pub value: FieldTypeParser,
}

/// What a structure's members give: each name with its value.
pub open spec fn outcome_named(
    r: Result<Vec<(String, FieldValue)>, Error>,
    s: Result<(Seq<(Seq<char>, FieldValueModel)>, int), Error>,
    pos: int,
) -> bool {
    match s {
        Ok((v, p)) => r is Ok && named_view(r->Ok_0@) == v && pos == p,
        Err(e) => r is Err && r->Err_0 == e,
    }
}

impl EventPayloadMemberParser {
    /// The display base given to integers: the member's own, else decimal.
    pub open spec fn spec_base(self) -> PreferredDisplayBase {
        match self.preferred_display_base {
            Some(b) => b,
            None => PreferredDisplayBase::Decimal,
        }
    }

    /// A decoded value with the member's display base and, for an
    /// enumeration, its value as a signed integer and its label.
    pub open spec fn spec_finish(self, v: FieldValueModel) -> FieldValueModel {
        let based = match v {
            FieldValueModel::Primitive(PrimitiveValueModel::UnsignedInteger(x, _)) => FieldValueModel::Primitive(
                PrimitiveValueModel::UnsignedInteger(x, self.spec_base()),
            ),
            FieldValueModel::Primitive(PrimitiveValueModel::SignedInteger(x, _)) => FieldValueModel::Primitive(
                PrimitiveValueModel::SignedInteger(x, self.spec_base()),
            ),
            other => other,
        };
        match self.enum_mappings {
            Some(m) => match based {
                FieldValueModel::Primitive(PrimitiveValueModel::UnsignedInteger(x, b)) => FieldValueModel::Primitive(
                    PrimitiveValueModel::Enumeration(x as i64, b, m.spec_label(x as i64)),
                ),
                FieldValueModel::Primitive(PrimitiveValueModel::SignedInteger(x, b)) => FieldValueModel::Primitive(
                    PrimitiveValueModel::Enumeration(x, b, m.spec_label(x)),
                ),
                other => other,
            },
            None => based,
        }
    }

    pub open spec fn spec_parse(self, src: Source, pos: int) -> Result<(FieldValueModel, int), Error> {
        match self.value.spec_parse(src, pos) {
            Ok((v, q)) => Ok((self.spec_finish(v), q)),
            Err(e) => Err(e),
        }
    }

    pub fn parse(&self, r: &mut StreamReader) -> (res: Result<FieldValue, Error>)
        requires
            old(r).wf(),
        ensures
            final(r).wf(),
            final(r).source() == old(r).source(),
            final(r).pos() >= old(r).pos(),
            outcome(res, self.spec_parse(old(r).source(), old(r).pos()), final(r).pos()),
    {
        let base = match self.preferred_display_base {
            Some(b) => b,
            None => PreferredDisplayBase::Decimal,
        };
        // Parse the value, add the preferred display base, if any
        let val = match self.value.parse(r)? {
            FieldValue::Primitive(PrimitiveFieldValue::UnsignedInteger(v, _)) => FieldValue::Primitive(
                PrimitiveFieldValue::UnsignedInteger(v, base),
            ),
            FieldValue::Primitive(PrimitiveFieldValue::SignedInteger(v, _)) => FieldValue::Primitive(
                PrimitiveFieldValue::SignedInteger(v, base),
            ),
            val => val,
        };
        // Attach the enumeration label, if any; enumerations are always signed
        match &self.enum_mappings {
            Some(mappings) => match val {
                FieldValue::Primitive(PrimitiveFieldValue::UnsignedInteger(v, pdb)) => Ok(
                    FieldValue::Primitive(
                        PrimitiveFieldValue::Enumeration(v as i64, pdb, mappings.label(v as i64)),
                    ),
                ),
                FieldValue::Primitive(PrimitiveFieldValue::SignedInteger(v, pdb)) => Ok(
                    FieldValue::Primitive(PrimitiveFieldValue::Enumeration(v, pdb, mappings.label(v))),
                ),
                val => Ok(val),
            },
            None => Ok(val),
        }
    }
}

/// Reading `ms` one after the other.
pub open spec fn spec_members(ms: Seq<EventPayloadMemberParser>, src: Source, pos: int) -> Result<
    (Seq<(Seq<char>, FieldValueModel)>, int),
    Error,
>
    decreases ms.len(),
{
    if ms.len() == 0 {
        Ok((Seq::empty(), pos))
    } else {
        match ms[0].spec_parse(src, pos) {
            Ok((v, q)) => prepend(seq![(ms[0].member_name@, v)], spec_members(ms.drop_first(), src, q)),
            Err(e) => Err(e),
        }
    }
}

/// Reads each of `ms` in order, each at its own alignment.
pub fn parse_members(ms: &Vec<EventPayloadMemberParser>, r: &mut StreamReader) -> (res: Result<
    Vec<(String, FieldValue)>,
    Error,
>)
    requires
        old(r).wf(),
    ensures
        final(r).wf(),
        final(r).source() == old(r).source(),
        final(r).pos() >= old(r).pos(),
        outcome_named(res, spec_members(ms@, old(r).source(), old(r).pos()), final(r).pos()),
{
    let ghost src = r.source();
    let ghost pos0 = r.pos();
    let mut out: Vec<(String, FieldValue)> = Vec::new();
    let mut i: usize = 0;
    proof {
        lemma_prepend_empty(named_view(out@), pos0, spec_members(ms@, src, pos0));
        assert(named_view(out@) =~= Seq::<(Seq<char>, FieldValueModel)>::empty());
        assert(ms@.subrange(0, ms@.len() as int) =~= ms@);
    }
    while i < ms.len()
        invariant
            r.wf(),
            r.source() == src,
            src == old(r).source(),
            pos0 == old(r).pos(),
            r.pos() >= pos0,
            i <= ms@.len(),
            spec_members(ms@, src, pos0) == prepend(
                named_view(out@),
                spec_members(ms@.subrange(i as int, ms@.len() as int), src, r.pos()),
            ),
        decreases ms@.len() - i,
    {
        let ghost rest = ms@.subrange(i as int, ms@.len() as int);
        assert(rest[0] == ms@[i as int]);
        assert(rest.drop_first() =~= ms@.subrange(i + 1, ms@.len() as int));
        let m = &ms[i];
        let v = m.parse(r)?;
        let name = m.member_name.clone();
        proof {
            assert(named_view(out@.push((name, v))) =~= named_view(out@).push((name@, v@)));
            lemma_prepend(
                named_view(out@),
                (name@, v@),
                spec_members(ms@.subrange(i + 1, ms@.len() as int), src, r.pos()),
            );
        }
        out.push((name, v));
        i = i + 1;
    }
    proof {
        lemma_prepend_empty(named_view(out@), r.pos(), spec_members(ms@, src, pos0));
    }
    Ok(out)
}

/// Reads a structure: aligns to it, then reads its members.
#[derive(Clone, Debug)]
pub struct EventPayloadParser {
    pub alignment: Size,
    pub members: Vec<EventPayloadMemberParser>,
}

impl EventPayloadParser {
    pub open spec fn spec_parse(self, src: Source, pos: int) -> Result<
        (Seq<(Seq<char>, FieldValueModel)>, int),
        Error,
    > {
        match src.align_pos(pos, self.alignment) {
            Ok((_, q)) => spec_members(self.members@, src, q),
            Err(e) => Err(e),
        }
    }

    pub fn parse(&self, r: &mut StreamReader) -> (res: Result<Vec<(String, FieldValue)>, Error>)
        requires
            old(r).wf(),
        ensures
            final(r).wf(),
            final(r).source() == old(r).source(),
            final(r).pos() >= old(r).pos(),
            outcome_named(res, self.spec_parse(old(r).source(), old(r).pos()), final(r).pos()),
    {
        r.align_to(self.alignment)?;
        parse_members(&self.members, r)
    }
}

/// Reading an optional structure; an absent one gives no members.
pub open spec fn spec_opt_payload(p: Option<EventPayloadParser>, src: Source, pos: int) -> Result<
    (Seq<(Seq<char>, FieldValueModel)>, int),
    Error,
> {
    match p {
        Some(q) => q.spec_parse(src, pos),
        None => Ok((Seq::empty(), pos)),
    }
}

pub fn parse_opt_payload(p: &Option<EventPayloadParser>, r: &mut StreamReader) -> (res: Result<
    Vec<(String, FieldValue)>,
    Error,
>)
    requires
        old(r).wf(),
    ensures
        final(r).wf(),
        final(r).source() == old(r).source(),
        final(r).pos() >= old(r).pos(),
        outcome_named(res, spec_opt_payload(*p, old(r).source(), old(r).pos()), final(r).pos()),
{
    match p {
        Some(q) => q.parse(r),
        None => {
            let out: Vec<(String, FieldValue)> = Vec::new();
            assert(named_view(out@) =~= Seq::<(Seq<char>, FieldValueModel)>::empty());
            Ok(out)
        },
    }
}

/// The layout of the packet header, and the bit position just after it.
#[derive(Clone, Debug)]
pub struct PacketHeaderParser {
    pub magic: Option<UIntParser>,
    pub uuid: Option<UuidParser>,
    pub stream_id: UIntParser,
    pub alignment: Size,
    pub wire_size_hint: AlignedCursor,
}

/// The position after `desc`'s field, read at `pos`.
pub open spec fn after_field(pos: int, desc: FieldDesc) -> int {
    align_up(pos, desc.alignment.spec_bits()) + desc.size.spec_bits()
}

/// The position after an optional field read at `pos`.
pub open spec fn after_opt_field(pos: int, p: Option<UIntParser>) -> int {
    match p {
        Some(u) => after_field(pos, u.0),
        None => pos,
    }
}

/// The position just after a packet header of this layout.
pub open spec fn header_end(
    magic: Option<UIntParser>,
    uuid: bool,
    stream_id: UIntParser,
    alignment: Size,
) -> int {
    let p0 = align_up(0, alignment.spec_bits());
    let p1 = after_opt_field(p0, magic);
    let p2 = if uuid {
        align_up(p1, 8) + 128
    } else {
        p1
    };
    after_field(p2, stream_id.0)
}

impl PacketHeaderParser {
    pub open spec fn spec_end(self) -> int {
        header_end(self.magic, self.uuid is Some, self.stream_id, self.alignment)
    }

    pub open spec fn wf(self) -> bool {
        &&& self.wire_size_hint.wf()
        &&& self.wire_size_hint.bits() == self.spec_end()
    }

    pub fn new(
        magic: Option<UIntParser>,
        uuid: Option<UuidParser>,
        stream_id: UIntParser,
        alignment: Size,
    ) -> (r: Self)
        ensures
            r.magic == magic,
            r.uuid == uuid,
            r.stream_id == stream_id,
            r.alignment == alignment,
            r.wf(),
            r.wire_size_hint.bits() <= 512,
    {
        let mut wire_size_hint = AlignedCursor::new();
        proof {
            lemma_align_up(0, alignment.spec_bits());
        }
        // Align for the packet header structure
        wire_size_hint.align_to(alignment);
        // Add the fields
        if let Some(f) = &magic {
            proof {
                lemma_align_up(wire_size_hint.bits(), f.0.alignment.spec_bits());
            }
            wire_size_hint.aligned_increment(f.desc());
        }
        if uuid.is_some() {
            // A byte-packed array of 16 bytes
            proof {
                lemma_align_up(wire_size_hint.bits(), 8);
            }
            wire_size_hint.align_to(Size::Bits8);
            wire_size_hint.increment(Size::Bits64);
            wire_size_hint.increment(Size::Bits64);
        }
        proof {
            lemma_align_up(wire_size_hint.bits(), stream_id.0.alignment.spec_bits());
        }
        wire_size_hint.aligned_increment(stream_id.desc());
        PacketHeaderParser { magic, uuid, stream_id, alignment, wire_size_hint }
    }
}

/// The parts of a packet context's layout, before its end is computed.
#[derive(Clone, Debug)]
pub struct PacketContextParserArgs {
    pub packet_size: UIntParser,
    pub content_size: UIntParser,
    pub beginning_timestamp: Option<UIntParser>,
    pub end_timestamp: Option<UIntParser>,
    pub events_discarded: Option<UIntParser>,
    pub sequence_number: Option<UIntParser>,
    pub extra_members: Vec<EventPayloadMemberParser>,
    pub alignment: Size,
}

/// The layout of a stream's packet context, and the bit position just after it.
#[derive(Clone, Debug)]
pub struct PacketContextParser {
    pub packet_size: UIntParser,
    pub content_size: UIntParser,
    pub beginning_timestamp: Option<UIntParser>,
    pub end_timestamp: Option<UIntParser>,
    pub events_discarded: Option<UIntParser>,
    pub sequence_number: Option<UIntParser>,
    pub extra_members: Vec<EventPayloadMemberParser>,
    pub alignment: Size,
    pub wire_size_hint: AlignedCursor,
}

/// The most extra members a packet context may have: each adds at most 128
/// bits to the context's size, which must stay below `MAX_CURSOR_BITS`.
pub const MAX_EXTRA_MEMBERS: usize = MAX_CURSOR_BITS / 256;

/// The position after `ms`, each counted at its element's width and alignment.
pub open spec fn members_end(pos: int, ms: Seq<EventPayloadMemberParser>) -> int
    decreases ms.len(),
{
    if ms.len() == 0 {
        pos
    } else {
        members_end(after_field(pos, ms[0].value.spec_desc()), ms.drop_first())
    }
}

/// The position after the feature fields of a packet context read from `pos`.
pub open spec fn context_fields_end(
    pos: int,
    alignment: Size,
    packet_size: UIntParser,
    content_size: UIntParser,
    beginning_timestamp: Option<UIntParser>,
    end_timestamp: Option<UIntParser>,
    events_discarded: Option<UIntParser>,
    sequence_number: Option<UIntParser>,
) -> int {
    let p0 = align_up(pos, alignment.spec_bits());
    let p1 = after_field(p0, packet_size.0);
    let p2 = after_field(p1, content_size.0);
    let p3 = after_opt_field(p2, beginning_timestamp);
    let p4 = after_opt_field(p3, end_timestamp);
    let p5 = after_opt_field(p4, events_discarded);
    after_opt_field(p5, sequence_number)
}

fn add_opt_field(c: &mut AlignedCursor, p: &Option<UIntParser>)
    requires
        old(c).wf(),
        old(c).bits() + 128 <= MAX_CURSOR_BITS,
    ensures
        final(c).wf(),
        final(c).bits() == after_opt_field(old(c).bits(), *p),
        final(c).bits() <= old(c).bits() + 128,
{
    if let Some(f) = p {
        proof {
            lemma_align_up(c.bits(), f.0.alignment.spec_bits());
        }
        c.aligned_increment(f.desc());
    }
}

impl PacketContextParser {
    /// The position just after a packet context read from `pos`.
    pub open spec fn spec_end(self, pos: int) -> int {
        members_end(
            context_fields_end(
                pos,
                self.alignment,
                self.packet_size,
                self.content_size,
                self.beginning_timestamp,
                self.end_timestamp,
                self.events_discarded,
                self.sequence_number,
            ),
            self.extra_members@,
        )
    }

    pub fn new(args: PacketContextParserArgs, packet_header_cursor: &AlignedCursor) -> (r: Self)
        requires
            packet_header_cursor.wf(),
            packet_header_cursor.bits() <= 512,
            args.extra_members@.len() <= MAX_EXTRA_MEMBERS,
        ensures
            r.packet_size == args.packet_size,
            r.content_size == args.content_size,
            r.beginning_timestamp == args.beginning_timestamp,
            r.end_timestamp == args.end_timestamp,
            r.events_discarded == args.events_discarded,
            r.sequence_number == args.sequence_number,
            r.extra_members@ == args.extra_members@,
            r.alignment == args.alignment,
            r.wire_size_hint.wf(),
            r.wire_size_hint.bits() == r.spec_end(packet_header_cursor.bits()),
    {
        let mut wire_size_hint = *packet_header_cursor;
        proof {
            lemma_align_up(wire_size_hint.bits(), args.alignment.spec_bits());
        }
        // Align for the packet context structure
        wire_size_hint.align_to(args.alignment);
        // Add the feature fields
        proof {
            lemma_align_up(wire_size_hint.bits(), args.packet_size.0.alignment.spec_bits());
        }
        wire_size_hint.aligned_increment(args.packet_size.desc());
        proof {
            lemma_align_up(wire_size_hint.bits(), args.content_size.0.alignment.spec_bits());
        }
        wire_size_hint.aligned_increment(args.content_size.desc());
        add_opt_field(&mut wire_size_hint, &args.beginning_timestamp);
        add_opt_field(&mut wire_size_hint, &args.end_timestamp);
        add_opt_field(&mut wire_size_hint, &args.events_discarded);
        add_opt_field(&mut wire_size_hint, &args.sequence_number);
        // Add the extra members
        let ghost fields_end = wire_size_hint.bits();
        let ghost ms = args.extra_members@;
        let mut i: usize = 0;
        assert(ms.subrange(0, ms.len() as int) =~= ms);
        while i < args.extra_members.len()
            invariant
                ms == args.extra_members@,
                ms.len() <= MAX_EXTRA_MEMBERS,
                i <= ms.len(),
                wire_size_hint.wf(),
                wire_size_hint.bits() <= 2048 + 128 * i,
                members_end(fields_end, ms) == members_end(
                    wire_size_hint.bits(),
                    ms.subrange(i as int, ms.len() as int),
                ),
            decreases ms.len() - i,
        {
            let ghost rest = ms.subrange(i as int, ms.len() as int);
            assert(rest[0] == ms[i as int]);
            assert(rest.drop_first() =~= ms.subrange(i + 1, ms.len() as int));
            proof {
                lemma_align_up(wire_size_hint.bits(), ms[i as int].value.spec_desc().alignment.spec_bits());
            }
            wire_size_hint.aligned_increment(args.extra_members[i].value.desc());
            i = i + 1;
        }
        PacketContextParser {
            packet_size: args.packet_size,
            content_size: args.content_size,
            beginning_timestamp: args.beginning_timestamp,
            end_timestamp: args.end_timestamp,
            events_discarded: args.events_discarded,
            sequence_number: args.sequence_number,
            extra_members: args.extra_members,
            alignment: args.alignment,
            wire_size_hint,
        }
    }
}

/// The layout of an event header.
#[derive(Copy, Clone, PartialEq, Eq, Structural, Hash, Debug)]
pub struct EventHeaderParser {
    pub event_id: UIntParser,
    pub timestamp: UIntParser,
    pub alignment: Size,
}

/// What the plan knows of one event record type.
#[derive(Clone, Debug)]
pub struct EventParser {
    pub event_name: String,
    pub log_level: Option<i32>,
    pub specific_context: Option<EventPayloadParser>,
    pub payload: Option<EventPayloadParser>,
}

/// What the plan knows of one data stream type; its event record types
/// are listed by event ID.
#[derive(Clone, Debug)]
pub struct StreamParser {
    pub stream_name: String,
    pub clock_name: Option<String>,
    pub clock_type: Option<ClockType>,
    pub packet_context: PacketContextParser,
    pub event_header: EventHeaderParser,
    pub common_context: Option<EventPayloadParser>,
    pub events: Vec<EventParser>,
}

} // verus!
