use crate::parser::types::FieldUnsupportedError;
use crate::types::{EventId, StreamId};
use vstd::prelude::*;

verus! {

/// How reading the byte source failed.
#[derive(Copy, Clone, PartialEq, Eq, Structural, Hash, Debug)]
pub enum IoErrorKind {
    /// The source ended before the field being read.
    UnexpectedEof,
    /// The sizes that a packet gives of itself contradict what was read.
    InvalidData,
}

/// Everything that can go wrong while planning or decoding.
#[derive(Clone, PartialEq, Eq, Hash, Debug)]
pub enum Error {
    /// A real field whose width is neither 32 nor 64 bits.
    InvalidFloatSize(usize),
    /// A field type at the given schema path with an unsupported width or alignment.
    UnsupportedFieldType(String, usize, usize),
    /// A structure at the given schema path whose alignment is not supported.
    UnsupportedAlignment(String),
    /// A packet names a stream that the schema does not define.
    UndefinedStreamId(StreamId),
    /// An event names an event record type that its stream does not define.
    UndefinedEventId(EventId),
    /// The byte source could not give what was asked of it.
    Io(IoErrorKind),
}

impl Error {
    pub fn unsupported_ft(f: &str, ft: FieldUnsupportedError) -> (r: Self)
        ensures
            r matches Error::UnsupportedFieldType(p, size, alignment) && p@ == f@ && size == ft.0
                && alignment == ft.1,
    {
        Error::UnsupportedFieldType(f.to_owned(), ft.0, ft.1)
    }

    pub fn unsupported_alignment(f: &str) -> (r: Self)
        ensures
            r matches Error::UnsupportedAlignment(p) && p@ == f@,
    {
        Error::UnsupportedAlignment(f.to_owned())
    }
}

} // verus!
