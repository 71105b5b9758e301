//! A decoder for the binary CTF packet streams written by barectf tracers.
//!
//! A schema (`config`) is compiled once into a plan (`parser::Parser`), which
//! then decodes packets either from a complete byte slice or incrementally
//! from a growing buffer (`parser::PacketDecoder`).
use vstd::prelude::*;

pub use crate::error::Error;
pub use crate::parser::{PacketDecoder, Parser};

pub mod config;
pub mod error;
pub mod parser;
pub mod types;

verus! {

} // verus!
