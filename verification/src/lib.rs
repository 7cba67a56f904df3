//! A foundational bit-level data type and a bit-extraction component.
//!
//! `Bit` is a two-valued logical unit with a complete boolean algebra,
//! numeric conversions, and round-trippable textual parsing and formatting.
//! `BitReader` adapts any byte-producing source into a sequential source of
//! individual bits, most-significant bit first.

pub mod bit;
pub mod bit_reader;

pub use bit::Bit;
pub use bit::ParseBitError;
pub use bit_reader::BitOrder;
pub use bit_reader::BitReader;
pub use bit_reader::ByteSource;
pub use bit_reader::MemReader;
pub use bit_reader::ScriptedSource;
pub use bit_reader::SourceEvent;
