//! Decoding of IBM code page 437 byte data into Unicode text.
//!
//! Code page 437 is the original PC character set: its low half is ASCII,
//! its high half holds accented letters, Greek letters, box-drawing glyphs
//! and symbols. Every byte value stands for exactly one Unicode scalar, so
//! decoding is total and cannot fail. The [`FromCp437`] trait converts a
//! borrowed byte slice (zero-copy when the bytes are pure ASCII) or an owned
//! byte buffer into the text those bytes stand for.

pub mod decode;
pub mod table;

pub use decode::all_ascii;
pub use decode::decode_bytes;
pub use decode::Cp437Str;
pub use decode::FromCp437;
pub use table::decode_byte;
pub use table::to_char;
