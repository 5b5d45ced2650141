//! Conversion between legacy single-byte OEM code pages and Unicode.
//!
//! A code page's decoding table covers the high bytes 128-255; bytes below
//! 128 always decode to the code point with the same value. Tables come in
//! two shapes: `Complete` (every high byte defined) and `Incomplete` (some
//! high bytes undefined). Decoding and encoding each come in a checked form,
//! which fails on any unmappable unit, and a lossy form, which substitutes
//! a replacement per unmappable unit and never fails.

pub mod code_table;
pub mod code_table_type;
pub mod encoding_table;
pub mod generator;
pub mod laws;
pub mod registry;
pub mod string;

pub use code_table_type::TableType;
pub use encoding_table::EncodingTable;
pub use string::decode_char_complete_table;
pub use string::decode_char_incomplete_table_checked;
pub use string::decode_char_incomplete_table_lossy;
pub use string::decode_string_complete_table;
pub use string::decode_string_incomplete_table_checked;
pub use string::decode_string_incomplete_table_lossy;
pub use string::encode_char_checked;
pub use string::encode_char_lossy;
pub use string::encode_string_checked;
pub use string::encode_string_lossy;
pub use string::StrExt;
pub use string::StringExt;
pub use string::TryFromCharError;
pub use string::TryFromU8Error;
