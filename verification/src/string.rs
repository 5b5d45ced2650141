//! Decoding byte sequences and encoding character sequences for
//! single-byte code pages.

use vstd::prelude::*;
use vstd::string::StrSliceExecFns;

use crate::code_table_type::TableType;
use crate::encoding_table::EncodingTable;

verus! {

/// A character has no entry in the encoding table.
#[derive(Debug, Clone, Copy, PartialEq, Eq)]
pub struct TryFromCharError;

/// A byte has no mapping in the decoding table.
#[derive(Debug, Clone, Copy, PartialEq, Eq)]
pub struct TryFromU8Error;

/// What a byte decodes to under a complete high-half table:
/// bytes below 128 are the identical code point, high bytes go
/// through the table.
pub open spec fn complete_decoded_byte(table: Seq<char>, b: u8) -> char {
    if b < 128 {
        b as char
    } else {
        table[b - 128]
    }
}

/// The decoding of `bytes` under a complete high-half table.
pub open spec fn complete_decoded(table: Seq<char>, bytes: Seq<u8>) -> Seq<char> {
    bytes.map_values(|b: u8| complete_decoded_byte(table, b))
}

/// What a byte decodes to under an incomplete high-half table; `None`
/// for an undefined high byte.
pub open spec fn incomplete_decoded_byte(table: Seq<Option<char>>, b: u8) -> Option<char> {
    if b < 128 {
        Some(b as char)
    } else {
        table[b - 128]
    }
}

/// Whether every byte of `bytes` is defined under an incomplete table.
pub open spec fn all_bytes_defined(table: Seq<Option<char>>, bytes: Seq<u8>) -> bool {
    forall|i: int| 0 <= i < bytes.len() ==> incomplete_decoded_byte(table, bytes[i]) is Some
}

/// The lossy decoding of `bytes` under an incomplete table: undefined
/// high bytes become the replacement character.
pub open spec fn incomplete_decoded_lossy(table: Seq<Option<char>>, bytes: Seq<u8>) -> Seq<char> {
    bytes.map_values(|b: u8| match incomplete_decoded_byte(table, b) {
        Some(c) => c,
        None => '\u{FFFD}',
    })
}

/// Relies on `String::push`: appends the given character to the end of
/// the string.
#[verifier::external_body]
fn push_char(s: &mut String, c: char)
    ensures
        final(s)@ == old(s)@.push(c),
{
    s.push(c);
}

/// Decode SBCS (single byte character set) bytes (no undefined codepoints)
///
/// # Arguments
///
/// * `src` - bytes encoded in SBCS
/// * `decoding_table` - table for decoding SBCS (with**out** undefined codepoints)
pub fn decode_string_complete_table(src: &[u8], decoding_table: &[char]) -> (r: String)
    requires
        decoding_table@.len() == 128,
    ensures
        r@ == complete_decoded(decoding_table@, src@),
{
    let mut ret = String::new();
    let mut i: usize = 0;
    while i < src.len()
        invariant
            i <= src@.len(),
            decoding_table@.len() == 128,
            ret@ == complete_decoded(decoding_table@, src@.take(i as int)),
        decreases src@.len() - i,
    {
        let b = src[i];
        let c = if b < 128 {
            b as char
        } else {
            decoding_table[(b - 128) as usize]
        };
        push_char(&mut ret, c);
        i = i + 1;
        proof {
            assert(complete_decoded(decoding_table@, src@.take(i as int)) =~= complete_decoded(
                decoding_table@,
                src@.take(i - 1),
            ).push(c));
        }
    }
    proof {
        assert(src@.take(src@.len() as int) =~= src@);
    }
    ret
}

/// Decode single SBCS (single byte character set) byte (no undefined codepoints)
///
/// # Arguments
///
/// * `src` - single byte encoded in SBCS
/// * `decoding_table` - table for decoding SBCS (with**out** undefined codepoints)
pub fn decode_char_complete_table(src: u8, decoding_table: &[char]) -> (r: char)
    requires
        decoding_table@.len() == 128,
    ensures
        r == complete_decoded_byte(decoding_table@, src),
{
    if src < 128 {
        src as char
    } else {
        decoding_table[(src - 128) as usize]
    }
}

/// Decode SBCS (single byte character set) bytes (with undefined codepoints)
///
/// If some undefined codepoints are found, returns `None`.
///
/// # Arguments
///
/// * `src` - bytes encoded in SBCS
/// * `decoding_table` - table for decoding SBCS (**with** undefined codepoints)
pub fn decode_string_incomplete_table_checked(
    src: &[u8],
    decoding_table: &[Option<char>],
) -> (r: Option<String>)
    requires
        decoding_table@.len() == 128,
    ensures
        r is Some <==> all_bytes_defined(decoding_table@, src@),
        r is Some ==> r->Some_0@ == incomplete_decoded_lossy(decoding_table@, src@),
{
    let mut ret = String::new();
    let mut i: usize = 0;
    while i < src.len()
        invariant
            i <= src@.len(),
            decoding_table@.len() == 128,
            all_bytes_defined(decoding_table@, src@.take(i as int)),
            ret@ == incomplete_decoded_lossy(decoding_table@, src@.take(i as int)),
        decreases src@.len() - i,
    {
        let b = src[i];
        let c = if b < 128 {
            b as char
        } else {
            match decoding_table[(b - 128) as usize] {
                Some(c) => c,
                None => {
                    return None;
                },
            }
        };
        push_char(&mut ret, c);
        i = i + 1;
        proof {
            assert(src@.take(i as int).drop_last() =~= src@.take(i - 1));
            assert(incomplete_decoded_lossy(decoding_table@, src@.take(i as int))
                =~= incomplete_decoded_lossy(decoding_table@, src@.take(i - 1)).push(c));
        }
    }
    proof {
        assert(src@.take(src@.len() as int) =~= src@);
    }
    Some(ret)
}

/// Decode SBCS (single byte character set) bytes (with undefined codepoints)
///
/// Undefined codepoints are replaced with `U+FFFD` (replacement character).
///
/// # Arguments
///
/// * `src` - bytes encoded in SBCS
/// * `decoding_table` - table for decoding SBCS (**with** undefined codepoints)
pub fn decode_string_incomplete_table_lossy(
    src: &[u8],
    decoding_table: &[Option<char>],
) -> (r: String)
    requires
        decoding_table@.len() == 128,
    ensures
        r@ == incomplete_decoded_lossy(decoding_table@, src@),
        r@.len() == src@.len(),
{
    let mut ret = String::new();
    let mut i: usize = 0;
    while i < src.len()
        invariant
            i <= src@.len(),
            decoding_table@.len() == 128,
            ret@ == incomplete_decoded_lossy(decoding_table@, src@.take(i as int)),
        decreases src@.len() - i,
    {
        let b = src[i];
        let c = if b < 128 {
            b as char
        } else {
            match decoding_table[(b - 128) as usize] {
                Some(c) => c,
                None => '\u{FFFD}',
            }
        };
        push_char(&mut ret, c);
        i = i + 1;
        proof {
            assert(incomplete_decoded_lossy(decoding_table@, src@.take(i as int))
                =~= incomplete_decoded_lossy(decoding_table@, src@.take(i - 1)).push(c));
        }
    }
    proof {
        assert(src@.take(src@.len() as int) =~= src@);
    }
    ret
}

/// Decode single SBCS (single byte character set) byte (with undefined codepoints)
///
/// If an undefined codepoint is found, returns `None`.
///
/// # Arguments
///
/// * `src` - single byte encoded in SBCS
/// * `decoding_table` - table for decoding SBCS (**with** undefined codepoints)
pub fn decode_char_incomplete_table_checked(
    src: u8,
    decoding_table: &[Option<char>],
) -> (r: Option<char>)
    requires
        decoding_table@.len() == 128,
    ensures
        r == incomplete_decoded_byte(decoding_table@, src),
{
    if src < 128 {
        Some(src as char)
    } else {
        decoding_table[(src - 128) as usize]
    }
}

/// Decode single SBCS (single byte character set) byte (with undefined codepoints)
///
/// Undefined codepoints are replaced with `U+FFFD` (replacement character).
///
/// # Arguments
///
/// * `src` - single byte encoded in SBCS
/// * `decoding_table` - table for decoding SBCS (**with** undefined codepoints)
pub fn decode_char_incomplete_table_lossy(src: u8, decoding_table: &[Option<char>]) -> (r: char)
    requires
        decoding_table@.len() == 128,
    ensures
        r == match incomplete_decoded_byte(decoding_table@, src) {
            Some(c) => c,
            None => '\u{FFFD}',
        },
{
    if src < 128 {
        src as char
    } else {
        match decoding_table[(src - 128) as usize] {
            Some(c) => c,
            None => '\u{FFFD}',
        }
    }
}

/// What a character encodes to under an encoding table: characters
/// below code point 128 are the identical byte, others go through the
/// table; `None` for an unmappable character.
pub open spec fn encoded_byte(table: Map<char, u8>, c: char) -> Option<u8> {
    if (c as u32) < 128 {
        Some(c as u8)
    } else if table.dom().contains(c) {
        Some(table[c])
    } else {
        None
    }
}

/// Whether every character of `s` is mappable under the table.
pub open spec fn all_chars_encodable(table: Map<char, u8>, s: Seq<char>) -> bool {
    forall|i: int| 0 <= i < s.len() ==> encoded_byte(table, s[i]) is Some
}

/// The lossy encoding of `s`: unmappable characters become `0x3F` (`?`).
pub open spec fn encoded_lossy(table: Map<char, u8>, s: Seq<char>) -> Seq<u8> {
    s.map_values(|c: char| match encoded_byte(table, c) {
        Some(b) => b,
        None => 0x3Fu8,
    })
}

/// Encode Unicode string in SBCS (single byte character set)
///
/// If some undefined codepoints are found, returns `None`: no partial
/// output is retained.
///
/// # Arguments
///
/// * `src` - Unicode string
/// * `encoding_table` - table for encoding in SBCS
pub fn encode_string_checked(src: &str, encoding_table: &EncodingTable) -> (r: Option<Vec<u8>>)
    ensures
        r is Some <==> all_chars_encodable(encoding_table@, src@),
        r is Some ==> r->Some_0@ == encoded_lossy(encoding_table@, src@),
        r is Some ==> r->Some_0@.len() == src@.len(),
{
    let n = src.unicode_len();
    let mut ret: Vec<u8> = Vec::new();
    let mut i: usize = 0;
    while i < n
        invariant
            i <= n,
            n == src@.len(),
            all_chars_encodable(encoding_table@, src@.take(i as int)),
            ret@ == encoded_lossy(encoding_table@, src@.take(i as int)),
        decreases n - i,
    {
        let c = src.get_char(i);
        let b = if (c as u32) < 128 {
            c as u8
        } else {
            match encoding_table.get(c) {
                Some(b) => b,
                None => {
                    return None;
                },
            }
        };
        ret.push(b);
        i = i + 1;
        proof {
            assert(encoded_lossy(encoding_table@, src@.take(i as int)) =~= encoded_lossy(
                encoding_table@,
                src@.take(i - 1),
            ).push(b));
        }
    }
    proof {
        assert(src@.take(src@.len() as int) =~= src@);
    }
    Some(ret)
}

/// Encode Unicode string in SBCS (single byte character set)
///
/// Undefined codepoints are replaced with `0x3F` (`?`), so this always
/// succeeds and yields one byte per input character.
///
/// # Arguments
///
/// * `src` - Unicode string
/// * `encoding_table` - table for encoding in SBCS
pub fn encode_string_lossy(src: &str, encoding_table: &EncodingTable) -> (r: Vec<u8>)
    ensures
        r@ == encoded_lossy(encoding_table@, src@),
        r@.len() == src@.len(),
{
    let n = src.unicode_len();
    let mut ret: Vec<u8> = Vec::new();
    let mut i: usize = 0;
    while i < n
        invariant
            i <= n,
            n == src@.len(),
            ret@ == encoded_lossy(encoding_table@, src@.take(i as int)),
        decreases n - i,
    {
        let c = src.get_char(i);
        let b = if (c as u32) < 128 {
            c as u8
        } else {
            match encoding_table.get(c) {
                Some(b) => b,
                None => 0x3F,
            }
        };
        ret.push(b);
        i = i + 1;
        proof {
            assert(encoded_lossy(encoding_table@, src@.take(i as int)) =~= encoded_lossy(
                encoding_table@,
                src@.take(i - 1),
            ).push(b));
        }
    }
    proof {
        assert(src@.take(src@.len() as int) =~= src@);
    }
    ret
}

/// Encode Unicode char in SBCS (single byte character set)
///
/// If an undefined codepoint is found, returns `None`.
///
/// # Arguments
///
/// * `src` - Unicode char
/// * `encoding_table` - table for encoding in SBCS
pub fn encode_char_checked(src: char, encoding_table: &EncodingTable) -> (r: Option<u8>)
    ensures
        r == encoded_byte(encoding_table@, src),
{
    if (src as u32) < 128 {
        Some(src as u8)
    } else {
        encoding_table.get(src)
    }
}

/// Encode Unicode char in SBCS (single byte character set)
///
/// Undefined codepoints are replaced with `0x3F` (`?`).
///
/// # Arguments
///
/// * `src` - Unicode char
/// * `encoding_table` - table for encoding in SBCS
pub fn encode_char_lossy(src: char, encoding_table: &EncodingTable) -> (r: u8)
    ensures
        r == match encoded_byte(encoding_table@, src) {
            Some(b) => b,
            None => 0x3Fu8,
        },
{
    if (src as u32) < 128 {
        src as u8
    } else {
        match encoding_table.get(src) {
            Some(b) => b,
            None => 0x3F,
        }
    }
}

/// Encoding a string slice into code-page bytes, table in hand.
pub trait StrExt {
    /// The characters of the value.
    spec fn chars_view(&self) -> Seq<char>;

    /// Encode into code-page bytes; an unmappable character is an error.
    fn to_cp(&self, encoding_table: &EncodingTable) -> (r: Result<Vec<u8>, TryFromCharError>)
        ensures
            r is Ok <==> all_chars_encodable(encoding_table@, self.chars_view()),
            r is Ok ==> r->Ok_0@ == encoded_lossy(encoding_table@, self.chars_view()),
    ;

    /// Encode into code-page bytes; an unmappable character becomes
    /// `0x3F` (`?`).
    fn to_cp_lossy(&self, encoding_table: &EncodingTable) -> (r: Vec<u8>)
        ensures
            r@ == encoded_lossy(encoding_table@, self.chars_view()),
    ;
}

impl StrExt for str {
    open spec fn chars_view(&self) -> Seq<char> {
        self@
    }

    fn to_cp(&self, encoding_table: &EncodingTable) -> (r: Result<Vec<u8>, TryFromCharError>) {
        match encode_string_checked(self, encoding_table) {
            Some(bytes) => Ok(bytes),
            None => Err(TryFromCharError),
        }
    }

    fn to_cp_lossy(&self, encoding_table: &EncodingTable) -> (r: Vec<u8>) {
        encode_string_lossy(self, encoding_table)
    }
}

/// Decoding code-page bytes into an owned string, table in hand.
pub trait StringExt: Sized {
    /// The characters of the value.
    spec fn chars_view(&self) -> Seq<char>;

    /// Decode code-page bytes; an undefined codepoint is an error.
    fn try_from_cp(v: &[u8], table: &TableType) -> (r: Result<Self, TryFromU8Error>)
        requires
            table.wf(),
        ensures
            r is Ok <==> table.decodes_all(v@),
            r is Ok ==> r->Ok_0.chars_view() == table.decoded_lossy(v@),
    ;

    /// Decode code-page bytes; an undefined codepoint becomes U+FFFD.
    fn from_cp_lossy(v: &[u8], table: &TableType) -> (r: Self)
        requires
            table.wf(),
        ensures
            r.chars_view() == table.decoded_lossy(v@),
    ;

    /// Decode code-page bytes with a complete table, which cannot fail.
    fn from_cp(v: &[u8], table: &TableType) -> (r: Self)
        requires
            table.wf(),
            table.is_complete(),
        ensures
            r.chars_view() == table.decoded_lossy(v@),
    ;
}

impl StringExt for String {
    open spec fn chars_view(&self) -> Seq<char> {
        self@
    }

    fn try_from_cp(v: &[u8], table: &TableType) -> (r: Result<Self, TryFromU8Error>) {
        match table.decode_string_checked(v) {
            Some(s) => Ok(s),
            None => Err(TryFromU8Error),
        }
    }

    fn from_cp_lossy(v: &[u8], table: &TableType) -> (r: Self) {
        table.decode_string_lossy(v)
    }

    fn from_cp(v: &[u8], table: &TableType) -> (r: Self) {
        table.decode_string_lossy(v)
    }
}

} // verus!
