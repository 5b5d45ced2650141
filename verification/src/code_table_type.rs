//! The two-shaped model of a code page's decoding table.

use vstd::prelude::*;

use crate::string::decode_string_complete_table;
use crate::string::decode_string_incomplete_table_checked;
use crate::string::decode_string_incomplete_table_lossy;

verus! {

/// Decoding table for the high half (bytes 128-255) of a single-byte code page.
///
/// `Complete` tables define a character for every high byte; `Incomplete`
/// tables leave at least one high byte undefined.
#[derive(Debug, Clone)]
pub enum TableType {
    /// Complete table, which doesn't have any undefined codepoints.
    Complete(Vec<char>),
    /// Incomplete table, which has some undefined codepoints.
    Incomplete(Vec<Option<char>>),
}

impl TableType {
    /// A decoding table covers exactly the 128 high bytes, and an
    /// `Incomplete` table leaves at least one of them undefined.
    pub open spec fn wf(&self) -> bool {
        match self {
            TableType::Complete(t) => t@.len() == 128,
            TableType::Incomplete(t) => t@.len() == 128 && (exists|i: int|
                0 <= i < 128 && t@[i] is None),
        }
    }

    /// Whether the table is tagged `Complete`.
    pub open spec fn is_complete(&self) -> bool {
        self is Complete
    }

    /// The 128 high slots, with a `Complete` table's mandatory entries
    /// lifted into `Some`.
    pub open spec fn high_slots(&self) -> Seq<Option<char>> {
        match self {
            TableType::Complete(t) => t@.map_values(|c: char| Some(c)),
            TableType::Incomplete(t) => t@,
        }
    }

    /// What a single byte decodes to: bytes below 128 are the identical
    /// code point, high bytes go through the table.
    pub open spec fn decoded_byte(&self, byte: u8) -> Option<char> {
        if byte < 128 {
            Some(byte as char)
        } else {
            self.high_slots()[byte - 128]
        }
    }

    /// Whether every byte of `bytes` decodes under this table.
    pub open spec fn decodes_all(&self, bytes: Seq<u8>) -> bool {
        forall|i: int| 0 <= i < bytes.len() ==> self.decoded_byte(bytes[i]) is Some
    }

    /// The lossy decoding of `bytes`: one character per byte, with the
    /// replacement character standing in for undefined high bytes.
    pub open spec fn decoded_lossy(&self, bytes: Seq<u8>) -> Seq<char> {
        bytes.map_values(|b: u8| match self.decoded_byte(b) {
            Some(c) => c,
            None => '\u{FFFD}',
        })
    }

    /// Wrapper function for decoding bytes encoded in SBCSs
    ///
    /// This function returns `None` if any byte bumps into an undefined
    /// codepoint: the whole operation is all-or-nothing, no partially
    /// decoded prefix is exposed.
    ///
    /// # Arguments
    ///
    /// * `src` - bytes encoded in SBCS
    pub fn decode_string_checked(&self, src: &[u8]) -> (r: Option<String>)
        requires
            self.wf(),
        ensures
            r is Some <==> self.decodes_all(src@),
            r is Some ==> r->Some_0@ == self.decoded_lossy(src@),
            r is None <==> !self.is_complete() && (exists|i: int|
                0 <= i < src@.len() && self.decoded_byte(src@[i]) is None),
    {
        match self {
            TableType::Complete(table_ref) => {
                let s = decode_string_complete_table(src, table_ref.as_slice());
                proof {
                    assert(s@ =~= self.decoded_lossy(src@));
                }
                Some(s)
            },
            TableType::Incomplete(table_ref) => {
                let r = decode_string_incomplete_table_checked(src, table_ref.as_slice());
                proof {
                    if r is Some {
                        assert(r->Some_0@ =~= self.decoded_lossy(src@));
                    }
                }
                r
            },
        }
    }

    /// Wrapper function for decoding bytes encoded in SBCSs
    ///
    /// Undefined codepoints are replaced with U+FFFD, so this always
    /// succeeds and yields one character per input byte.
    ///
    /// # Arguments
    ///
    /// * `src` - bytes encoded in SBCS
    pub fn decode_string_lossy(&self, src: &[u8]) -> (r: String)
        requires
            self.wf(),
        ensures
            r@ == self.decoded_lossy(src@),
            r@.len() == src@.len(),
    {
        let ret = match self {
            TableType::Complete(table_ref) => decode_string_complete_table(
                src,
                table_ref.as_slice(),
            ),
            TableType::Incomplete(table_ref) => decode_string_incomplete_table_lossy(
                src,
                table_ref.as_slice(),
            ),
        };
        proof {
            assert(ret@ =~= self.decoded_lossy(src@));
        }
        ret
    }

    /// Decode a single byte, reporting an undefined codepoint as `None`.
    pub fn decode_char_checked(&self, byte: u8) -> (r: Option<char>)
        requires
            self.wf(),
        ensures
            r == self.decoded_byte(byte),
    {
        if byte < 128 {
            Some(byte as char)
        } else {
            match self {
                TableType::Complete(t) => Some(t[(byte - 128) as usize]),
                TableType::Incomplete(t) => t[(byte - 128) as usize],
            }
        }
    }
}

} // verus!
