//! The built-in code tables: one decoding table per supported code
//! page, and the two registries, built once at process start and
//! consumed read-only from then on.
//!
//! The registries deliberately cover this closed set of ten code pages;
//! a lookup for any other identifier reports "not supported". Tables
//! for further code pages can be produced with the generator.
//!
//! Each table's contents are stated twice: once as a specification
//! sequence, which the contracts below refer to, and once as the
//! executable vector, proved equal to it.

use vstd::prelude::*;

use crate::code_table_type::TableType;
use crate::encoding_table::EncodingTable;
use crate::generator::build_encoding_table;
use crate::generator::inverted;
use crate::registry::Registry;

verus! {

/// The closed set of code pages the built-in registries support.
pub open spec fn supported_codepage(id: u16) -> bool {
    ||| id == 437
    ||| id == 737
    ||| id == 775
    ||| id == 850
    ||| id == 852
    ||| id == 855
    ||| id == 857
    ||| id == 862
    ||| id == 866
    ||| id == 874
}

/// The CP437 decoding table for bytes 128-255, as a mathematical
/// sequence: entry `i` is what byte `128 + i` decodes to.
pub open spec fn cp437_decoding_table() -> Seq<char> {
    seq![
        '\u{00C7}', '\u{00FC}', '\u{00E9}', '\u{00E2}', '\u{00E4}', '\u{00E0}', '\u{00E5}', '\u{00E7}',
        '\u{00EA}', '\u{00EB}', '\u{00E8}', '\u{00EF}', '\u{00EE}', '\u{00EC}', '\u{00C4}', '\u{00C5}',
        '\u{00C9}', '\u{00E6}', '\u{00C6}', '\u{00F4}', '\u{00F6}', '\u{00F2}', '\u{00FB}', '\u{00F9}',
        '\u{00FF}', '\u{00D6}', '\u{00DC}', '\u{00A2}', '\u{00A3}', '\u{00A5}', '\u{20A7}', '\u{0192}',
        '\u{00E1}', '\u{00ED}', '\u{00F3}', '\u{00FA}', '\u{00F1}', '\u{00D1}', '\u{00AA}', '\u{00BA}',
        '\u{00BF}', '\u{2310}', '\u{00AC}', '\u{00BD}', '\u{00BC}', '\u{00A1}', '\u{00AB}', '\u{00BB}',
        '\u{2591}', '\u{2592}', '\u{2593}', '\u{2502}', '\u{2524}', '\u{2561}', '\u{2562}', '\u{2556}',
        '\u{2555}', '\u{2563}', '\u{2551}', '\u{2557}', '\u{255D}', '\u{255C}', '\u{255B}', '\u{2510}',
        '\u{2514}', '\u{2534}', '\u{252C}', '\u{251C}', '\u{2500}', '\u{253C}', '\u{255E}', '\u{255F}',
        '\u{255A}', '\u{2554}', '\u{2569}', '\u{2566}', '\u{2560}', '\u{2550}', '\u{256C}', '\u{2567}',
        '\u{2568}', '\u{2564}', '\u{2565}', '\u{2559}', '\u{2558}', '\u{2552}', '\u{2553}', '\u{256B}',
        '\u{256A}', '\u{2518}', '\u{250C}', '\u{2588}', '\u{2584}', '\u{258C}', '\u{2590}', '\u{2580}',
        '\u{03B1}', '\u{00DF}', '\u{0393}', '\u{03C0}', '\u{03A3}', '\u{03C3}', '\u{00B5}', '\u{03C4}',
        '\u{03A6}', '\u{0398}', '\u{03A9}', '\u{03B4}', '\u{221E}', '\u{03C6}', '\u{03B5}', '\u{2229}',
        '\u{2261}', '\u{00B1}', '\u{2265}', '\u{2264}', '\u{2320}', '\u{2321}', '\u{00F7}', '\u{2248}',
        '\u{00B0}', '\u{2219}', '\u{00B7}', '\u{221A}', '\u{207F}', '\u{00B2}', '\u{25A0}', '\u{00A0}',
    ]
}

/// The CP437 high slots: every entry defined, the table is complete.
pub open spec fn cp437_high_slots() -> Seq<Option<char>> {
    cp437_decoding_table().map_values(|c: char| Some(c))
}

/// Decoding table (CP437 to Unicode) for bytes 128-255.
pub fn decoding_table_cp437() -> (t: Vec<char>)
    ensures
        t@ == cp437_decoding_table(),
        t@.len() == 128,
{
    let t: Vec<char> = vec![
        '\u{00C7}', '\u{00FC}', '\u{00E9}', '\u{00E2}', '\u{00E4}', '\u{00E0}', '\u{00E5}', '\u{00E7}',
        '\u{00EA}', '\u{00EB}', '\u{00E8}', '\u{00EF}', '\u{00EE}', '\u{00EC}', '\u{00C4}', '\u{00C5}',
        '\u{00C9}', '\u{00E6}', '\u{00C6}', '\u{00F4}', '\u{00F6}', '\u{00F2}', '\u{00FB}', '\u{00F9}',
        '\u{00FF}', '\u{00D6}', '\u{00DC}', '\u{00A2}', '\u{00A3}', '\u{00A5}', '\u{20A7}', '\u{0192}',
        '\u{00E1}', '\u{00ED}', '\u{00F3}', '\u{00FA}', '\u{00F1}', '\u{00D1}', '\u{00AA}', '\u{00BA}',
        '\u{00BF}', '\u{2310}', '\u{00AC}', '\u{00BD}', '\u{00BC}', '\u{00A1}', '\u{00AB}', '\u{00BB}',
        '\u{2591}', '\u{2592}', '\u{2593}', '\u{2502}', '\u{2524}', '\u{2561}', '\u{2562}', '\u{2556}',
        '\u{2555}', '\u{2563}', '\u{2551}', '\u{2557}', '\u{255D}', '\u{255C}', '\u{255B}', '\u{2510}',
        '\u{2514}', '\u{2534}', '\u{252C}', '\u{251C}', '\u{2500}', '\u{253C}', '\u{255E}', '\u{255F}',
        '\u{255A}', '\u{2554}', '\u{2569}', '\u{2566}', '\u{2560}', '\u{2550}', '\u{256C}', '\u{2567}',
        '\u{2568}', '\u{2564}', '\u{2565}', '\u{2559}', '\u{2558}', '\u{2552}', '\u{2553}', '\u{256B}',
        '\u{256A}', '\u{2518}', '\u{250C}', '\u{2588}', '\u{2584}', '\u{258C}', '\u{2590}', '\u{2580}',
        '\u{03B1}', '\u{00DF}', '\u{0393}', '\u{03C0}', '\u{03A3}', '\u{03C3}', '\u{00B5}', '\u{03C4}',
        '\u{03A6}', '\u{0398}', '\u{03A9}', '\u{03B4}', '\u{221E}', '\u{03C6}', '\u{03B5}', '\u{2229}',
        '\u{2261}', '\u{00B1}', '\u{2265}', '\u{2264}', '\u{2320}', '\u{2321}', '\u{00F7}', '\u{2248}',
        '\u{00B0}', '\u{2219}', '\u{00B7}', '\u{221A}', '\u{207F}', '\u{00B2}', '\u{25A0}', '\u{00A0}',
    ];
    proof {
        assert(t@ =~= cp437_decoding_table());
    }
    t
}

/// The CP737 decoding table for bytes 128-255, as a mathematical
/// sequence: entry `i` is what byte `128 + i` decodes to.
pub open spec fn cp737_decoding_table() -> Seq<char> {
    seq![
        '\u{0391}', '\u{0392}', '\u{0393}', '\u{0394}', '\u{0395}', '\u{0396}', '\u{0397}', '\u{0398}',
        '\u{0399}', '\u{039A}', '\u{039B}', '\u{039C}', '\u{039D}', '\u{039E}', '\u{039F}', '\u{03A0}',
        '\u{03A1}', '\u{03A3}', '\u{03A4}', '\u{03A5}', '\u{03A6}', '\u{03A7}', '\u{03A8}', '\u{03A9}',
        '\u{03B1}', '\u{03B2}', '\u{03B3}', '\u{03B4}', '\u{03B5}', '\u{03B6}', '\u{03B7}', '\u{03B8}',
        '\u{03B9}', '\u{03BA}', '\u{03BB}', '\u{03BC}', '\u{03BD}', '\u{03BE}', '\u{03BF}', '\u{03C0}',
        '\u{03C1}', '\u{03C3}', '\u{03C2}', '\u{03C4}', '\u{03C5}', '\u{03C6}', '\u{03C7}', '\u{03C8}',
        '\u{2591}', '\u{2592}', '\u{2593}', '\u{2502}', '\u{2524}', '\u{2561}', '\u{2562}', '\u{2556}',
        '\u{2555}', '\u{2563}', '\u{2551}', '\u{2557}', '\u{255D}', '\u{255C}', '\u{255B}', '\u{2510}',
        '\u{2514}', '\u{2534}', '\u{252C}', '\u{251C}', '\u{2500}', '\u{253C}', '\u{255E}', '\u{255F}',
        '\u{255A}', '\u{2554}', '\u{2569}', '\u{2566}', '\u{2560}', '\u{2550}', '\u{256C}', '\u{2567}',
        '\u{2568}', '\u{2564}', '\u{2565}', '\u{2559}', '\u{2558}', '\u{2552}', '\u{2553}', '\u{256B}',
        '\u{256A}', '\u{2518}', '\u{250C}', '\u{2588}', '\u{2584}', '\u{258C}', '\u{2590}', '\u{2580}',
        '\u{03C9}', '\u{03AC}', '\u{03AD}', '\u{03AE}', '\u{03CA}', '\u{03AF}', '\u{03CC}', '\u{03CD}',
        '\u{03CB}', '\u{03CE}', '\u{0386}', '\u{0388}', '\u{0389}', '\u{038A}', '\u{038C}', '\u{038E}',
        '\u{038F}', '\u{00B1}', '\u{2265}', '\u{2264}', '\u{03AA}', '\u{03AB}', '\u{00F7}', '\u{2248}',
        '\u{00B0}', '\u{2219}', '\u{00B7}', '\u{221A}', '\u{207F}', '\u{00B2}', '\u{25A0}', '\u{00A0}',
    ]
}

/// The CP737 high slots: every entry defined, the table is complete.
pub open spec fn cp737_high_slots() -> Seq<Option<char>> {
    cp737_decoding_table().map_values(|c: char| Some(c))
}

/// Decoding table (CP737 to Unicode) for bytes 128-255.
pub fn decoding_table_cp737() -> (t: Vec<char>)
    ensures
        t@ == cp737_decoding_table(),
        t@.len() == 128,
{
    let t: Vec<char> = vec![
        '\u{0391}', '\u{0392}', '\u{0393}', '\u{0394}', '\u{0395}', '\u{0396}', '\u{0397}', '\u{0398}',
        '\u{0399}', '\u{039A}', '\u{039B}', '\u{039C}', '\u{039D}', '\u{039E}', '\u{039F}', '\u{03A0}',
        '\u{03A1}', '\u{03A3}', '\u{03A4}', '\u{03A5}', '\u{03A6}', '\u{03A7}', '\u{03A8}', '\u{03A9}',
        '\u{03B1}', '\u{03B2}', '\u{03B3}', '\u{03B4}', '\u{03B5}', '\u{03B6}', '\u{03B7}', '\u{03B8}',
        '\u{03B9}', '\u{03BA}', '\u{03BB}', '\u{03BC}', '\u{03BD}', '\u{03BE}', '\u{03BF}', '\u{03C0}',
        '\u{03C1}', '\u{03C3}', '\u{03C2}', '\u{03C4}', '\u{03C5}', '\u{03C6}', '\u{03C7}', '\u{03C8}',
        '\u{2591}', '\u{2592}', '\u{2593}', '\u{2502}', '\u{2524}', '\u{2561}', '\u{2562}', '\u{2556}',
        '\u{2555}', '\u{2563}', '\u{2551}', '\u{2557}', '\u{255D}', '\u{255C}', '\u{255B}', '\u{2510}',
        '\u{2514}', '\u{2534}', '\u{252C}', '\u{251C}', '\u{2500}', '\u{253C}', '\u{255E}', '\u{255F}',
        '\u{255A}', '\u{2554}', '\u{2569}', '\u{2566}', '\u{2560}', '\u{2550}', '\u{256C}', '\u{2567}',
        '\u{2568}', '\u{2564}', '\u{2565}', '\u{2559}', '\u{2558}', '\u{2552}', '\u{2553}', '\u{256B}',
        '\u{256A}', '\u{2518}', '\u{250C}', '\u{2588}', '\u{2584}', '\u{258C}', '\u{2590}', '\u{2580}',
        '\u{03C9}', '\u{03AC}', '\u{03AD}', '\u{03AE}', '\u{03CA}', '\u{03AF}', '\u{03CC}', '\u{03CD}',
        '\u{03CB}', '\u{03CE}', '\u{0386}', '\u{0388}', '\u{0389}', '\u{038A}', '\u{038C}', '\u{038E}',
        '\u{038F}', '\u{00B1}', '\u{2265}', '\u{2264}', '\u{03AA}', '\u{03AB}', '\u{00F7}', '\u{2248}',
        '\u{00B0}', '\u{2219}', '\u{00B7}', '\u{221A}', '\u{207F}', '\u{00B2}', '\u{25A0}', '\u{00A0}',
    ];
    proof {
        assert(t@ =~= cp737_decoding_table());
    }
    t
}

/// The CP775 decoding table for bytes 128-255, as a mathematical
/// sequence: entry `i` is what byte `128 + i` decodes to.
pub open spec fn cp775_decoding_table() -> Seq<char> {
    seq![
        '\u{0106}', '\u{00FC}', '\u{00E9}', '\u{0101}', '\u{00E4}', '\u{0123}', '\u{00E5}', '\u{0107}',
        '\u{0142}', '\u{0113}', '\u{0156}', '\u{0157}', '\u{012B}', '\u{0179}', '\u{00C4}', '\u{00C5}',
        '\u{00C9}', '\u{00E6}', '\u{00C6}', '\u{014D}', '\u{00F6}', '\u{0122}', '\u{00A2}', '\u{015A}',
        '\u{015B}', '\u{00D6}', '\u{00DC}', '\u{00F8}', '\u{00A3}', '\u{00D8}', '\u{00D7}', '\u{00A4}',
        '\u{0100}', '\u{012A}', '\u{00F3}', '\u{017B}', '\u{017C}', '\u{017A}', '\u{201D}', '\u{00A6}',
        '\u{00A9}', '\u{00AE}', '\u{00AC}', '\u{00BD}', '\u{00BC}', '\u{0141}', '\u{00AB}', '\u{00BB}',
        '\u{2591}', '\u{2592}', '\u{2593}', '\u{2502}', '\u{2524}', '\u{0104}', '\u{010C}', '\u{0118}',
        '\u{0116}', '\u{2563}', '\u{2551}', '\u{2557}', '\u{255D}', '\u{012E}', '\u{0160}', '\u{2510}',
        '\u{2514}', '\u{2534}', '\u{252C}', '\u{251C}', '\u{2500}', '\u{253C}', '\u{0172}', '\u{016A}',
        '\u{255A}', '\u{2554}', '\u{2569}', '\u{2566}', '\u{2560}', '\u{2550}', '\u{256C}', '\u{017D}',
        '\u{0105}', '\u{010D}', '\u{0119}', '\u{0117}', '\u{012F}', '\u{0161}', '\u{0173}', '\u{016B}',
        '\u{017E}', '\u{2518}', '\u{250C}', '\u{2588}', '\u{2584}', '\u{258C}', '\u{2590}', '\u{2580}',
        '\u{00D3}', '\u{00DF}', '\u{014C}', '\u{0143}', '\u{00F5}', '\u{00D5}', '\u{00B5}', '\u{0144}',
        '\u{0136}', '\u{0137}', '\u{013B}', '\u{013C}', '\u{0146}', '\u{0112}', '\u{0145}', '\u{2019}',
        '\u{00AD}', '\u{00B1}', '\u{201C}', '\u{00BE}', '\u{00B6}', '\u{00A7}', '\u{00F7}', '\u{201E}',
        '\u{00B0}', '\u{2219}', '\u{00B7}', '\u{00B9}', '\u{00B3}', '\u{00B2}', '\u{25A0}', '\u{00A0}',
    ]
}

/// The CP775 high slots: every entry defined, the table is complete.
pub open spec fn cp775_high_slots() -> Seq<Option<char>> {
    cp775_decoding_table().map_values(|c: char| Some(c))
}

/// Decoding table (CP775 to Unicode) for bytes 128-255.
pub fn decoding_table_cp775() -> (t: Vec<char>)
    ensures
        t@ == cp775_decoding_table(),
        t@.len() == 128,
{
    let t: Vec<char> = vec![
        '\u{0106}', '\u{00FC}', '\u{00E9}', '\u{0101}', '\u{00E4}', '\u{0123}', '\u{00E5}', '\u{0107}',
        '\u{0142}', '\u{0113}', '\u{0156}', '\u{0157}', '\u{012B}', '\u{0179}', '\u{00C4}', '\u{00C5}',
        '\u{00C9}', '\u{00E6}', '\u{00C6}', '\u{014D}', '\u{00F6}', '\u{0122}', '\u{00A2}', '\u{015A}',
        '\u{015B}', '\u{00D6}', '\u{00DC}', '\u{00F8}', '\u{00A3}', '\u{00D8}', '\u{00D7}', '\u{00A4}',
        '\u{0100}', '\u{012A}', '\u{00F3}', '\u{017B}', '\u{017C}', '\u{017A}', '\u{201D}', '\u{00A6}',
        '\u{00A9}', '\u{00AE}', '\u{00AC}', '\u{00BD}', '\u{00BC}', '\u{0141}', '\u{00AB}', '\u{00BB}',
        '\u{2591}', '\u{2592}', '\u{2593}', '\u{2502}', '\u{2524}', '\u{0104}', '\u{010C}', '\u{0118}',
        '\u{0116}', '\u{2563}', '\u{2551}', '\u{2557}', '\u{255D}', '\u{012E}', '\u{0160}', '\u{2510}',
        '\u{2514}', '\u{2534}', '\u{252C}', '\u{251C}', '\u{2500}', '\u{253C}', '\u{0172}', '\u{016A}',
        '\u{255A}', '\u{2554}', '\u{2569}', '\u{2566}', '\u{2560}', '\u{2550}', '\u{256C}', '\u{017D}',
        '\u{0105}', '\u{010D}', '\u{0119}', '\u{0117}', '\u{012F}', '\u{0161}', '\u{0173}', '\u{016B}',
        '\u{017E}', '\u{2518}', '\u{250C}', '\u{2588}', '\u{2584}', '\u{258C}', '\u{2590}', '\u{2580}',
        '\u{00D3}', '\u{00DF}', '\u{014C}', '\u{0143}', '\u{00F5}', '\u{00D5}', '\u{00B5}', '\u{0144}',
        '\u{0136}', '\u{0137}', '\u{013B}', '\u{013C}', '\u{0146}', '\u{0112}', '\u{0145}', '\u{2019}',
        '\u{00AD}', '\u{00B1}', '\u{201C}', '\u{00BE}', '\u{00B6}', '\u{00A7}', '\u{00F7}', '\u{201E}',
        '\u{00B0}', '\u{2219}', '\u{00B7}', '\u{00B9}', '\u{00B3}', '\u{00B2}', '\u{25A0}', '\u{00A0}',
    ];
    proof {
        assert(t@ =~= cp775_decoding_table());
    }
    t
}

/// The CP850 decoding table for bytes 128-255, as a mathematical
/// sequence: entry `i` is what byte `128 + i` decodes to.
pub open spec fn cp850_decoding_table() -> Seq<char> {
    seq![
        '\u{00C7}', '\u{00FC}', '\u{00E9}', '\u{00E2}', '\u{00E4}', '\u{00E0}', '\u{00E5}', '\u{00E7}',
        '\u{00EA}', '\u{00EB}', '\u{00E8}', '\u{00EF}', '\u{00EE}', '\u{00EC}', '\u{00C4}', '\u{00C5}',
        '\u{00C9}', '\u{00E6}', '\u{00C6}', '\u{00F4}', '\u{00F6}', '\u{00F2}', '\u{00FB}', '\u{00F9}',
        '\u{00FF}', '\u{00D6}', '\u{00DC}', '\u{00F8}', '\u{00A3}', '\u{00D8}', '\u{00D7}', '\u{0192}',
        '\u{00E1}', '\u{00ED}', '\u{00F3}', '\u{00FA}', '\u{00F1}', '\u{00D1}', '\u{00AA}', '\u{00BA}',
        '\u{00BF}', '\u{00AE}', '\u{00AC}', '\u{00BD}', '\u{00BC}', '\u{00A1}', '\u{00AB}', '\u{00BB}',
        '\u{2591}', '\u{2592}', '\u{2593}', '\u{2502}', '\u{2524}', '\u{00C1}', '\u{00C2}', '\u{00C0}',
        '\u{00A9}', '\u{2563}', '\u{2551}', '\u{2557}', '\u{255D}', '\u{00A2}', '\u{00A5}', '\u{2510}',
        '\u{2514}', '\u{2534}', '\u{252C}', '\u{251C}', '\u{2500}', '\u{253C}', '\u{00E3}', '\u{00C3}',
        '\u{255A}', '\u{2554}', '\u{2569}', '\u{2566}', '\u{2560}', '\u{2550}', '\u{256C}', '\u{00A4}',
        '\u{00F0}', '\u{00D0}', '\u{00CA}', '\u{00CB}', '\u{00C8}', '\u{0131}', '\u{00CD}', '\u{00CE}',
        '\u{00CF}', '\u{2518}', '\u{250C}', '\u{2588}', '\u{2584}', '\u{00A6}', '\u{00CC}', '\u{2580}',
        '\u{00D3}', '\u{00DF}', '\u{00D4}', '\u{00D2}', '\u{00F5}', '\u{00D5}', '\u{00B5}', '\u{00FE}',
        '\u{00DE}', '\u{00DA}', '\u{00DB}', '\u{00D9}', '\u{00FD}', '\u{00DD}', '\u{00AF}', '\u{00B4}',
        '\u{00AD}', '\u{00B1}', '\u{2017}', '\u{00BE}', '\u{00B6}', '\u{00A7}', '\u{00F7}', '\u{00B8}',
        '\u{00B0}', '\u{00A8}', '\u{00B7}', '\u{00B9}', '\u{00B3}', '\u{00B2}', '\u{25A0}', '\u{00A0}',
    ]
}

/// The CP850 high slots: every entry defined, the table is complete.
pub open spec fn cp850_high_slots() -> Seq<Option<char>> {
    cp850_decoding_table().map_values(|c: char| Some(c))
}

/// Decoding table (CP850 to Unicode) for bytes 128-255.
pub fn decoding_table_cp850() -> (t: Vec<char>)
    ensures
        t@ == cp850_decoding_table(),
        t@.len() == 128,
{
    let t: Vec<char> = vec![
        '\u{00C7}', '\u{00FC}', '\u{00E9}', '\u{00E2}', '\u{00E4}', '\u{00E0}', '\u{00E5}', '\u{00E7}',
        '\u{00EA}', '\u{00EB}', '\u{00E8}', '\u{00EF}', '\u{00EE}', '\u{00EC}', '\u{00C4}', '\u{00C5}',
        '\u{00C9}', '\u{00E6}', '\u{00C6}', '\u{00F4}', '\u{00F6}', '\u{00F2}', '\u{00FB}', '\u{00F9}',
        '\u{00FF}', '\u{00D6}', '\u{00DC}', '\u{00F8}', '\u{00A3}', '\u{00D8}', '\u{00D7}', '\u{0192}',
        '\u{00E1}', '\u{00ED}', '\u{00F3}', '\u{00FA}', '\u{00F1}', '\u{00D1}', '\u{00AA}', '\u{00BA}',
        '\u{00BF}', '\u{00AE}', '\u{00AC}', '\u{00BD}', '\u{00BC}', '\u{00A1}', '\u{00AB}', '\u{00BB}',
        '\u{2591}', '\u{2592}', '\u{2593}', '\u{2502}', '\u{2524}', '\u{00C1}', '\u{00C2}', '\u{00C0}',
        '\u{00A9}', '\u{2563}', '\u{2551}', '\u{2557}', '\u{255D}', '\u{00A2}', '\u{00A5}', '\u{2510}',
        '\u{2514}', '\u{2534}', '\u{252C}', '\u{251C}', '\u{2500}', '\u{253C}', '\u{00E3}', '\u{00C3}',
        '\u{255A}', '\u{2554}', '\u{2569}', '\u{2566}', '\u{2560}', '\u{2550}', '\u{256C}', '\u{00A4}',
        '\u{00F0}', '\u{00D0}', '\u{00CA}', '\u{00CB}', '\u{00C8}', '\u{0131}', '\u{00CD}', '\u{00CE}',
        '\u{00CF}', '\u{2518}', '\u{250C}', '\u{2588}', '\u{2584}', '\u{00A6}', '\u{00CC}', '\u{2580}',
        '\u{00D3}', '\u{00DF}', '\u{00D4}', '\u{00D2}', '\u{00F5}', '\u{00D5}', '\u{00B5}', '\u{00FE}',
        '\u{00DE}', '\u{00DA}', '\u{00DB}', '\u{00D9}', '\u{00FD}', '\u{00DD}', '\u{00AF}', '\u{00B4}',
        '\u{00AD}', '\u{00B1}', '\u{2017}', '\u{00BE}', '\u{00B6}', '\u{00A7}', '\u{00F7}', '\u{00B8}',
        '\u{00B0}', '\u{00A8}', '\u{00B7}', '\u{00B9}', '\u{00B3}', '\u{00B2}', '\u{25A0}', '\u{00A0}',
    ];
    proof {
        assert(t@ =~= cp850_decoding_table());
    }
    t
}

/// The CP852 decoding table for bytes 128-255, as a mathematical
/// sequence: entry `i` is what byte `128 + i` decodes to.
pub open spec fn cp852_decoding_table() -> Seq<char> {
    seq![
        '\u{00C7}', '\u{00FC}', '\u{00E9}', '\u{00E2}', '\u{00E4}', '\u{016F}', '\u{0107}', '\u{00E7}',
        '\u{0142}', '\u{00EB}', '\u{0150}', '\u{0151}', '\u{00EE}', '\u{0179}', '\u{00C4}', '\u{0106}',
        '\u{00C9}', '\u{0139}', '\u{013A}', '\u{00F4}', '\u{00F6}', '\u{013D}', '\u{013E}', '\u{015A}',
        '\u{015B}', '\u{00D6}', '\u{00DC}', '\u{0164}', '\u{0165}', '\u{0141}', '\u{00D7}', '\u{010D}',
        '\u{00E1}', '\u{00ED}', '\u{00F3}', '\u{00FA}', '\u{0104}', '\u{0105}', '\u{017D}', '\u{017E}',
        '\u{0118}', '\u{0119}', '\u{00AC}', '\u{017A}', '\u{010C}', '\u{015F}', '\u{00AB}', '\u{00BB}',
        '\u{2591}', '\u{2592}', '\u{2593}', '\u{2502}', '\u{2524}', '\u{00C1}', '\u{00C2}', '\u{011A}',
        '\u{015E}', '\u{2563}', '\u{2551}', '\u{2557}', '\u{255D}', '\u{017B}', '\u{017C}', '\u{2510}',
        '\u{2514}', '\u{2534}', '\u{252C}', '\u{251C}', '\u{2500}', '\u{253C}', '\u{0102}', '\u{0103}',
        '\u{255A}', '\u{2554}', '\u{2569}', '\u{2566}', '\u{2560}', '\u{2550}', '\u{256C}', '\u{00A4}',
        '\u{0111}', '\u{0110}', '\u{010E}', '\u{00CB}', '\u{010F}', '\u{0147}', '\u{00CD}', '\u{00CE}',
        '\u{011B}', '\u{2518}', '\u{250C}', '\u{2588}', '\u{2584}', '\u{0162}', '\u{016E}', '\u{2580}',
        '\u{00D3}', '\u{00DF}', '\u{00D4}', '\u{0143}', '\u{0144}', '\u{0148}', '\u{0160}', '\u{0161}',
        '\u{0154}', '\u{00DA}', '\u{0155}', '\u{0170}', '\u{00FD}', '\u{00DD}', '\u{0163}', '\u{00B4}',
        '\u{00AD}', '\u{02DD}', '\u{02DB}', '\u{02C7}', '\u{02D8}', '\u{00A7}', '\u{00F7}', '\u{00B8}',
        '\u{00B0}', '\u{00A8}', '\u{02D9}', '\u{0171}', '\u{0158}', '\u{0159}', '\u{25A0}', '\u{00A0}',
    ]
}

/// The CP852 high slots: every entry defined, the table is complete.
pub open spec fn cp852_high_slots() -> Seq<Option<char>> {
    cp852_decoding_table().map_values(|c: char| Some(c))
}

/// Decoding table (CP852 to Unicode) for bytes 128-255.
pub fn decoding_table_cp852() -> (t: Vec<char>)
    ensures
        t@ == cp852_decoding_table(),
        t@.len() == 128,
{
    let t: Vec<char> = vec![
        '\u{00C7}', '\u{00FC}', '\u{00E9}', '\u{00E2}', '\u{00E4}', '\u{016F}', '\u{0107}', '\u{00E7}',
        '\u{0142}', '\u{00EB}', '\u{0150}', '\u{0151}', '\u{00EE}', '\u{0179}', '\u{00C4}', '\u{0106}',
        '\u{00C9}', '\u{0139}', '\u{013A}', '\u{00F4}', '\u{00F6}', '\u{013D}', '\u{013E}', '\u{015A}',
        '\u{015B}', '\u{00D6}', '\u{00DC}', '\u{0164}', '\u{0165}', '\u{0141}', '\u{00D7}', '\u{010D}',
        '\u{00E1}', '\u{00ED}', '\u{00F3}', '\u{00FA}', '\u{0104}', '\u{0105}', '\u{017D}', '\u{017E}',
        '\u{0118}', '\u{0119}', '\u{00AC}', '\u{017A}', '\u{010C}', '\u{015F}', '\u{00AB}', '\u{00BB}',
        '\u{2591}', '\u{2592}', '\u{2593}', '\u{2502}', '\u{2524}', '\u{00C1}', '\u{00C2}', '\u{011A}',
        '\u{015E}', '\u{2563}', '\u{2551}', '\u{2557}', '\u{255D}', '\u{017B}', '\u{017C}', '\u{2510}',
        '\u{2514}', '\u{2534}', '\u{252C}', '\u{251C}', '\u{2500}', '\u{253C}', '\u{0102}', '\u{0103}',
        '\u{255A}', '\u{2554}', '\u{2569}', '\u{2566}', '\u{2560}', '\u{2550}', '\u{256C}', '\u{00A4}',
        '\u{0111}', '\u{0110}', '\u{010E}', '\u{00CB}', '\u{010F}', '\u{0147}', '\u{00CD}', '\u{00CE}',
        '\u{011B}', '\u{2518}', '\u{250C}', '\u{2588}', '\u{2584}', '\u{0162}', '\u{016E}', '\u{2580}',
        '\u{00D3}', '\u{00DF}', '\u{00D4}', '\u{0143}', '\u{0144}', '\u{0148}', '\u{0160}', '\u{0161}',
        '\u{0154}', '\u{00DA}', '\u{0155}', '\u{0170}', '\u{00FD}', '\u{00DD}', '\u{0163}', '\u{00B4}',
        '\u{00AD}', '\u{02DD}', '\u{02DB}', '\u{02C7}', '\u{02D8}', '\u{00A7}', '\u{00F7}', '\u{00B8}',
        '\u{00B0}', '\u{00A8}', '\u{02D9}', '\u{0171}', '\u{0158}', '\u{0159}', '\u{25A0}', '\u{00A0}',
    ];
    proof {
        assert(t@ =~= cp852_decoding_table());
    }
    t
}

/// The CP855 decoding table for bytes 128-255, as a mathematical
/// sequence: entry `i` is what byte `128 + i` decodes to.
pub open spec fn cp855_decoding_table() -> Seq<char> {
    seq![
        '\u{0452}', '\u{0402}', '\u{0453}', '\u{0403}', '\u{0451}', '\u{0401}', '\u{0454}', '\u{0404}',
        '\u{0455}', '\u{0405}', '\u{0456}', '\u{0406}', '\u{0457}', '\u{0407}', '\u{0458}', '\u{0408}',
        '\u{0459}', '\u{0409}', '\u{045A}', '\u{040A}', '\u{045B}', '\u{040B}', '\u{045C}', '\u{040C}',
        '\u{045E}', '\u{040E}', '\u{045F}', '\u{040F}', '\u{044E}', '\u{042E}', '\u{044A}', '\u{042A}',
        '\u{0430}', '\u{0410}', '\u{0431}', '\u{0411}', '\u{0446}', '\u{0426}', '\u{0434}', '\u{0414}',
        '\u{0435}', '\u{0415}', '\u{0444}', '\u{0424}', '\u{0433}', '\u{0413}', '\u{00AB}', '\u{00BB}',
        '\u{2591}', '\u{2592}', '\u{2593}', '\u{2502}', '\u{2524}', '\u{0445}', '\u{0425}', '\u{0438}',
        '\u{0418}', '\u{2563}', '\u{2551}', '\u{2557}', '\u{255D}', '\u{0439}', '\u{0419}', '\u{2510}',
        '\u{2514}', '\u{2534}', '\u{252C}', '\u{251C}', '\u{2500}', '\u{253C}', '\u{043A}', '\u{041A}',
        '\u{255A}', '\u{2554}', '\u{2569}', '\u{2566}', '\u{2560}', '\u{2550}', '\u{256C}', '\u{00A4}',
        '\u{043B}', '\u{041B}', '\u{043C}', '\u{041C}', '\u{043D}', '\u{041D}', '\u{043E}', '\u{041E}',
        '\u{043F}', '\u{2518}', '\u{250C}', '\u{2588}', '\u{2584}', '\u{041F}', '\u{044F}', '\u{2580}',
        '\u{042F}', '\u{0440}', '\u{0420}', '\u{0441}', '\u{0421}', '\u{0442}', '\u{0422}', '\u{0443}',
        '\u{0423}', '\u{0436}', '\u{0416}', '\u{0432}', '\u{0412}', '\u{044C}', '\u{042C}', '\u{2116}',
        '\u{00AD}', '\u{044B}', '\u{042B}', '\u{0437}', '\u{0417}', '\u{0448}', '\u{0428}', '\u{044D}',
        '\u{042D}', '\u{0449}', '\u{0429}', '\u{0447}', '\u{0427}', '\u{00A7}', '\u{25A0}', '\u{00A0}',
    ]
}

/// The CP855 high slots: every entry defined, the table is complete.
pub open spec fn cp855_high_slots() -> Seq<Option<char>> {
    cp855_decoding_table().map_values(|c: char| Some(c))
}

/// Decoding table (CP855 to Unicode) for bytes 128-255.
pub fn decoding_table_cp855() -> (t: Vec<char>)
    ensures
        t@ == cp855_decoding_table(),
        t@.len() == 128,
{
    let t: Vec<char> = vec![
        '\u{0452}', '\u{0402}', '\u{0453}', '\u{0403}', '\u{0451}', '\u{0401}', '\u{0454}', '\u{0404}',
        '\u{0455}', '\u{0405}', '\u{0456}', '\u{0406}', '\u{0457}', '\u{0407}', '\u{0458}', '\u{0408}',
        '\u{0459}', '\u{0409}', '\u{045A}', '\u{040A}', '\u{045B}', '\u{040B}', '\u{045C}', '\u{040C}',
        '\u{045E}', '\u{040E}', '\u{045F}', '\u{040F}', '\u{044E}', '\u{042E}', '\u{044A}', '\u{042A}',
        '\u{0430}', '\u{0410}', '\u{0431}', '\u{0411}', '\u{0446}', '\u{0426}', '\u{0434}', '\u{0414}',
        '\u{0435}', '\u{0415}', '\u{0444}', '\u{0424}', '\u{0433}', '\u{0413}', '\u{00AB}', '\u{00BB}',
        '\u{2591}', '\u{2592}', '\u{2593}', '\u{2502}', '\u{2524}', '\u{0445}', '\u{0425}', '\u{0438}',
        '\u{0418}', '\u{2563}', '\u{2551}', '\u{2557}', '\u{255D}', '\u{0439}', '\u{0419}', '\u{2510}',
        '\u{2514}', '\u{2534}', '\u{252C}', '\u{251C}', '\u{2500}', '\u{253C}', '\u{043A}', '\u{041A}',
        '\u{255A}', '\u{2554}', '\u{2569}', '\u{2566}', '\u{2560}', '\u{2550}', '\u{256C}', '\u{00A4}',
        '\u{043B}', '\u{041B}', '\u{043C}', '\u{041C}', '\u{043D}', '\u{041D}', '\u{043E}', '\u{041E}',
        '\u{043F}', '\u{2518}', '\u{250C}', '\u{2588}', '\u{2584}', '\u{041F}', '\u{044F}', '\u{2580}',
        '\u{042F}', '\u{0440}', '\u{0420}', '\u{0441}', '\u{0421}', '\u{0442}', '\u{0422}', '\u{0443}',
        '\u{0423}', '\u{0436}', '\u{0416}', '\u{0432}', '\u{0412}', '\u{044C}', '\u{042C}', '\u{2116}',
        '\u{00AD}', '\u{044B}', '\u{042B}', '\u{0437}', '\u{0417}', '\u{0448}', '\u{0428}', '\u{044D}',
        '\u{042D}', '\u{0449}', '\u{0429}', '\u{0447}', '\u{0427}', '\u{00A7}', '\u{25A0}', '\u{00A0}',
    ];
    proof {
        assert(t@ =~= cp855_decoding_table());
    }
    t
}

/// The CP857 decoding table for bytes 128-255, as a mathematical
/// sequence: entry `i` is what byte `128 + i` decodes to, `None`
/// where that byte is undefined.
pub open spec fn cp857_decoding_table() -> Seq<Option<char>> {
    seq![
        Some('\u{00C7}'), Some('\u{00FC}'), Some('\u{00E9}'), Some('\u{00E2}'),
        Some('\u{00E4}'), Some('\u{00E0}'), Some('\u{00E5}'), Some('\u{00E7}'),
        Some('\u{00EA}'), Some('\u{00EB}'), Some('\u{00E8}'), Some('\u{00EF}'),
        Some('\u{00EE}'), Some('\u{0131}'), Some('\u{00C4}'), Some('\u{00C5}'),
        Some('\u{00C9}'), Some('\u{00E6}'), Some('\u{00C6}'), Some('\u{00F4}'),
        Some('\u{00F6}'), Some('\u{00F2}'), Some('\u{00FB}'), Some('\u{00F9}'),
        Some('\u{0130}'), Some('\u{00D6}'), Some('\u{00DC}'), Some('\u{00F8}'),
        Some('\u{00A3}'), Some('\u{00D8}'), Some('\u{015E}'), Some('\u{015F}'),
        Some('\u{00E1}'), Some('\u{00ED}'), Some('\u{00F3}'), Some('\u{00FA}'),
        Some('\u{00F1}'), Some('\u{00D1}'), Some('\u{011E}'), Some('\u{011F}'),
        Some('\u{00BF}'), Some('\u{00AE}'), Some('\u{00AC}'), Some('\u{00BD}'),
        Some('\u{00BC}'), Some('\u{00A1}'), Some('\u{00AB}'), Some('\u{00BB}'),
        Some('\u{2591}'), Some('\u{2592}'), Some('\u{2593}'), Some('\u{2502}'),
        Some('\u{2524}'), Some('\u{00C1}'), Some('\u{00C2}'), Some('\u{00C0}'),
        Some('\u{00A9}'), Some('\u{2563}'), Some('\u{2551}'), Some('\u{2557}'),
        Some('\u{255D}'), Some('\u{00A2}'), Some('\u{00A5}'), Some('\u{2510}'),
        Some('\u{2514}'), Some('\u{2534}'), Some('\u{252C}'), Some('\u{251C}'),
        Some('\u{2500}'), Some('\u{253C}'), Some('\u{00E3}'), Some('\u{00C3}'),
        Some('\u{255A}'), Some('\u{2554}'), Some('\u{2569}'), Some('\u{2566}'),
        Some('\u{2560}'), Some('\u{2550}'), Some('\u{256C}'), Some('\u{00A4}'),
        Some('\u{00BA}'), Some('\u{00AA}'), Some('\u{00CA}'), Some('\u{00CB}'),
        Some('\u{00C8}'), None, Some('\u{00CD}'), Some('\u{00CE}'),
        Some('\u{00CF}'), Some('\u{2518}'), Some('\u{250C}'), Some('\u{2588}'),
        Some('\u{2584}'), Some('\u{00A6}'), Some('\u{00CC}'), Some('\u{2580}'),
        Some('\u{00D3}'), Some('\u{00DF}'), Some('\u{00D4}'), Some('\u{00D2}'),
        Some('\u{00F5}'), Some('\u{00D5}'), Some('\u{00B5}'), None,
        Some('\u{00D7}'), Some('\u{00DA}'), Some('\u{00DB}'), Some('\u{00D9}'),
        Some('\u{00EC}'), Some('\u{00FF}'), Some('\u{00AF}'), Some('\u{00B4}'),
        Some('\u{00AD}'), Some('\u{00B1}'), None, Some('\u{00BE}'),
        Some('\u{00B6}'), Some('\u{00A7}'), Some('\u{00F7}'), Some('\u{00B8}'),
        Some('\u{00B0}'), Some('\u{00A8}'), Some('\u{00B7}'), Some('\u{00B9}'),
        Some('\u{00B3}'), Some('\u{00B2}'), Some('\u{25A0}'), Some('\u{00A0}'),
    ]
}

/// Decoding table (CP857 to Unicode) for bytes 128-255; undefined
/// codepoints are `None`.
pub fn decoding_table_cp857() -> (t: Vec<Option<char>>)
    ensures
        t@ == cp857_decoding_table(),
        t@.len() == 128,
        exists|i: int| 0 <= i < 128 && t@[i] is None,
{
    let t: Vec<Option<char>> = vec![
        Some('\u{00C7}'), Some('\u{00FC}'), Some('\u{00E9}'), Some('\u{00E2}'),
        Some('\u{00E4}'), Some('\u{00E0}'), Some('\u{00E5}'), Some('\u{00E7}'),
        Some('\u{00EA}'), Some('\u{00EB}'), Some('\u{00E8}'), Some('\u{00EF}'),
        Some('\u{00EE}'), Some('\u{0131}'), Some('\u{00C4}'), Some('\u{00C5}'),
        Some('\u{00C9}'), Some('\u{00E6}'), Some('\u{00C6}'), Some('\u{00F4}'),
        Some('\u{00F6}'), Some('\u{00F2}'), Some('\u{00FB}'), Some('\u{00F9}'),
        Some('\u{0130}'), Some('\u{00D6}'), Some('\u{00DC}'), Some('\u{00F8}'),
        Some('\u{00A3}'), Some('\u{00D8}'), Some('\u{015E}'), Some('\u{015F}'),
        Some('\u{00E1}'), Some('\u{00ED}'), Some('\u{00F3}'), Some('\u{00FA}'),
        Some('\u{00F1}'), Some('\u{00D1}'), Some('\u{011E}'), Some('\u{011F}'),
        Some('\u{00BF}'), Some('\u{00AE}'), Some('\u{00AC}'), Some('\u{00BD}'),
        Some('\u{00BC}'), Some('\u{00A1}'), Some('\u{00AB}'), Some('\u{00BB}'),
        Some('\u{2591}'), Some('\u{2592}'), Some('\u{2593}'), Some('\u{2502}'),
        Some('\u{2524}'), Some('\u{00C1}'), Some('\u{00C2}'), Some('\u{00C0}'),
        Some('\u{00A9}'), Some('\u{2563}'), Some('\u{2551}'), Some('\u{2557}'),
        Some('\u{255D}'), Some('\u{00A2}'), Some('\u{00A5}'), Some('\u{2510}'),
        Some('\u{2514}'), Some('\u{2534}'), Some('\u{252C}'), Some('\u{251C}'),
        Some('\u{2500}'), Some('\u{253C}'), Some('\u{00E3}'), Some('\u{00C3}'),
        Some('\u{255A}'), Some('\u{2554}'), Some('\u{2569}'), Some('\u{2566}'),
        Some('\u{2560}'), Some('\u{2550}'), Some('\u{256C}'), Some('\u{00A4}'),
        Some('\u{00BA}'), Some('\u{00AA}'), Some('\u{00CA}'), Some('\u{00CB}'),
        Some('\u{00C8}'), None, Some('\u{00CD}'), Some('\u{00CE}'),
        Some('\u{00CF}'), Some('\u{2518}'), Some('\u{250C}'), Some('\u{2588}'),
        Some('\u{2584}'), Some('\u{00A6}'), Some('\u{00CC}'), Some('\u{2580}'),
        Some('\u{00D3}'), Some('\u{00DF}'), Some('\u{00D4}'), Some('\u{00D2}'),
        Some('\u{00F5}'), Some('\u{00D5}'), Some('\u{00B5}'), None,
        Some('\u{00D7}'), Some('\u{00DA}'), Some('\u{00DB}'), Some('\u{00D9}'),
        Some('\u{00EC}'), Some('\u{00FF}'), Some('\u{00AF}'), Some('\u{00B4}'),
        Some('\u{00AD}'), Some('\u{00B1}'), None, Some('\u{00BE}'),
        Some('\u{00B6}'), Some('\u{00A7}'), Some('\u{00F7}'), Some('\u{00B8}'),
        Some('\u{00B0}'), Some('\u{00A8}'), Some('\u{00B7}'), Some('\u{00B9}'),
        Some('\u{00B3}'), Some('\u{00B2}'), Some('\u{25A0}'), Some('\u{00A0}'),
    ];
    proof {
        assert(t@ =~= cp857_decoding_table());
        assert(t@[0x55] is None);
    }
    t
}

/// The CP862 decoding table for bytes 128-255, as a mathematical
/// sequence: entry `i` is what byte `128 + i` decodes to.
pub open spec fn cp862_decoding_table() -> Seq<char> {
    seq![
        '\u{05D0}', '\u{05D1}', '\u{05D2}', '\u{05D3}', '\u{05D4}', '\u{05D5}', '\u{05D6}', '\u{05D7}',
        '\u{05D8}', '\u{05D9}', '\u{05DA}', '\u{05DB}', '\u{05DC}', '\u{05DD}', '\u{05DE}', '\u{05DF}',
        '\u{05E0}', '\u{05E1}', '\u{05E2}', '\u{05E3}', '\u{05E4}', '\u{05E5}', '\u{05E6}', '\u{05E7}',
        '\u{05E8}', '\u{05E9}', '\u{05EA}', '\u{00A2}', '\u{00A3}', '\u{00A5}', '\u{20A7}', '\u{0192}',
        '\u{00E1}', '\u{00ED}', '\u{00F3}', '\u{00FA}', '\u{00F1}', '\u{00D1}', '\u{00AA}', '\u{00BA}',
        '\u{00BF}', '\u{2310}', '\u{00AC}', '\u{00BD}', '\u{00BC}', '\u{00A1}', '\u{00AB}', '\u{00BB}',
        '\u{2591}', '\u{2592}', '\u{2593}', '\u{2502}', '\u{2524}', '\u{2561}', '\u{2562}', '\u{2556}',
        '\u{2555}', '\u{2563}', '\u{2551}', '\u{2557}', '\u{255D}', '\u{255C}', '\u{255B}', '\u{2510}',
        '\u{2514}', '\u{2534}', '\u{252C}', '\u{251C}', '\u{2500}', '\u{253C}', '\u{255E}', '\u{255F}',
        '\u{255A}', '\u{2554}', '\u{2569}', '\u{2566}', '\u{2560}', '\u{2550}', '\u{256C}', '\u{2567}',
        '\u{2568}', '\u{2564}', '\u{2565}', '\u{2559}', '\u{2558}', '\u{2552}', '\u{2553}', '\u{256B}',
        '\u{256A}', '\u{2518}', '\u{250C}', '\u{2588}', '\u{2584}', '\u{258C}', '\u{2590}', '\u{2580}',
        '\u{03B1}', '\u{00DF}', '\u{0393}', '\u{03C0}', '\u{03A3}', '\u{03C3}', '\u{00B5}', '\u{03C4}',
        '\u{03A6}', '\u{0398}', '\u{03A9}', '\u{03B4}', '\u{221E}', '\u{03C6}', '\u{03B5}', '\u{2229}',
        '\u{2261}', '\u{00B1}', '\u{2265}', '\u{2264}', '\u{2320}', '\u{2321}', '\u{00F7}', '\u{2248}',
        '\u{00B0}', '\u{2219}', '\u{00B7}', '\u{221A}', '\u{207F}', '\u{00B2}', '\u{25A0}', '\u{00A0}',
    ]
}

/// The CP862 high slots: every entry defined, the table is complete.
pub open spec fn cp862_high_slots() -> Seq<Option<char>> {
    cp862_decoding_table().map_values(|c: char| Some(c))
}

/// Decoding table (CP862 to Unicode) for bytes 128-255.
pub fn decoding_table_cp862() -> (t: Vec<char>)
    ensures
        t@ == cp862_decoding_table(),
        t@.len() == 128,
{
    let t: Vec<char> = vec![
        '\u{05D0}', '\u{05D1}', '\u{05D2}', '\u{05D3}', '\u{05D4}', '\u{05D5}', '\u{05D6}', '\u{05D7}',
        '\u{05D8}', '\u{05D9}', '\u{05DA}', '\u{05DB}', '\u{05DC}', '\u{05DD}', '\u{05DE}', '\u{05DF}',
        '\u{05E0}', '\u{05E1}', '\u{05E2}', '\u{05E3}', '\u{05E4}', '\u{05E5}', '\u{05E6}', '\u{05E7}',
        '\u{05E8}', '\u{05E9}', '\u{05EA}', '\u{00A2}', '\u{00A3}', '\u{00A5}', '\u{20A7}', '\u{0192}',
        '\u{00E1}', '\u{00ED}', '\u{00F3}', '\u{00FA}', '\u{00F1}', '\u{00D1}', '\u{00AA}', '\u{00BA}',
        '\u{00BF}', '\u{2310}', '\u{00AC}', '\u{00BD}', '\u{00BC}', '\u{00A1}', '\u{00AB}', '\u{00BB}',
        '\u{2591}', '\u{2592}', '\u{2593}', '\u{2502}', '\u{2524}', '\u{2561}', '\u{2562}', '\u{2556}',
        '\u{2555}', '\u{2563}', '\u{2551}', '\u{2557}', '\u{255D}', '\u{255C}', '\u{255B}', '\u{2510}',
        '\u{2514}', '\u{2534}', '\u{252C}', '\u{251C}', '\u{2500}', '\u{253C}', '\u{255E}', '\u{255F}',
        '\u{255A}', '\u{2554}', '\u{2569}', '\u{2566}', '\u{2560}', '\u{2550}', '\u{256C}', '\u{2567}',
        '\u{2568}', '\u{2564}', '\u{2565}', '\u{2559}', '\u{2558}', '\u{2552}', '\u{2553}', '\u{256B}',
        '\u{256A}', '\u{2518}', '\u{250C}', '\u{2588}', '\u{2584}', '\u{258C}', '\u{2590}', '\u{2580}',
        '\u{03B1}', '\u{00DF}', '\u{0393}', '\u{03C0}', '\u{03A3}', '\u{03C3}', '\u{00B5}', '\u{03C4}',
        '\u{03A6}', '\u{0398}', '\u{03A9}', '\u{03B4}', '\u{221E}', '\u{03C6}', '\u{03B5}', '\u{2229}',
        '\u{2261}', '\u{00B1}', '\u{2265}', '\u{2264}', '\u{2320}', '\u{2321}', '\u{00F7}', '\u{2248}',
        '\u{00B0}', '\u{2219}', '\u{00B7}', '\u{221A}', '\u{207F}', '\u{00B2}', '\u{25A0}', '\u{00A0}',
    ];
    proof {
        assert(t@ =~= cp862_decoding_table());
    }
    t
}

/// The CP866 decoding table for bytes 128-255, as a mathematical
/// sequence: entry `i` is what byte `128 + i` decodes to.
pub open spec fn cp866_decoding_table() -> Seq<char> {
    seq![
        '\u{0410}', '\u{0411}', '\u{0412}', '\u{0413}', '\u{0414}', '\u{0415}', '\u{0416}', '\u{0417}',
        '\u{0418}', '\u{0419}', '\u{041A}', '\u{041B}', '\u{041C}', '\u{041D}', '\u{041E}', '\u{041F}',
        '\u{0420}', '\u{0421}', '\u{0422}', '\u{0423}', '\u{0424}', '\u{0425}', '\u{0426}', '\u{0427}',
        '\u{0428}', '\u{0429}', '\u{042A}', '\u{042B}', '\u{042C}', '\u{042D}', '\u{042E}', '\u{042F}',
        '\u{0430}', '\u{0431}', '\u{0432}', '\u{0433}', '\u{0434}', '\u{0435}', '\u{0436}', '\u{0437}',
        '\u{0438}', '\u{0439}', '\u{043A}', '\u{043B}', '\u{043C}', '\u{043D}', '\u{043E}', '\u{043F}',
        '\u{2591}', '\u{2592}', '\u{2593}', '\u{2502}', '\u{2524}', '\u{2561}', '\u{2562}', '\u{2556}',
        '\u{2555}', '\u{2563}', '\u{2551}', '\u{2557}', '\u{255D}', '\u{255C}', '\u{255B}', '\u{2510}',
        '\u{2514}', '\u{2534}', '\u{252C}', '\u{251C}', '\u{2500}', '\u{253C}', '\u{255E}', '\u{255F}',
        '\u{255A}', '\u{2554}', '\u{2569}', '\u{2566}', '\u{2560}', '\u{2550}', '\u{256C}', '\u{2567}',
        '\u{2568}', '\u{2564}', '\u{2565}', '\u{2559}', '\u{2558}', '\u{2552}', '\u{2553}', '\u{256B}',
        '\u{256A}', '\u{2518}', '\u{250C}', '\u{2588}', '\u{2584}', '\u{258C}', '\u{2590}', '\u{2580}',
        '\u{0440}', '\u{0441}', '\u{0442}', '\u{0443}', '\u{0444}', '\u{0445}', '\u{0446}', '\u{0447}',
        '\u{0448}', '\u{0449}', '\u{044A}', '\u{044B}', '\u{044C}', '\u{044D}', '\u{044E}', '\u{044F}',
        '\u{0401}', '\u{0451}', '\u{0404}', '\u{0454}', '\u{0407}', '\u{0457}', '\u{040E}', '\u{045E}',
        '\u{00B0}', '\u{2219}', '\u{00B7}', '\u{221A}', '\u{2116}', '\u{00A4}', '\u{25A0}', '\u{00A0}',
    ]
}

/// The CP866 high slots: every entry defined, the table is complete.
pub open spec fn cp866_high_slots() -> Seq<Option<char>> {
    cp866_decoding_table().map_values(|c: char| Some(c))
}

/// Decoding table (CP866 to Unicode) for bytes 128-255.
pub fn decoding_table_cp866() -> (t: Vec<char>)
    ensures
        t@ == cp866_decoding_table(),
        t@.len() == 128,
{
    let t: Vec<char> = vec![
        '\u{0410}', '\u{0411}', '\u{0412}', '\u{0413}', '\u{0414}', '\u{0415}', '\u{0416}', '\u{0417}',
        '\u{0418}', '\u{0419}', '\u{041A}', '\u{041B}', '\u{041C}', '\u{041D}', '\u{041E}', '\u{041F}',
        '\u{0420}', '\u{0421}', '\u{0422}', '\u{0423}', '\u{0424}', '\u{0425}', '\u{0426}', '\u{0427}',
        '\u{0428}', '\u{0429}', '\u{042A}', '\u{042B}', '\u{042C}', '\u{042D}', '\u{042E}', '\u{042F}',
        '\u{0430}', '\u{0431}', '\u{0432}', '\u{0433}', '\u{0434}', '\u{0435}', '\u{0436}', '\u{0437}',
        '\u{0438}', '\u{0439}', '\u{043A}', '\u{043B}', '\u{043C}', '\u{043D}', '\u{043E}', '\u{043F}',
        '\u{2591}', '\u{2592}', '\u{2593}', '\u{2502}', '\u{2524}', '\u{2561}', '\u{2562}', '\u{2556}',
        '\u{2555}', '\u{2563}', '\u{2551}', '\u{2557}', '\u{255D}', '\u{255C}', '\u{255B}', '\u{2510}',
        '\u{2514}', '\u{2534}', '\u{252C}', '\u{251C}', '\u{2500}', '\u{253C}', '\u{255E}', '\u{255F}',
        '\u{255A}', '\u{2554}', '\u{2569}', '\u{2566}', '\u{2560}', '\u{2550}', '\u{256C}', '\u{2567}',
        '\u{2568}', '\u{2564}', '\u{2565}', '\u{2559}', '\u{2558}', '\u{2552}', '\u{2553}', '\u{256B}',
        '\u{256A}', '\u{2518}', '\u{250C}', '\u{2588}', '\u{2584}', '\u{258C}', '\u{2590}', '\u{2580}',
        '\u{0440}', '\u{0441}', '\u{0442}', '\u{0443}', '\u{0444}', '\u{0445}', '\u{0446}', '\u{0447}',
        '\u{0448}', '\u{0449}', '\u{044A}', '\u{044B}', '\u{044C}', '\u{044D}', '\u{044E}', '\u{044F}',
        '\u{0401}', '\u{0451}', '\u{0404}', '\u{0454}', '\u{0407}', '\u{0457}', '\u{040E}', '\u{045E}',
        '\u{00B0}', '\u{2219}', '\u{00B7}', '\u{221A}', '\u{2116}', '\u{00A4}', '\u{25A0}', '\u{00A0}',
    ];
    proof {
        assert(t@ =~= cp866_decoding_table());
    }
    t
}

/// The CP874 decoding table for bytes 128-255, as a mathematical
/// sequence: entry `i` is what byte `128 + i` decodes to, `None`
/// where that byte is undefined.
pub open spec fn cp874_decoding_table() -> Seq<Option<char>> {
    seq![
        Some('\u{20AC}'), Some('\u{0081}'), Some('\u{0082}'), Some('\u{0083}'),
        Some('\u{0084}'), Some('\u{2026}'), Some('\u{0086}'), Some('\u{0087}'),
        Some('\u{0088}'), Some('\u{0089}'), Some('\u{008A}'), Some('\u{008B}'),
        Some('\u{008C}'), Some('\u{008D}'), Some('\u{008E}'), Some('\u{008F}'),
        Some('\u{0090}'), Some('\u{2018}'), Some('\u{2019}'), Some('\u{201C}'),
        Some('\u{201D}'), Some('\u{2022}'), Some('\u{2013}'), Some('\u{2014}'),
        Some('\u{0098}'), Some('\u{0099}'), Some('\u{009A}'), Some('\u{009B}'),
        Some('\u{009C}'), Some('\u{009D}'), Some('\u{009E}'), Some('\u{009F}'),
        Some('\u{00A0}'), Some('\u{0E01}'), Some('\u{0E02}'), Some('\u{0E03}'),
        Some('\u{0E04}'), Some('\u{0E05}'), Some('\u{0E06}'), Some('\u{0E07}'),
        Some('\u{0E08}'), Some('\u{0E09}'), Some('\u{0E0A}'), Some('\u{0E0B}'),
        Some('\u{0E0C}'), Some('\u{0E0D}'), Some('\u{0E0E}'), Some('\u{0E0F}'),
        Some('\u{0E10}'), Some('\u{0E11}'), Some('\u{0E12}'), Some('\u{0E13}'),
        Some('\u{0E14}'), Some('\u{0E15}'), Some('\u{0E16}'), Some('\u{0E17}'),
        Some('\u{0E18}'), Some('\u{0E19}'), Some('\u{0E1A}'), Some('\u{0E1B}'),
        Some('\u{0E1C}'), Some('\u{0E1D}'), Some('\u{0E1E}'), Some('\u{0E1F}'),
        Some('\u{0E20}'), Some('\u{0E21}'), Some('\u{0E22}'), Some('\u{0E23}'),
        Some('\u{0E24}'), Some('\u{0E25}'), Some('\u{0E26}'), Some('\u{0E27}'),
        Some('\u{0E28}'), Some('\u{0E29}'), Some('\u{0E2A}'), Some('\u{0E2B}'),
        Some('\u{0E2C}'), Some('\u{0E2D}'), Some('\u{0E2E}'), Some('\u{0E2F}'),
        Some('\u{0E30}'), Some('\u{0E31}'), Some('\u{0E32}'), Some('\u{0E33}'),
        Some('\u{0E34}'), Some('\u{0E35}'), Some('\u{0E36}'), Some('\u{0E37}'),
        Some('\u{0E38}'), Some('\u{0E39}'), Some('\u{0E3A}'), None,
        None, None, None, Some('\u{0E3F}'),
        Some('\u{0E40}'), Some('\u{0E41}'), Some('\u{0E42}'), Some('\u{0E43}'),
        Some('\u{0E44}'), Some('\u{0E45}'), Some('\u{0E46}'), Some('\u{0E47}'),
        Some('\u{0E48}'), Some('\u{0E49}'), Some('\u{0E4A}'), Some('\u{0E4B}'),
        Some('\u{0E4C}'), Some('\u{0E4D}'), Some('\u{0E4E}'), Some('\u{0E4F}'),
        Some('\u{0E50}'), Some('\u{0E51}'), Some('\u{0E52}'), Some('\u{0E53}'),
        Some('\u{0E54}'), Some('\u{0E55}'), Some('\u{0E56}'), Some('\u{0E57}'),
        Some('\u{0E58}'), Some('\u{0E59}'), Some('\u{0E5A}'), Some('\u{0E5B}'),
        None, None, None, None,
    ]
}

/// Decoding table (CP874 to Unicode) for bytes 128-255; undefined
/// codepoints are `None`.
pub fn decoding_table_cp874() -> (t: Vec<Option<char>>)
    ensures
        t@ == cp874_decoding_table(),
        t@.len() == 128,
        exists|i: int| 0 <= i < 128 && t@[i] is None,
{
    let t: Vec<Option<char>> = vec![
        Some('\u{20AC}'), Some('\u{0081}'), Some('\u{0082}'), Some('\u{0083}'),
        Some('\u{0084}'), Some('\u{2026}'), Some('\u{0086}'), Some('\u{0087}'),
        Some('\u{0088}'), Some('\u{0089}'), Some('\u{008A}'), Some('\u{008B}'),
        Some('\u{008C}'), Some('\u{008D}'), Some('\u{008E}'), Some('\u{008F}'),
        Some('\u{0090}'), Some('\u{2018}'), Some('\u{2019}'), Some('\u{201C}'),
        Some('\u{201D}'), Some('\u{2022}'), Some('\u{2013}'), Some('\u{2014}'),
        Some('\u{0098}'), Some('\u{0099}'), Some('\u{009A}'), Some('\u{009B}'),
        Some('\u{009C}'), Some('\u{009D}'), Some('\u{009E}'), Some('\u{009F}'),
        Some('\u{00A0}'), Some('\u{0E01}'), Some('\u{0E02}'), Some('\u{0E03}'),
        Some('\u{0E04}'), Some('\u{0E05}'), Some('\u{0E06}'), Some('\u{0E07}'),
        Some('\u{0E08}'), Some('\u{0E09}'), Some('\u{0E0A}'), Some('\u{0E0B}'),
        Some('\u{0E0C}'), Some('\u{0E0D}'), Some('\u{0E0E}'), Some('\u{0E0F}'),
        Some('\u{0E10}'), Some('\u{0E11}'), Some('\u{0E12}'), Some('\u{0E13}'),
        Some('\u{0E14}'), Some('\u{0E15}'), Some('\u{0E16}'), Some('\u{0E17}'),
        Some('\u{0E18}'), Some('\u{0E19}'), Some('\u{0E1A}'), Some('\u{0E1B}'),
        Some('\u{0E1C}'), Some('\u{0E1D}'), Some('\u{0E1E}'), Some('\u{0E1F}'),
        Some('\u{0E20}'), Some('\u{0E21}'), Some('\u{0E22}'), Some('\u{0E23}'),
        Some('\u{0E24}'), Some('\u{0E25}'), Some('\u{0E26}'), Some('\u{0E27}'),
        Some('\u{0E28}'), Some('\u{0E29}'), Some('\u{0E2A}'), Some('\u{0E2B}'),
        Some('\u{0E2C}'), Some('\u{0E2D}'), Some('\u{0E2E}'), Some('\u{0E2F}'),
        Some('\u{0E30}'), Some('\u{0E31}'), Some('\u{0E32}'), Some('\u{0E33}'),
        Some('\u{0E34}'), Some('\u{0E35}'), Some('\u{0E36}'), Some('\u{0E37}'),
        Some('\u{0E38}'), Some('\u{0E39}'), Some('\u{0E3A}'), None,
        None, None, None, Some('\u{0E3F}'),
        Some('\u{0E40}'), Some('\u{0E41}'), Some('\u{0E42}'), Some('\u{0E43}'),
        Some('\u{0E44}'), Some('\u{0E45}'), Some('\u{0E46}'), Some('\u{0E47}'),
        Some('\u{0E48}'), Some('\u{0E49}'), Some('\u{0E4A}'), Some('\u{0E4B}'),
        Some('\u{0E4C}'), Some('\u{0E4D}'), Some('\u{0E4E}'), Some('\u{0E4F}'),
        Some('\u{0E50}'), Some('\u{0E51}'), Some('\u{0E52}'), Some('\u{0E53}'),
        Some('\u{0E54}'), Some('\u{0E55}'), Some('\u{0E56}'), Some('\u{0E57}'),
        Some('\u{0E58}'), Some('\u{0E59}'), Some('\u{0E5A}'), Some('\u{0E5B}'),
        None, None, None, None,
    ];
    proof {
        assert(t@ =~= cp874_decoding_table());
        assert(t@[0x5b] is None);
    }
    t
}

/// Build both registries for the supported code pages, in ascending
/// code page order. Each code page's decoding table holds exactly its
/// named specification sequence, and its encoding table is the
/// inversion of that sequence.
pub fn code_table_maps() -> (r: (Registry<TableType>, Registry<EncodingTable>))
    ensures
        r.0.wf(),
        r.1.wf(),
        forall|id: u16| #[trigger] r.0@.dom().contains(id) <==> supported_codepage(id),
        forall|id: u16| #[trigger] r.1@.dom().contains(id) <==> supported_codepage(id),
        forall|id: u16| #[trigger] r.0@.dom().contains(id) ==> r.0@[id].wf(),
        forall|id: u16| #[trigger] r.0@.dom().contains(id) ==> r.1@[id]@ == inverted(
            r.0@[id].high_slots(),
        ),
        r.0@[437u16] is Complete,
        r.0@[437u16]->Complete_0@ == cp437_decoding_table(),
        r.1@[437u16]@ == inverted(cp437_high_slots()),
        r.0@[737u16] is Complete,
        r.0@[737u16]->Complete_0@ == cp737_decoding_table(),
        r.1@[737u16]@ == inverted(cp737_high_slots()),
        r.0@[775u16] is Complete,
        r.0@[775u16]->Complete_0@ == cp775_decoding_table(),
        r.1@[775u16]@ == inverted(cp775_high_slots()),
        r.0@[850u16] is Complete,
        r.0@[850u16]->Complete_0@ == cp850_decoding_table(),
        r.1@[850u16]@ == inverted(cp850_high_slots()),
        r.0@[852u16] is Complete,
        r.0@[852u16]->Complete_0@ == cp852_decoding_table(),
        r.1@[852u16]@ == inverted(cp852_high_slots()),
        r.0@[855u16] is Complete,
        r.0@[855u16]->Complete_0@ == cp855_decoding_table(),
        r.1@[855u16]@ == inverted(cp855_high_slots()),
        r.0@[857u16] is Incomplete,
        r.0@[857u16]->Incomplete_0@ == cp857_decoding_table(),
        r.1@[857u16]@ == inverted(cp857_decoding_table()),
        r.0@[862u16] is Complete,
        r.0@[862u16]->Complete_0@ == cp862_decoding_table(),
        r.1@[862u16]@ == inverted(cp862_high_slots()),
        r.0@[866u16] is Complete,
        r.0@[866u16]->Complete_0@ == cp866_decoding_table(),
        r.1@[866u16]@ == inverted(cp866_high_slots()),
        r.0@[874u16] is Incomplete,
        r.0@[874u16]->Incomplete_0@ == cp874_decoding_table(),
        r.1@[874u16]@ == inverted(cp874_decoding_table()),
{
    let mut decode: Registry<TableType> = Registry::new();
    let mut encode: Registry<EncodingTable> = Registry::new();

    let t437 = TableType::Complete(decoding_table_cp437());
    let e437 = build_encoding_table(&t437);
    proof {
        assert(t437.high_slots() =~= cp437_high_slots());
    }
    decode.insert_ascending(437, t437);
    encode.insert_ascending(437, e437);
    let t737 = TableType::Complete(decoding_table_cp737());
    let e737 = build_encoding_table(&t737);
    proof {
        assert(t737.high_slots() =~= cp737_high_slots());
    }
    decode.insert_ascending(737, t737);
    encode.insert_ascending(737, e737);
    let t775 = TableType::Complete(decoding_table_cp775());
    let e775 = build_encoding_table(&t775);
    proof {
        assert(t775.high_slots() =~= cp775_high_slots());
    }
    decode.insert_ascending(775, t775);
    encode.insert_ascending(775, e775);
    let t850 = TableType::Complete(decoding_table_cp850());
    let e850 = build_encoding_table(&t850);
    proof {
        assert(t850.high_slots() =~= cp850_high_slots());
    }
    decode.insert_ascending(850, t850);
    encode.insert_ascending(850, e850);
    let t852 = TableType::Complete(decoding_table_cp852());
    let e852 = build_encoding_table(&t852);
    proof {
        assert(t852.high_slots() =~= cp852_high_slots());
    }
    decode.insert_ascending(852, t852);
    encode.insert_ascending(852, e852);
    let t855 = TableType::Complete(decoding_table_cp855());
    let e855 = build_encoding_table(&t855);
    proof {
        assert(t855.high_slots() =~= cp855_high_slots());
    }
    decode.insert_ascending(855, t855);
    encode.insert_ascending(855, e855);
    let t857 = TableType::Incomplete(decoding_table_cp857());
    let e857 = build_encoding_table(&t857);
    proof {
        assert(t857.high_slots() =~= cp857_decoding_table());
    }
    decode.insert_ascending(857, t857);
    encode.insert_ascending(857, e857);
    let t862 = TableType::Complete(decoding_table_cp862());
    let e862 = build_encoding_table(&t862);
    proof {
        assert(t862.high_slots() =~= cp862_high_slots());
    }
    decode.insert_ascending(862, t862);
    encode.insert_ascending(862, e862);
    let t866 = TableType::Complete(decoding_table_cp866());
    let e866 = build_encoding_table(&t866);
    proof {
        assert(t866.high_slots() =~= cp866_high_slots());
    }
    decode.insert_ascending(866, t866);
    encode.insert_ascending(866, e866);
    let t874 = TableType::Incomplete(decoding_table_cp874());
    let e874 = build_encoding_table(&t874);
    proof {
        assert(t874.high_slots() =~= cp874_decoding_table());
    }
    decode.insert_ascending(874, t874);
    encode.insert_ascending(874, e874);
    (decode, encode)
}

/// The registry from code page to decoding table; an identifier outside
/// the supported set is reported as absent.
pub fn decoding_table_cp_map() -> (r: Registry<TableType>)
    ensures
        r.wf(),
        forall|id: u16| #[trigger] r@.dom().contains(id) <==> supported_codepage(id),
        forall|id: u16| #[trigger] r@.dom().contains(id) ==> r@[id].wf(),
        r@[437u16] is Complete,
        r@[437u16]->Complete_0@ == cp437_decoding_table(),
        r@[737u16] is Complete,
        r@[737u16]->Complete_0@ == cp737_decoding_table(),
        r@[775u16] is Complete,
        r@[775u16]->Complete_0@ == cp775_decoding_table(),
        r@[850u16] is Complete,
        r@[850u16]->Complete_0@ == cp850_decoding_table(),
        r@[852u16] is Complete,
        r@[852u16]->Complete_0@ == cp852_decoding_table(),
        r@[855u16] is Complete,
        r@[855u16]->Complete_0@ == cp855_decoding_table(),
        r@[857u16] is Incomplete,
        r@[857u16]->Incomplete_0@ == cp857_decoding_table(),
        r@[862u16] is Complete,
        r@[862u16]->Complete_0@ == cp862_decoding_table(),
        r@[866u16] is Complete,
        r@[866u16]->Complete_0@ == cp866_decoding_table(),
        r@[874u16] is Incomplete,
        r@[874u16]->Incomplete_0@ == cp874_decoding_table(),
{
    let (decode, _encode) = code_table_maps();
    decode
}

/// The registry from code page to encoding table; an identifier outside
/// the supported set is reported as absent. Each code page's encoding
/// table is the inversion of its named decoding sequence.
pub fn encoding_table_cp_map() -> (r: Registry<EncodingTable>)
    ensures
        r.wf(),
        forall|id: u16| #[trigger] r@.dom().contains(id) <==> supported_codepage(id),
        r@[437u16]@ == inverted(cp437_high_slots()),
        r@[737u16]@ == inverted(cp737_high_slots()),
        r@[775u16]@ == inverted(cp775_high_slots()),
        r@[850u16]@ == inverted(cp850_high_slots()),
        r@[852u16]@ == inverted(cp852_high_slots()),
        r@[855u16]@ == inverted(cp855_high_slots()),
        r@[857u16]@ == inverted(cp857_decoding_table()),
        r@[862u16]@ == inverted(cp862_high_slots()),
        r@[866u16]@ == inverted(cp866_high_slots()),
        r@[874u16]@ == inverted(cp874_decoding_table()),
{
    let (_decode, encode) = code_table_maps();
    encode
}

} // verus!
