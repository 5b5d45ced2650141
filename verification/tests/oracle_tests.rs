//! Comparison of the built-in tables against an independently generated
//! reference library, byte by byte.

use oem_cp::code_table::code_table_maps;
use oem_cp::encode_char_checked;

use yore::code_pages::CP437;
use yore::code_pages::CP737;
use yore::code_pages::CP850;
use yore::code_pages::CP852;
use yore::code_pages::CP855;
use yore::code_pages::CP857;
use yore::code_pages::CP862;
use yore::code_pages::CP866;
use yore::code_pages::CP874;

fn compare_complete(cp: u16, reference: impl Fn(u8) -> char) {
    let (decode_map, encode_map) = code_table_maps();
    let table = decode_map.get(cp).unwrap();
    let enc = encode_map.get(cp).unwrap();
    for b in 0u8..=255 {
        let expected = reference(b);
        assert_eq!(
            table.decode_char_checked(b),
            Some(expected),
            "cp{cp}: decoding 0x{b:02X} diverges from the reference"
        );
        assert_eq!(
            encode_char_checked(expected, enc),
            Some(b),
            "cp{cp}: encoding {expected:?} diverges from the reference"
        );
    }
}

fn compare_incomplete(cp: u16, reference: impl Fn(u8) -> Option<char>) {
    let (decode_map, encode_map) = code_table_maps();
    let table = decode_map.get(cp).unwrap();
    let enc = encode_map.get(cp).unwrap();
    for b in 0u8..=255 {
        let expected = reference(b);
        assert_eq!(
            table.decode_char_checked(b),
            expected,
            "cp{cp}: decoding 0x{b:02X} diverges from the reference"
        );
        if let Some(c) = expected {
            assert_eq!(
                encode_char_checked(c, enc),
                Some(b),
                "cp{cp}: encoding {c:?} diverges from the reference"
            );
        }
    }
}

#[test]
fn cp437_matches_reference_library() {
    compare_complete(437, |b| CP437.decode_byte(b));
}

#[test]
fn cp737_matches_reference_library() {
    compare_complete(737, |b| CP737.decode_byte(b));
}

#[test]
fn cp850_matches_reference_library() {
    compare_complete(850, |b| CP850.decode_byte(b));
}

#[test]
fn cp852_matches_reference_library() {
    compare_complete(852, |b| CP852.decode_byte(b));
}

#[test]
fn cp855_matches_reference_library() {
    compare_complete(855, |b| CP855.decode_byte(b));
}

#[test]
fn cp857_matches_reference_library() {
    compare_incomplete(857, |b| CP857.decode_byte(b));
}

#[test]
fn cp862_matches_reference_library() {
    compare_complete(862, |b| CP862.decode_byte(b));
}

#[test]
fn cp866_matches_reference_library() {
    compare_complete(866, |b| CP866.decode_byte(b));
}

#[test]
fn cp874_matches_reference_library() {
    compare_incomplete(874, |b| CP874.decode_byte(b));
}
