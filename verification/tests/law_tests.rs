//! Concrete checks of the library's stated laws against the built-in
//! tables.

use oem_cp::code_table::code_table_maps;
use oem_cp::code_table::decoding_table_cp437;
use oem_cp::code_table::decoding_table_cp874;
use oem_cp::decode_char_complete_table;
use oem_cp::decode_char_incomplete_table_checked;
use oem_cp::decode_char_incomplete_table_lossy;
use oem_cp::encode_char_checked;
use oem_cp::encode_char_lossy;
use oem_cp::encode_string_lossy;
use oem_cp::TableType;

const SUPPORTED: [u16; 10] = [437, 737, 775, 850, 852, 855, 857, 862, 866, 874];

#[test]
fn ascii_bytes_decode_to_themselves() {
    let (decode_map, _) = code_table_maps();
    for cp in SUPPORTED {
        let table = decode_map.get(cp).unwrap();
        for b in 0u8..128 {
            assert_eq!(table.decode_char_checked(b), Some(b as char));
        }
    }
}

#[test]
fn ascii_chars_encode_to_themselves() {
    let (_, encode_map) = code_table_maps();
    for cp in SUPPORTED {
        let table = encode_map.get(cp).unwrap();
        for b in 0u8..128 {
            let c = b as char;
            assert_eq!(encode_char_checked(c, table), Some(b));
            assert_eq!(encode_char_lossy(c, table), b);
        }
    }
}

#[test]
fn lossy_decoding_never_fails_and_keeps_length() {
    let (decode_map, _) = code_table_maps();
    let all_bytes: Vec<u8> = (0u8..=255).collect();
    for cp in SUPPORTED {
        let table = decode_map.get(cp).unwrap();
        let decoded = table.decode_string_lossy(&all_bytes);
        assert_eq!(decoded.chars().count(), all_bytes.len());
    }
}

#[test]
fn lossy_encoding_never_fails_and_keeps_length() {
    let (_, encode_map) = code_table_maps();
    let input = "abc 日本語 √½π ไทย é";
    for cp in SUPPORTED {
        let table = encode_map.get(cp).unwrap();
        let encoded = encode_string_lossy(input, table);
        assert_eq!(encoded.len(), input.chars().count());
    }
}

#[test]
fn checked_decoding_fails_exactly_on_undefined_slots() {
    let (decode_map, _) = code_table_maps();
    let all_bytes: Vec<u8> = (0u8..=255).collect();
    for cp in SUPPORTED {
        let table = decode_map.get(cp).unwrap();
        let complete = matches!(table, TableType::Complete(_));
        let has_undefined = (128u8..=255)
            .any(|b| table.decode_char_checked(b).is_none());
        // A complete table defines every byte; an incomplete one has gaps.
        assert_eq!(complete, !has_undefined);
        // The whole-sequence result agrees with the per-byte results.
        let checked = table.decode_string_checked(&all_bytes);
        assert_eq!(checked.is_none(), has_undefined);
        // A sequence that avoids every undefined byte always decodes.
        let defined_bytes: Vec<u8> = (0u8..=255)
            .filter(|b| table.decode_char_checked(*b).is_some())
            .collect();
        let decoded = table.decode_string_checked(&defined_bytes).unwrap();
        assert_eq!(decoded.chars().count(), defined_bytes.len());
    }
}

#[test]
fn complete_tables_round_trip_high_bytes() {
    let (decode_map, encode_map) = code_table_maps();
    for cp in SUPPORTED {
        let table = decode_map.get(cp).unwrap();
        let enc = encode_map.get(cp).unwrap();
        for b in 128u8..=255 {
            match table.decode_char_checked(b) {
                Some(c) => assert_eq!(
                    encode_char_checked(c, enc),
                    Some(b),
                    "cp{cp}: 0x{b:02X} does not round-trip"
                ),
                None => assert!(
                    !matches!(table, TableType::Complete(_)),
                    "cp{cp}: complete table left 0x{b:02X} undefined"
                ),
            }
        }
    }
}

#[test]
fn single_byte_decoding_matches_known_codepoints() {
    let t437 = decoding_table_cp437();
    assert_eq!(decode_char_complete_table(0xFB, &t437), '√');
    assert_eq!(decode_char_complete_table(0x41, &t437), 'A');
    let t874 = decoding_table_cp874();
    assert_eq!(decode_char_incomplete_table_checked(0x85, &t874), Some('…'));
    assert_eq!(decode_char_incomplete_table_checked(0xFC, &t874), None);
    assert_eq!(decode_char_incomplete_table_lossy(0x85, &t874), '…');
    assert_eq!(decode_char_incomplete_table_lossy(0xFC, &t874), '\u{FFFD}');
}

#[test]
fn single_char_encoding_matches_known_bytes() {
    let (_, encode_map) = code_table_maps();
    let e437 = encode_map.get(437).unwrap();
    assert_eq!(encode_char_checked('π', e437), Some(0xE3));
    assert_eq!(encode_char_checked('日', e437), None);
    assert_eq!(encode_char_lossy('日', e437), 0x3F);
    let e737 = encode_map.get(737).unwrap();
    assert_eq!(encode_char_checked('Α', e737), Some(0x80));
}
