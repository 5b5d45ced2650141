//! Decoding and encoding against the built-in code tables.

use oem_cp::code_table::decoding_table_cp437;
use oem_cp::code_table::decoding_table_cp857;
use oem_cp::code_table::decoding_table_cp874;
use oem_cp::code_table::decoding_table_cp_map;
use oem_cp::code_table::encoding_table_cp_map;
use oem_cp::decode_string_complete_table;
use oem_cp::decode_string_incomplete_table_checked;
use oem_cp::decode_string_incomplete_table_lossy;
use oem_cp::encode_string_checked;
use oem_cp::encode_string_lossy;

fn cp437_valid_pairs() -> Vec<(&'static str, Vec<u8>)> {
    vec![
        ("√α²±ß²", vec![0xFB, 0xE0, 0xFD, 0xF1, 0xE1, 0xFD]),
        ("és", vec![0x82, 0x73]),
        ("più", vec![0x70, 0x69, 0x97]),
        ("½÷¼=2", vec![0xAB, 0xF6, 0xAC, 0x3D, 0x32]),
    ]
}

fn cp874_valid_pairs() -> Vec<(&'static str, Vec<u8>)> {
    vec![
        (
            "ราชอาณาจักรไท",
            vec![
                0xC3, 0xD2, 0xAA, 0xCD, 0xD2, 0xB3, 0xD2, 0xA8, 0xD1, 0xA1, 0xC3, 0xE4, 0xB7,
            ],
        ),
        (
            "ต้มยำกุ้ง",
            vec![0xB5, 0xE9, 0xC1, 0xC2, 0xD3, 0xA1, 0xD8, 0xE9, 0xA7],
        ),
    ]
}

fn cp857_valid_pairs() -> Vec<(&'static str, Vec<u8>)> {
    vec![
        ("½÷¼=2", vec![0xAB, 0xF6, 0xAC, 0x3D, 0x32]),
        ("¼×3=¾", vec![0xAC, 0xE8, 0x33, 0x3D, 0xF3]),
        ("İran", vec![0x98, 0x72, 0x61, 0x6E]),
        ("ırmak", vec![0x8D, 0x72, 0x6D, 0x61, 0x6B]),
        ("iş", vec![0x69, 0x9F]),
    ]
}

#[test]
fn cp437_encoding_test() {
    let encode_map = encoding_table_cp_map();
    let table = encode_map.get(437).unwrap();
    for (utf8_ref, cp437_ref) in &cp437_valid_pairs() {
        assert_eq!(&encode_string_lossy(utf8_ref, table), cp437_ref);
        assert_eq!(&(encode_string_checked(utf8_ref, table).unwrap()), cp437_ref);
    }
}

#[test]
fn cp437_decoding_test() {
    let table = decoding_table_cp437();
    for (utf8_ref, cp437_ref) in &cp437_valid_pairs() {
        assert_eq!(&decode_string_complete_table(cp437_ref, &table), *utf8_ref);
    }
}

#[test]
fn cp874_encoding_test() {
    let encode_map = encoding_table_cp_map();
    let table = encode_map.get(874).unwrap();
    for (utf8_ref, cp874_ref) in &cp874_valid_pairs() {
        assert_eq!(&encode_string_lossy(utf8_ref, table), cp874_ref);
        assert_eq!(&(encode_string_checked(utf8_ref, table).unwrap()), cp874_ref);
    }
}

#[test]
fn cp874_decoding_test() {
    let table = decoding_table_cp874();
    for (utf8_ref, cp874_ref) in &cp874_valid_pairs() {
        assert_eq!(
            &decode_string_incomplete_table_lossy(cp874_ref, &table),
            *utf8_ref
        );
        assert_eq!(
            &*(decode_string_incomplete_table_checked(cp874_ref, &table).unwrap_or_else(
                || panic!("{cp874_ref:?} (intended for {utf8_ref:?}) is not a valid cp874 bytes.")
            )),
            *utf8_ref
        );
    }
}

#[test]
fn cp857_encoding_test() {
    let encode_map = encoding_table_cp_map();
    let table = encode_map.get(857).unwrap();
    for (utf8_ref, cp857_ref) in &cp857_valid_pairs() {
        assert_eq!(&encode_string_lossy(utf8_ref, table), cp857_ref);
        assert_eq!(&(encode_string_checked(utf8_ref, table).unwrap()), cp857_ref);
    }
}

#[test]
fn cp857_decoding_test() {
    let table = decoding_table_cp857();
    for (utf8_ref, cp857_ref) in &cp857_valid_pairs() {
        assert_eq!(
            &decode_string_incomplete_table_lossy(cp857_ref, &table),
            *utf8_ref
        );
        assert_eq!(
            &*(decode_string_incomplete_table_checked(cp857_ref, &table).unwrap_or_else(
                || panic!("{cp857_ref:?} (intended for {utf8_ref:?}) is not a valid cp857 bytes.")
            )),
            *utf8_ref
        );
    }
}

#[test]
fn windows_codepages_coverage_test() {
    let windows_used_codepages: Vec<u16> = vec![437, 737, 775, 850, 852, 855, 857, 862, 866, 874];
    let encode_map = encoding_table_cp_map();
    let decode_map = decoding_table_cp_map();
    for cp in &windows_used_codepages {
        assert!(
            encode_map.get(*cp).is_some(),
            "Encoding table for cp{cp} is not defined",
        );
        assert!(
            decode_map.get(*cp).is_some(),
            "Decoding table for cp{cp} is not defined",
        );
    }
}

#[test]
fn unsupported_codepage_is_absent() {
    let encode_map = encoding_table_cp_map();
    let decode_map = decoding_table_cp_map();
    // CP932 (Shift-JIS; Japanese MBCS) is a multi-byte encoding and unsupported.
    assert!(decode_map.get(932).is_none());
    assert!(encode_map.get(932).is_none());
}

#[test]
fn cp437_decode_scenario() {
    let decode_map = decoding_table_cp_map();
    let table = decode_map.get(437).unwrap();
    assert_eq!(
        table.decode_string_checked(&[0xFB, 0xAC, 0x3D, 0xAB]),
        Some("√¼=½".to_string())
    );
    assert_eq!(table.decode_string_lossy(&[0xFB, 0xAC, 0x3D, 0xAB]), "√¼=½");
}

#[test]
fn cp874_undefined_byte_scenario() {
    let decode_map = decoding_table_cp_map();
    let table = decode_map.get(874).unwrap();
    assert_eq!(table.decode_string_checked(&[0x30, 0xDB]), None);
    assert_eq!(table.decode_string_lossy(&[0x30, 0xDB]), "0\u{FFFD}");
    assert_eq!(table.decode_char_checked(0x30), Some('0'));
    assert_eq!(table.decode_char_checked(0xDB), None);
}

#[test]
fn cp437_encode_scenario() {
    let encode_map = encoding_table_cp_map();
    let table = encode_map.get(437).unwrap();
    assert_eq!(
        encode_string_checked("π≈22/7", table),
        Some(vec![0xE3, 0xF7, 0x32, 0x32, 0x2F, 0x37])
    );
    assert_eq!(
        encode_string_lossy("π≈22/7", table),
        vec![0xE3, 0xF7, 0x32, 0x32, 0x2F, 0x37]
    );
}

#[test]
fn cp437_encode_unmappable_scenario() {
    let encode_map = encoding_table_cp_map();
    let table = encode_map.get(437).unwrap();
    assert_eq!(encode_string_checked("日本語ja_jp", table), None);
    assert_eq!(
        encode_string_lossy("日本語ja_jp", table),
        vec![0x3F, 0x3F, 0x3F, 0x6A, 0x61, 0x5F, 0x6A, 0x70]
    );
}
