//! The string extension traits, decoding and encoding with a table in
//! hand.

use oem_cp::code_table::code_table_maps;
use oem_cp::StrExt;
use oem_cp::StringExt;
use oem_cp::TryFromCharError;
use oem_cp::TryFromU8Error;

#[test]
fn to_cp_encodes_or_reports_unmappable() {
    let (_, encode_map) = code_table_maps();
    let e437 = encode_map.get(437).unwrap();
    assert_eq!(
        "π≈22/7".to_cp(e437),
        Ok(vec![0xE3, 0xF7, 0x32, 0x32, 0x2F, 0x37])
    );
    let e737 = encode_map.get(737).unwrap();
    // Archimedes in Greek
    assert_eq!(
        "Αρχιμήδης".to_cp(e737),
        Ok(vec![0x80, 0xA8, 0xAE, 0xA0, 0xA3, 0xE3, 0x9B, 0x9E, 0xAA])
    );
    // Japanese characters are not defined in CP437
    assert_eq!("日本語ja_jp".to_cp(e437), Err(TryFromCharError));
}

#[test]
fn to_cp_lossy_substitutes_question_marks() {
    let (_, encode_map) = code_table_maps();
    let e437 = encode_map.get(437).unwrap();
    assert_eq!(
        "π≈22/7".to_cp_lossy(e437),
        vec![0xE3, 0xF7, 0x32, 0x32, 0x2F, 0x37]
    );
    // "日本語ja_jp" => "???ja_jp"
    assert_eq!(
        "日本語ja_jp".to_cp_lossy(e437),
        vec![0x3F, 0x3F, 0x3F, 0x6A, 0x61, 0x5F, 0x6A, 0x70]
    );
}

#[test]
fn try_from_cp_decodes_or_reports_undefined() {
    let (decode_map, _) = code_table_maps();
    let t874 = decode_map.get(874).unwrap();
    // means shrimp in Thai (U+E49 => 0xE9)
    assert_eq!(
        String::try_from_cp(&[0xA1, 0xD8, 0xE9, 0xA7], t874),
        Ok("กุ้ง".to_string())
    );
    // 0xDB-0xDE,0xFC-0xFF is invalid in CP874 in Windows
    assert_eq!(String::try_from_cp(&[0x30, 0xDB], t874), Err(TryFromU8Error));
}

#[test]
fn from_cp_lossy_substitutes_replacement_character() {
    let (decode_map, _) = code_table_maps();
    let t874 = decode_map.get(874).unwrap();
    assert_eq!(
        String::from_cp_lossy(&[0xA1, 0xD8, 0xE9, 0xA7], t874),
        "กุ้ง"
    );
    assert_eq!(String::from_cp_lossy(&[0x30, 0xDB], t874), "0\u{FFFD}");
}

#[test]
fn from_cp_decodes_with_complete_table() {
    let (decode_map, _) = code_table_maps();
    let t437 = decode_map.get(437).unwrap();
    assert_eq!(String::from_cp(&[0xFB, 0xAC, 0x3D, 0xAB], t437), "√¼=½");
}
