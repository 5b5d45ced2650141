//! The table generation pipeline on small datasets.

use oem_cp::encode_char_checked;
use oem_cp::generator::generate_tables;
use oem_cp::generator::CodepagePatch;
use oem_cp::generator::GenerationInputError;
use oem_cp::generator::RawCodepageTable;
use oem_cp::TableType;

/// A raw table whose low half is the identity and whose high slots are
/// produced by `high`.
fn raw_table(id: u16, high: impl Fn(usize) -> Option<u32>) -> RawCodepageTable {
    let mut slots: Vec<Option<u32>> = Vec::new();
    for i in 0..128 {
        slots.push(Some(i as u32));
    }
    for i in 0..128 {
        slots.push(high(i));
    }
    RawCodepageTable { id, slots }
}

#[test]
fn generates_complete_table() {
    let raw = vec![raw_table(1, |i| Some(0x100 + i as u32))];
    let generated = generate_tables(&raw, &vec![]).unwrap();
    let table = generated.decode.get(1).unwrap();
    assert!(matches!(table, TableType::Complete(_)));
    assert_eq!(table.decode_char_checked(128), Some('\u{0100}'));
    assert_eq!(table.decode_char_checked(255), Some('\u{017F}'));
    let enc = generated.encode.get(1).unwrap();
    assert_eq!(encode_char_checked('\u{0100}', enc), Some(128));
    assert_eq!(encode_char_checked('\u{017F}', enc), Some(255));
    assert_eq!(encode_char_checked('\u{0180}', enc), None);
    // The encoding table holds one entry per defined slot, in byte order.
    assert_eq!(enc.len(), 128);
    let entries = enc.entries();
    assert_eq!(entries[0], ('\u{0100}', 128));
    assert_eq!(entries[127], ('\u{017F}', 255));
    assert!(generated.decode.get(2).is_none());
}

#[test]
fn generates_incomplete_table_with_gap() {
    let raw = vec![raw_table(7, |i| {
        if i == 5 {
            None
        } else {
            Some(0x100 + i as u32)
        }
    })];
    let generated = generate_tables(&raw, &vec![]).unwrap();
    let table = generated.decode.get(7).unwrap();
    assert!(matches!(table, TableType::Incomplete(_)));
    assert_eq!(table.decode_char_checked(128 + 5), None);
    assert_eq!(table.decode_char_checked(128 + 6), Some('\u{0106}'));
    assert_eq!(table.decode_string_checked(&[0x41, 128 + 5]), None);
    assert_eq!(table.decode_string_lossy(&[0x41, 128 + 5]), "A\u{FFFD}");
}

#[test]
fn patch_override_wins_over_raw_value() {
    let raw = vec![raw_table(3, |i| Some(0x100 + i as u32))];
    let patches = vec![CodepagePatch {
        id: 3,
        overrides: vec![(128, 0x20AC)],
    }];
    let generated = generate_tables(&raw, &patches).unwrap();
    let table = generated.decode.get(3).unwrap();
    assert_eq!(table.decode_char_checked(128), Some('€'));
    assert_eq!(table.decode_char_checked(129), Some('\u{0101}'));
}

#[test]
fn patch_fills_gap_and_completes_table() {
    let raw = vec![raw_table(4, |i| {
        if i == 0 {
            None
        } else {
            Some(0x100 + i as u32)
        }
    })];
    let patches = vec![CodepagePatch {
        id: 4,
        overrides: vec![(128, 0x20AC)],
    }];
    let generated = generate_tables(&raw, &patches).unwrap();
    let table = generated.decode.get(4).unwrap();
    assert!(matches!(table, TableType::Complete(_)));
    assert_eq!(table.decode_char_checked(128), Some('€'));
}

#[test]
fn higher_index_wins_encoding_tie_break() {
    // Slots 128 and 129 both decode to U+0100: the inverse map keeps
    // the later (higher) byte.
    let raw = vec![raw_table(5, |i| {
        if i <= 1 {
            Some(0x100)
        } else {
            Some(0x200 + i as u32)
        }
    })];
    let generated = generate_tables(&raw, &vec![]).unwrap();
    let enc = generated.encode.get(5).unwrap();
    assert_eq!(encode_char_checked('\u{0100}', enc), Some(129));
}

#[test]
fn registries_are_keyed_by_codepage() {
    let raw = vec![
        raw_table(874, |_| None),
        raw_table(437, |i| Some(0x100 + i as u32)),
    ];
    let generated = generate_tables(&raw, &vec![]).unwrap();
    assert!(generated.decode.get(437).is_some());
    assert!(generated.decode.get(874).is_some());
    assert!(generated.decode.get(932).is_none());
    assert!(generated.encode.get(437).is_some());
    assert!(generated.encode.get(874).is_some());
    assert!(generated.encode.get(932).is_none());
}

#[test]
fn wrong_slot_count_is_rejected() {
    let mut table = raw_table(1, |i| Some(0x100 + i as u32));
    table.slots.pop();
    let result = generate_tables(&vec![table], &vec![]);
    assert_eq!(result.unwrap_err(), GenerationInputError::WrongSlotCount);
}

#[test]
fn invalid_scalar_value_is_rejected() {
    // 0xD800 is a surrogate, not a Unicode scalar value.
    let raw = vec![raw_table(1, |i| {
        if i == 3 {
            Some(0xD800)
        } else {
            Some(0x100 + i as u32)
        }
    })];
    let result = generate_tables(&raw, &vec![]);
    assert_eq!(result.unwrap_err(), GenerationInputError::InvalidScalarValue);

    let raw = vec![raw_table(1, |i| Some(0x100 + i as u32))];
    let patches = vec![CodepagePatch {
        id: 1,
        overrides: vec![(128, 0x110000)],
    }];
    let result = generate_tables(&raw, &patches);
    assert_eq!(result.unwrap_err(), GenerationInputError::InvalidScalarValue);
}

#[test]
fn duplicate_codepage_is_rejected() {
    let raw = vec![
        raw_table(1, |i| Some(0x100 + i as u32)),
        raw_table(1, |i| Some(0x200 + i as u32)),
    ];
    let result = generate_tables(&raw, &vec![]);
    assert_eq!(result.unwrap_err(), GenerationInputError::DuplicateCodepage);
}

#[test]
fn malformed_patch_is_rejected() {
    let raw = vec![raw_table(1, |i| Some(0x100 + i as u32))];
    let patches = vec![
        CodepagePatch {
            id: 1,
            overrides: vec![(128, 0x20AC)],
        },
        CodepagePatch {
            id: 1,
            overrides: vec![(129, 0x20AC)],
        },
    ];
    let result = generate_tables(&raw, &patches);
    assert_eq!(result.unwrap_err(), GenerationInputError::MalformedPatch);

    let patches = vec![CodepagePatch {
        id: 1,
        overrides: vec![(128, 0x20AC), (128, 0x20AD)],
    }];
    let result = generate_tables(&raw, &patches);
    assert_eq!(result.unwrap_err(), GenerationInputError::MalformedPatch);
}

#[test]
fn unknown_patch_codepage_is_rejected() {
    let raw = vec![raw_table(1, |i| Some(0x100 + i as u32))];
    let patches = vec![CodepagePatch {
        id: 2,
        overrides: vec![(128, 0x20AC)],
    }];
    let result = generate_tables(&raw, &patches);
    assert_eq!(
        result.unwrap_err(),
        GenerationInputError::UnknownPatchCodepage
    );
}
