//! The table generation pipeline: merging a raw mapping dataset with a
//! patch overlay, classifying each code page's table as complete or
//! incomplete, inverting it into an encoding table, and registering
//! everything by code page identifier.

use vstd::prelude::*;

use crate::code_table_type::TableType;
use crate::encoding_table::EncodingTable;
use crate::encoding_table::entries_map;
use crate::registry::Registry;

verus! {

/// The raw mapping of one code page: 256 slots, each either absent or a
/// candidate Unicode scalar value.
#[derive(Debug, Clone)]
pub struct RawCodepageTable {
    /// The numeric code page identifier.
    pub id: u16,
    /// One slot per byte value, in byte order; expected to hold exactly
    /// 256 entries.
    pub slots: Vec<Option<u32>>,
}

/// A sparse patch overlay for one code page: replacement scalar values
/// for individual byte slots, applied before classification.
#[derive(Debug, Clone)]
pub struct CodepagePatch {
    /// The code page the overrides apply to.
    pub id: u16,
    /// `(byte slot, replacement scalar value)` pairs.
    pub overrides: Vec<(u8, u32)>,
}

/// Why generation rejected its input. Any of these aborts generation:
/// a corrupt dataset must not produce partial tables.
#[derive(Clone, Copy, PartialEq, Eq, Debug)]
pub enum GenerationInputError {
    /// A raw mapping entry does not hold exactly 256 slots.
    WrongSlotCount,
    /// A value in the raw dataset or the patch overlay is not a valid
    /// Unicode scalar value.
    InvalidScalarValue,
    /// The raw dataset lists the same code page twice.
    DuplicateCodepage,
    /// The patch overlay lists the same code page twice, or patches the
    /// same slot of one code page twice.
    MalformedPatch,
    /// A patch refers to a code page that the raw dataset does not hold.
    UnknownPatchCodepage,
}

/// Whether `v` is a valid Unicode scalar value (a code point outside
/// the surrogate range).
pub open spec fn is_unicode_scalar(v: u32) -> bool {
    v < 0xD800 || (0xE000 <= v && v <= 0x10FFFF)
}

/// Relies on `char::from_u32`: every valid Unicode scalar value converts
/// to the `char` with exactly that code point.
#[verifier::external_body]
fn char_from_scalar(v: u32) -> (c: char)
    requires
        is_unicode_scalar(v),
    ensures
        c == (v as char),
        c as u32 == v,
{
    char::from_u32(v).unwrap_or('\u{0}')
}

/// The replacement value the patch overlay assigns to a byte slot:
/// the first override listed for that slot, if any.
pub open spec fn find_override(ov: Seq<(u8, u32)>, idx: u8) -> Option<u32>
    decreases ov.len(),
{
    if ov.len() == 0 {
        None
    } else if ov[0].0 == idx {
        Some(ov[0].1)
    } else {
        find_override(ov.drop_first(), idx)
    }
}

/// An override that `find_override` returns is one of the listed pairs.
proof fn lemma_find_override_member(ov: Seq<(u8, u32)>, idx: u8)
    requires
        find_override(ov, idx) is Some,
    ensures
        exists|j: int| 0 <= j < ov.len() && ov[j] == (idx, find_override(ov, idx)->Some_0),
    decreases ov.len(),
{
    if ov.len() > 0 && ov[0].0 != idx {
        lemma_find_override_member(ov.drop_first(), idx);
        let j = choose|j: int|
            0 <= j < ov.drop_first().len() && ov.drop_first()[j] == (
            idx,
            find_override(ov, idx)->Some_0,
            );
        assert(ov[j + 1] == (idx, find_override(ov, idx)->Some_0));
    }
}

/// The overrides the patch overlay holds for a code page: those of the
/// first patch listed for it, or none if it is unpatched.
pub open spec fn patch_overrides(patches: Seq<CodepagePatch>, id: u16) -> Seq<(u8, u32)>
    decreases patches.len(),
{
    if patches.len() == 0 {
        Seq::empty()
    } else if patches[0].id == id {
        patches[0].overrides@
    } else {
        patch_overrides(patches.drop_first(), id)
    }
}

/// A slot of the merged mapping: an override from the patch overlay
/// wins; otherwise the raw value (possibly absent) is kept.
pub open spec fn merged_slot(slots: Seq<Option<u32>>, ov: Seq<(u8, u32)>, idx: u8) -> Option<
    u32,
> {
    match find_override(ov, idx) {
        Some(v) => Some(v),
        None => slots[idx as int],
    }
}

/// The high half of the merged mapping, as characters: slot `i` holds
/// what byte `128 + i` decodes to.
pub open spec fn merged_chars(slots: Seq<Option<u32>>, ov: Seq<(u8, u32)>) -> Seq<Option<char>> {
    Seq::new(128, |i: int| match merged_slot(slots, ov, (i + 128) as u8) {
        Some(v) => Some(v as char),
        None => None,
    })
}

/// Look up the replacement the overrides assign to a byte slot.
fn find_override_exec(ov: &Vec<(u8, u32)>, idx: u8) -> (r: Option<u32>)
    ensures
        r == find_override(ov@, idx),
{
    let n = ov.len();
    let mut i: usize = 0;
    proof {
        assert(ov@.skip(0) =~= ov@);
    }
    while i < n
        invariant
            i <= n,
            n == ov@.len(),
            find_override(ov@, idx) == find_override(ov@.skip(i as int), idx),
        decreases n - i,
    {
        let (slot, v) = ov[i];
        proof {
            assert(ov@.skip(i as int)[0] == ov@[i as int]);
            assert(ov@.skip(i as int).drop_first() =~= ov@.skip(i + 1));
        }
        if slot == idx {
            return Some(v);
        }
        i = i + 1;
    }
    proof {
        assert(ov@.skip(n as int).len() == 0);
    }
    None
}

/// Find the patch listed for a code page.
fn find_patch_exec<'a>(patches: &'a Vec<CodepagePatch>, id: u16) -> (r: Option<
    &'a CodepagePatch,
>)
    ensures
        match r {
            Some(p) => p.id == id && p.overrides@ == patch_overrides(patches@, id),
            None => patch_overrides(patches@, id) == Seq::<(u8, u32)>::empty(),
        },
{
    let n = patches.len();
    let mut i: usize = 0;
    proof {
        assert(patches@.skip(0) =~= patches@);
    }
    while i < n
        invariant
            i <= n,
            n == patches@.len(),
            patch_overrides(patches@, id) == patch_overrides(patches@.skip(i as int), id),
        decreases n - i,
    {
        let p = &patches[i];
        proof {
            assert(patches@.skip(i as int)[0] == patches@[i as int]);
            assert(patches@.skip(i as int).drop_first() =~= patches@.skip(i + 1));
        }
        if p.id == id {
            return Some(p);
        }
        i = i + 1;
    }
    proof {
        assert(patches@.skip(n as int).len() == 0);
    }
    None
}

/// Merge one code page's raw slots with its patch overrides: a pure
/// transform, applied once before classification.
fn merge_codepage_table(slots: &Vec<Option<u32>>, ov: &Vec<(u8, u32)>) -> (m: Vec<Option<u32>>)
    requires
        slots@.len() == 256,
    ensures
        m@.len() == 256,
        forall|i: int| 0 <= i < 256 ==> m@[i] == merged_slot(slots@, ov@, i as u8),
{
    let mut m: Vec<Option<u32>> = Vec::new();
    let mut i: usize = 0;
    while i < 256
        invariant
            i <= 256,
            slots@.len() == 256,
            m@.len() == i,
            forall|k: int| 0 <= k < i ==> m@[k] == merged_slot(slots@, ov@, k as u8),
        decreases 256 - i,
    {
        let v = match find_override_exec(ov, i as u8) {
            Some(v) => Some(v),
            None => slots[i],
        };
        m.push(v);
        i = i + 1;
    }
    m
}

/// The high half of a merged mapping, as characters: slot `i` holds
/// what byte `128 + i` decodes to.
pub open spec fn chars_of_high(merged: Seq<Option<u32>>) -> Seq<Option<char>> {
    Seq::new(128, |i: int| match merged[i + 128] {
        Some(v) => Some(v as char),
        None => None,
    })
}

/// Classify a merged mapping's high half and slice it into a decoding
/// table: `Complete` when all 128 high slots are defined, `Incomplete`
/// otherwise.
fn build_decoding_table(merged: &Vec<Option<u32>>) -> (t: TableType)
    requires
        merged@.len() == 256,
        forall|i: int| 128 <= i < 256 && (#[trigger] merged@[i]) is Some ==> is_unicode_scalar(
            merged@[i]->Some_0,
        ),
    ensures
        t.wf(),
        t.high_slots() == chars_of_high(merged@),
        t.is_complete() <==> (forall|i: int| 128 <= i < 256 ==> (#[trigger] merged@[i]) is Some),
{
    let mut complete = true;
    let mut i: usize = 128;
    while i < 256
        invariant
            128 <= i <= 256,
            merged@.len() == 256,
            complete <==> (forall|k: int| 128 <= k < i ==> (#[trigger] merged@[k]) is Some),
        decreases 256 - i,
    {
        if merged[i].is_none() {
            complete = false;
        }
        i = i + 1;
    }
    if complete {
        let mut chars: Vec<char> = Vec::new();
        let mut i: usize = 128;
        while i < 256
            invariant
                128 <= i <= 256,
                merged@.len() == 256,
                forall|k: int| 128 <= k < 256 ==> (#[trigger] merged@[k]) is Some,
                forall|k: int| 128 <= k < 256 ==> is_unicode_scalar((
                #[trigger] merged@[k])->Some_0),
                chars@.len() == i - 128,
                forall|k: int| 0 <= k < i - 128 ==> (#[trigger] chars@[k]) == (merged@[k
                    + 128]->Some_0 as char),
            decreases 256 - i,
        {
            let c = match merged[i] {
                Some(v) => char_from_scalar(v),
                None => '\u{0}',
            };
            chars.push(c);
            i = i + 1;
        }
        let t = TableType::Complete(chars);
        proof {
            assert(t.high_slots() =~= chars_of_high(merged@));
        }
        t
    } else {
        let mut chars: Vec<Option<char>> = Vec::new();
        let mut i: usize = 128;
        while i < 256
            invariant
                128 <= i <= 256,
                merged@.len() == 256,
                forall|k: int| 128 <= k < 256 && (#[trigger] merged@[k]) is Some
                    ==> is_unicode_scalar(merged@[k]->Some_0),
                chars@.len() == i - 128,
                forall|k: int| 0 <= k < i - 128 ==> (#[trigger] chars@[k]) == (match merged@[k
                    + 128] {
                    Some(v) => Some(v as char),
                    None => None::<char>,
                }),
            decreases 256 - i,
        {
            let c = match merged[i] {
                Some(v) => Some(char_from_scalar(v)),
                None => None,
            };
            chars.push(c);
            i = i + 1;
        }
        let t = TableType::Incomplete(chars);
        proof {
            assert(t.high_slots() =~= chars_of_high(merged@));
            let k = choose|k: int| 128 <= k < 256 && !((#[trigger] merged@[k]) is Some);
            assert(t.high_slots()[k - 128] is None);
        }
        t
    }
}

/// The encoding-table entries obtained by scanning the first `n` high
/// slots in ascending index order: each defined slot `i` contributes
/// `(character, 128 + i)`.
pub open spec fn invert_entries_upto(slots: Seq<Option<char>>, n: int) -> Seq<(char, u8)>
    decreases n,
{
    if n <= 0 {
        Seq::empty()
    } else {
        let prefix = invert_entries_upto(slots, n - 1);
        match slots[n - 1] {
            Some(c) => prefix.push((c, (n + 127) as u8)),
            None => prefix,
        }
    }
}

/// The encoding map a decoding table's high half inverts to. When two
/// indices decode to the same character, the later (higher) index wins:
/// a documented tie-break, not an error.
pub open spec fn inverted(slots: Seq<Option<char>>) -> Map<char, u8> {
    entries_map(invert_entries_upto(slots, 128))
}

/// Invert a decoding table into an encoding table by scanning its
/// defined slots in ascending index order.
pub fn build_encoding_table(t: &TableType) -> (e: EncodingTable)
    requires
        t.wf(),
    ensures
        e.entry_seq() == invert_entries_upto(t.high_slots(), 128),
        e@ == inverted(t.high_slots()),
{
    let mut e = EncodingTable::new();
    let ghost slots = t.high_slots();
    match t {
        TableType::Complete(tab) => {
            let mut i: usize = 0;
            while i < 128
                invariant
                    i <= 128,
                    tab@.len() == 128,
                    slots == TableType::Complete(*tab).high_slots(),
                    e.entry_seq() == invert_entries_upto(slots, i as int),
                    e@ == entries_map(e.entry_seq()),
                decreases 128 - i,
            {
                e.insert(tab[i], (i + 128) as u8);
                i = i + 1;
                proof {
                    assert(e.entry_seq().drop_last() =~= invert_entries_upto(slots, i - 1));
                }
            }
        },
        TableType::Incomplete(tab) => {
            let mut i: usize = 0;
            while i < 128
                invariant
                    i <= 128,
                    tab@.len() == 128,
                    slots == TableType::Incomplete(*tab).high_slots(),
                    e.entry_seq() == invert_entries_upto(slots, i as int),
                    e@ == entries_map(e.entry_seq()),
                decreases 128 - i,
            {
                match tab[i] {
                    Some(c) => {
                        e.insert(c, (i + 128) as u8);
                        proof {
                            assert(e.entry_seq().drop_last() =~= invert_entries_upto(
                                slots,
                                i as int,
                            ));
                        }
                    },
                    None => {},
                }
                i = i + 1;
            }
        },
    }
    e
}

/// Every raw mapping entry holds exactly 256 slots.
pub open spec fn slot_counts_ok(raw: Seq<RawCodepageTable>) -> bool {
    forall|i: int| 0 <= i < raw.len() ==> (#[trigger] raw[i]).slots@.len() == 256
}

/// Every defined value in the raw dataset is a valid Unicode scalar.
pub open spec fn raw_scalars_ok(raw: Seq<RawCodepageTable>) -> bool {
    forall|i: int, j: int|
        0 <= i < raw.len() && 0 <= j < raw[i].slots@.len() && (#[trigger] raw[i].slots@[j])
            is Some ==> is_unicode_scalar(raw[i].slots@[j]->Some_0)
}

/// Every replacement value in the patch overlay is a valid Unicode scalar.
pub open spec fn patch_scalars_ok(patches: Seq<CodepagePatch>) -> bool {
    forall|i: int, j: int|
        0 <= i < patches.len() && 0 <= j < patches[i].overrides@.len() ==> is_unicode_scalar((
        #[trigger] patches[i].overrides@[j]).1)
}

/// No code page appears twice in the raw dataset.
pub open spec fn raw_ids_unique(raw: Seq<RawCodepageTable>) -> bool {
    forall|i: int, j: int|
        0 <= i < j < raw.len() ==> (#[trigger] raw[i]).id != (#[trigger] raw[j]).id
}

/// No code page appears twice in the patch overlay.
pub open spec fn patch_ids_unique(patches: Seq<CodepagePatch>) -> bool {
    forall|i: int, j: int|
        0 <= i < j < patches.len() ==> (#[trigger] patches[i]).id != (#[trigger] patches[j]).id
}

/// No patch lists the same byte slot twice.
pub open spec fn patch_slots_unique(patches: Seq<CodepagePatch>) -> bool {
    forall|p: int, i: int, j: int|
        0 <= p < patches.len() && 0 <= i < j < patches[p].overrides@.len() ==> (
        #[trigger] patches[p].overrides@[i]).0 != (#[trigger] patches[p].overrides@[j]).0
}

/// Whether the raw dataset holds a table for a code page.
pub open spec fn raw_has_id(raw: Seq<RawCodepageTable>, id: u16) -> bool {
    exists|i: int| 0 <= i < raw.len() && (#[trigger] raw[i]).id == id
}

/// Every patch refers to a code page present in the raw dataset.
pub open spec fn patch_targets_known(
    patches: Seq<CodepagePatch>,
    raw: Seq<RawCodepageTable>,
) -> bool {
    forall|p: int| 0 <= p < patches.len() ==> raw_has_id(raw, (#[trigger] patches[p]).id)
}

/// The error, if any, with which generation rejects an input pair:
/// the checks run in this fixed order and the first failing one names
/// the error.
pub open spec fn generation_error(
    raw: Seq<RawCodepageTable>,
    patches: Seq<CodepagePatch>,
) -> Option<GenerationInputError> {
    if !slot_counts_ok(raw) {
        Some(GenerationInputError::WrongSlotCount)
    } else if !(raw_scalars_ok(raw) && patch_scalars_ok(patches)) {
        Some(GenerationInputError::InvalidScalarValue)
    } else if !raw_ids_unique(raw) {
        Some(GenerationInputError::DuplicateCodepage)
    } else if !(patch_ids_unique(patches) && patch_slots_unique(patches)) {
        Some(GenerationInputError::MalformedPatch)
    } else if !patch_targets_known(patches, raw) {
        Some(GenerationInputError::UnknownPatchCodepage)
    } else {
        None
    }
}

/// The generator's output: the two registries, one snapshot, consumed
/// read-only from then on.
#[derive(Debug)]
pub struct GeneratedTables {
    /// Code page to decoding table.
    pub decode: Registry<TableType>,
    /// Code page to encoding table.
    pub encode: Registry<EncodingTable>,
}

impl GeneratedTables {
    /// The registries hold, for code page `raw[i].id`, exactly the
    /// tables that merging, classification and inversion describe.
    pub open spec fn entry_matches(
        &self,
        raw: Seq<RawCodepageTable>,
        patches: Seq<CodepagePatch>,
        i: int,
    ) -> bool {
        let id = raw[i].id;
        let slots = merged_chars(raw[i].slots@, patch_overrides(patches, id));
        &&& self.decode@.dom().contains(id)
        &&& self.encode@.dom().contains(id)
        &&& self.decode@[id].wf()
        &&& self.decode@[id].high_slots() == slots
        &&& (self.decode@[id].is_complete() <==> (forall|k: int|
            0 <= k < 128 ==> (#[trigger] slots[k]) is Some))
        &&& self.encode@[id].entry_seq() == invert_entries_upto(slots, 128)
        &&& self.encode@[id]@ == inverted(slots)
    }

    /// Both registries describe exactly the code pages of the raw
    /// dataset, each with the tables generation derives for it.
    pub open spec fn matches_input(
        &self,
        raw: Seq<RawCodepageTable>,
        patches: Seq<CodepagePatch>,
    ) -> bool {
        &&& self.decode.wf()
        &&& self.encode.wf()
        &&& forall|id: u16| self.decode@.dom().contains(id) <==> raw_has_id(raw, id)
        &&& forall|id: u16| self.encode@.dom().contains(id) <==> raw_has_id(raw, id)
        &&& forall|i: int| 0 <= i < raw.len() ==> self.entry_matches(raw, patches, i)
    }
}

/// Check that every raw entry holds exactly 256 slots.
fn check_slot_counts(raw: &Vec<RawCodepageTable>) -> (b: bool)
    ensures
        b == slot_counts_ok(raw@),
{
    let n = raw.len();
    let mut i: usize = 0;
    while i < n
        invariant
            i <= n,
            n == raw@.len(),
            forall|k: int| 0 <= k < i ==> (#[trigger] raw@[k]).slots@.len() == 256,
        decreases n - i,
    {
        if raw[i].slots.len() != 256 {
            return false;
        }
        i = i + 1;
    }
    true
}

/// Check whether `v` is a valid Unicode scalar value.
fn is_unicode_scalar_exec(v: u32) -> (b: bool)
    ensures
        b == is_unicode_scalar(v),
{
    v < 0xD800 || (0xE000 <= v && v <= 0x10FFFF)
}

/// Check that every defined raw value is a valid Unicode scalar.
fn check_raw_scalars(raw: &Vec<RawCodepageTable>) -> (b: bool)
    ensures
        b == raw_scalars_ok(raw@),
{
    let n = raw.len();
    let mut i: usize = 0;
    while i < n
        invariant
            i <= n,
            n == raw@.len(),
            forall|i2: int, j2: int|
                0 <= i2 < i && 0 <= j2 < raw@[i2].slots@.len() && (
                #[trigger] raw@[i2].slots@[j2]) is Some ==> is_unicode_scalar(
                    raw@[i2].slots@[j2]->Some_0,
                ),
        decreases n - i,
    {
        let row = &raw[i];
        let m = row.slots.len();
        let mut j: usize = 0;
        while j < m
            invariant
                j <= m,
                i < n,
                n == raw@.len(),
                m == raw@[i as int].slots@.len(),
                row == raw@[i as int],
                forall|j2: int|
                    0 <= j2 < j && (#[trigger] raw@[i as int].slots@[j2]) is Some
                        ==> is_unicode_scalar(raw@[i as int].slots@[j2]->Some_0),
            decreases m - j,
        {
            match row.slots[j] {
                Some(v) => {
                    if !is_unicode_scalar_exec(v) {
                        return false;
                    }
                },
                None => {},
            }
            j = j + 1;
        }
        i = i + 1;
    }
    true
}

/// Check that every patch replacement value is a valid Unicode scalar.
fn check_patch_scalars(patches: &Vec<CodepagePatch>) -> (b: bool)
    ensures
        b == patch_scalars_ok(patches@),
{
    let n = patches.len();
    let mut i: usize = 0;
    while i < n
        invariant
            i <= n,
            n == patches@.len(),
            forall|i2: int, j2: int|
                0 <= i2 < i && 0 <= j2 < patches@[i2].overrides@.len() ==> is_unicode_scalar((
                #[trigger] patches@[i2].overrides@[j2]).1),
        decreases n - i,
    {
        let row = &patches[i];
        let m = row.overrides.len();
        let mut j: usize = 0;
        while j < m
            invariant
                j <= m,
                i < n,
                n == patches@.len(),
                m == patches@[i as int].overrides@.len(),
                row == patches@[i as int],
                forall|j2: int|
                    0 <= j2 < j ==> is_unicode_scalar((
                    #[trigger] patches@[i as int].overrides@[j2]).1),
            decreases m - j,
        {
            let (_slot, v) = row.overrides[j];
            if !is_unicode_scalar_exec(v) {
                return false;
            }
            j = j + 1;
        }
        i = i + 1;
    }
    true
}

/// Check that no code page appears twice in the raw dataset.
fn check_raw_ids_unique(raw: &Vec<RawCodepageTable>) -> (b: bool)
    ensures
        b == raw_ids_unique(raw@),
{
    let n = raw.len();
    let mut i: usize = 0;
    while i < n
        invariant
            i <= n,
            n == raw@.len(),
            forall|i2: int, j2: int|
                0 <= i2 < j2 < raw@.len() && i2 < i ==> (#[trigger] raw@[i2]).id != (
                #[trigger] raw@[j2]).id,
        decreases n - i,
    {
        let id = raw[i].id;
        let mut j: usize = i + 1;
        while j < n
            invariant
                i < j <= n,
                n == raw@.len(),
                id == raw@[i as int].id,
                forall|j2: int|
                    i < j2 < j ==> (#[trigger] raw@[j2]).id != raw@[i as int].id,
            decreases n - j,
        {
            if raw[j].id == id {
                return false;
            }
            j = j + 1;
        }
        i = i + 1;
    }
    true
}

/// Check that no code page appears twice in the patch overlay.
fn check_patch_ids_unique(patches: &Vec<CodepagePatch>) -> (b: bool)
    ensures
        b == patch_ids_unique(patches@),
{
    let n = patches.len();
    let mut i: usize = 0;
    while i < n
        invariant
            i <= n,
            n == patches@.len(),
            forall|i2: int, j2: int|
                0 <= i2 < j2 < patches@.len() && i2 < i ==> (#[trigger] patches@[i2]).id != (
                #[trigger] patches@[j2]).id,
        decreases n - i,
    {
        let id = patches[i].id;
        let mut j: usize = i + 1;
        while j < n
            invariant
                i < j <= n,
                n == patches@.len(),
                id == patches@[i as int].id,
                forall|j2: int|
                    i < j2 < j ==> (#[trigger] patches@[j2]).id != patches@[i as int].id,
            decreases n - j,
        {
            if patches[j].id == id {
                return false;
            }
            j = j + 1;
        }
        i = i + 1;
    }
    true
}

/// Check that no patch lists the same byte slot twice.
fn check_patch_slots_unique(patches: &Vec<CodepagePatch>) -> (b: bool)
    ensures
        b == patch_slots_unique(patches@),
{
    let n = patches.len();
    let mut p: usize = 0;
    while p < n
        invariant
            p <= n,
            n == patches@.len(),
            forall|p2: int, i2: int, j2: int|
                0 <= p2 < p && 0 <= i2 < j2 < patches@[p2].overrides@.len() ==> (
                #[trigger] patches@[p2].overrides@[i2]).0 != (
                #[trigger] patches@[p2].overrides@[j2]).0,
        decreases n - p,
    {
        let row = &patches[p];
        let m = row.overrides.len();
        let mut i: usize = 0;
        while i < m
            invariant
                i <= m,
                p < n,
                n == patches@.len(),
                m == patches@[p as int].overrides@.len(),
                row == patches@[p as int],
                forall|i2: int, j2: int|
                    0 <= i2 < j2 < patches@[p as int].overrides@.len() && i2 < i ==> (
                    #[trigger] patches@[p as int].overrides@[i2]).0 != (
                    #[trigger] patches@[p as int].overrides@[j2]).0,
            decreases m - i,
        {
            let (slot, _v) = row.overrides[i];
            let mut j: usize = i + 1;
            while j < m
                invariant
                    i < j <= m,
                    p < n,
                    n == patches@.len(),
                    m == patches@[p as int].overrides@.len(),
                    row == patches@[p as int],
                    slot == patches@[p as int].overrides@[i as int].0,
                    forall|j2: int|
                        i < j2 < j ==> (#[trigger] patches@[p as int].overrides@[j2]).0
                            != patches@[p as int].overrides@[i as int].0,
                decreases m - j,
            {
                let (slot2, _v2) = row.overrides[j];
                if slot2 == slot {
                    return false;
                }
                j = j + 1;
            }
            i = i + 1;
        }
        p = p + 1;
    }
    true
}

/// Find the raw dataset's table for a code page.
fn find_raw_exec(raw: &Vec<RawCodepageTable>, id: u16) -> (r: Option<usize>)
    ensures
        match r {
            Some(ix) => ix < raw@.len() && raw@[ix as int].id == id,
            None => !raw_has_id(raw@, id),
        },
{
    let n = raw.len();
    let mut i: usize = 0;
    while i < n
        invariant
            i <= n,
            n == raw@.len(),
            forall|k: int| 0 <= k < i ==> (#[trigger] raw@[k]).id != id,
        decreases n - i,
    {
        if raw[i].id == id {
            return Some(i);
        }
        i = i + 1;
    }
    None
}

/// Check that every patch refers to a code page of the raw dataset.
fn check_patch_targets(patches: &Vec<CodepagePatch>, raw: &Vec<RawCodepageTable>) -> (b: bool)
    ensures
        b == patch_targets_known(patches@, raw@),
{
    let n = patches.len();
    let mut i: usize = 0;
    while i < n
        invariant
            i <= n,
            n == patches@.len(),
            forall|k: int| 0 <= k < i ==> raw_has_id(raw@, (#[trigger] patches@[k]).id),
        decreases n - i,
    {
        match find_raw_exec(raw, patches[i].id) {
            Some(_) => {},
            None => {
                return false;
            },
        }
        i = i + 1;
    }
    true
}

/// Every override a patched code page's merged mapping can take is a
/// valid scalar, given valid patch values.
proof fn lemma_patch_overrides_scalars(patches: Seq<CodepagePatch>, id: u16)
    requires
        patch_scalars_ok(patches),
    ensures
        forall|j: int|
            0 <= j < patch_overrides(patches, id).len() ==> is_unicode_scalar((
            #[trigger] patch_overrides(patches, id)[j]).1),
    decreases patches.len(),
{
    if patches.len() > 0 && patches[0].id == id {
        assert forall|j: int|
            0 <= j < patch_overrides(patches, id).len() implies is_unicode_scalar((
        #[trigger] patch_overrides(patches, id)[j]).1) by {
            assert(is_unicode_scalar(patches[0].overrides@[j].1));
        }
    }
    if patches.len() > 0 && patches[0].id != id {
        assert forall|i2: int, j2: int|
            0 <= i2 < patches.drop_first().len() && 0 <= j2
                < patches.drop_first()[i2].overrides@.len() implies is_unicode_scalar((
        #[trigger] patches.drop_first()[i2].overrides@[j2]).1) by {
            assert(patches.drop_first()[i2] == patches[i2 + 1]);
            assert(is_unicode_scalar(patches[i2 + 1].overrides@[j2].1));
        }
        lemma_patch_overrides_scalars(patches.drop_first(), id);
        assert(patch_overrides(patches, id) == patch_overrides(patches.drop_first(), id));
        assert forall|j: int|
            0 <= j < patch_overrides(patches, id).len() implies is_unicode_scalar((
        #[trigger] patch_overrides(patches, id)[j]).1) by {
            assert(is_unicode_scalar(patch_overrides(patches.drop_first(), id)[j].1));
        }
    }
}

/// Generate, for every code page of the raw dataset, its decoding and
/// encoding tables, registered in ascending code page order.
///
/// Merging applies the patch overlay on top of the raw mapping, with an
/// override winning over the raw value; classification then inspects
/// the 128 high slots. Identical inputs always produce identical
/// output: the construction order is fully specified.
///
/// A malformed input pair is rejected with the error that
/// [`generation_error`] assigns to it; nothing is generated then.
pub fn generate_tables(raw: &Vec<RawCodepageTable>, patches: &Vec<CodepagePatch>) -> (r: Result<
    GeneratedTables,
    GenerationInputError,
>)
    ensures
        match r {
            Ok(g) => generation_error(raw@, patches@) is None && g.matches_input(raw@, patches@),
            Err(e) => generation_error(raw@, patches@) == Some(e),
        },
{
    if !check_slot_counts(raw) {
        return Err(GenerationInputError::WrongSlotCount);
    }
    if !(check_raw_scalars(raw) && check_patch_scalars(patches)) {
        return Err(GenerationInputError::InvalidScalarValue);
    }
    if !check_raw_ids_unique(raw) {
        return Err(GenerationInputError::DuplicateCodepage);
    }
    if !(check_patch_ids_unique(patches) && check_patch_slots_unique(patches)) {
        return Err(GenerationInputError::MalformedPatch);
    }
    if !check_patch_targets(patches, raw) {
        return Err(GenerationInputError::UnknownPatchCodepage);
    }
    let empty_overrides: Vec<(u8, u32)> = Vec::new();
    let mut decode: Registry<TableType> = Registry::new();
    let mut encode: Registry<EncodingTable> = Registry::new();
    let mut idu: usize = 0;
    while idu < 65536
        invariant
            idu <= 65536,
            slot_counts_ok(raw@),
            raw_scalars_ok(raw@),
            patch_scalars_ok(patches@),
            raw_ids_unique(raw@),
            empty_overrides@.len() == 0,
            decode.wf(),
            encode.wf(),
            forall|id: u16|
                #[trigger] decode@.dom().contains(id) <==> (raw_has_id(raw@, id) && (id as int)
                    < idu),
            forall|id: u16|
                #[trigger] encode@.dom().contains(id) <==> (raw_has_id(raw@, id) && (id as int)
                    < idu),
            forall|i: int|
                0 <= i < raw@.len() && (raw@[i].id as int) < idu ==> (GeneratedTables {
                    decode,
                    encode,
                }).entry_matches(raw@, patches@, i),
        decreases 65536 - idu,
    {
        let id: u16 = idu as u16;
        match find_raw_exec(raw, id) {
            Some(ix) => {
                let row = &raw[ix];
                let patch = find_patch_exec(patches, id);
                let ov: &Vec<(u8, u32)> = match patch {
                    Some(p) => &p.overrides,
                    None => &empty_overrides,
                };
                proof {
                    assert(ov@ =~= patch_overrides(patches@, id));
                }
                let merged = merge_codepage_table(&row.slots, ov);
                proof {
                    lemma_patch_overrides_scalars(patches@, id);
                    assert forall|k: int| 128 <= k < 256 && (#[trigger] merged@[k])
                        is Some implies is_unicode_scalar(merged@[k]->Some_0) by {
                        assert(merged@[k] == merged_slot(row.slots@, ov@, k as u8));
                        if find_override(ov@, k as u8) is Some {
                            lemma_find_override_member(ov@, k as u8);
                        } else {
                            assert(raw@[ix as int].slots@[k] is Some ==> is_unicode_scalar(
                                raw@[ix as int].slots@[k]->Some_0,
                            ));
                        }
                    }
                }
                let t = build_decoding_table(&merged);
                let e = build_encoding_table(&t);
                let ghost old_decode = decode;
                let ghost old_encode = encode;
                decode.insert_ascending(id, t);
                encode.insert_ascending(id, e);
                idu = idu + 1;
                proof {
                    let g = GeneratedTables { decode, encode };
                    assert(t.high_slots() =~= merged_chars(
                        raw@[ix as int].slots@,
                        patch_overrides(patches@, id),
                    ));
                    assert forall|i: int|
                        0 <= i < raw@.len() && (raw@[i].id as int) < idu implies g.entry_matches(
                        raw@,
                        patches@,
                        i,
                    ) by {
                        if raw@[i].id == id {
                            assert(i == ix as int);
                        } else {
                            assert((GeneratedTables { decode: old_decode, encode: old_encode })
                                .entry_matches(raw@, patches@, i));
                        }
                    }
                }
            },
            None => {
                idu = idu + 1;
            },
        }
    }
    Ok(GeneratedTables { decode, encode })
}

} // verus!
