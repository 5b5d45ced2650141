//! Laws the tables and codecs obey, stated and proved once.

use vstd::prelude::*;

use crate::code_table_type::TableType;
use crate::encoding_table::entries_map;
use crate::generator::invert_entries_upto;
use crate::generator::inverted;
use crate::string::encoded_byte;

verus! {

/// ASCII identity of decoding: under every decoding table, a byte below
/// 128 decodes to the code point with the same value, without a table
/// lookup.
pub proof fn lemma_decode_ascii_identity(t: TableType, b: u8)
    requires
        b < 128,
    ensures
        t.decoded_byte(b) == Some(b as char),
{
}

/// ASCII identity of encoding: under every encoding map, a character
/// with code point below 128 encodes to the byte with the same value,
/// without a table lookup.
pub proof fn lemma_encode_ascii_identity(m: Map<char, u8>, c: char)
    requires
        (c as u32) < 128,
    ensures
        encoded_byte(m, c) == Some(c as u8),
{
}

/// In the inversion of the first `n` slots, a character defined at
/// slot `k` and nowhere else maps back to byte `128 + k`.
proof fn lemma_invert_upto_value(slots: Seq<Option<char>>, k: int, n: int)
    requires
        0 <= k < n <= 128,
        slots[k] is Some,
        forall|j: int| 0 <= j < n && j != k ==> (#[trigger] slots[j]) != slots[k],
    ensures
        entries_map(invert_entries_upto(slots, n)).dom().contains(slots[k]->Some_0),
        entries_map(invert_entries_upto(slots, n))[slots[k]->Some_0] == (k + 128) as u8,
    decreases n,
{
    let c = slots[k]->Some_0;
    if n - 1 == k {
        assert(invert_entries_upto(slots, n) == invert_entries_upto(slots, n - 1).push(
            (c, (n + 127) as u8),
        ));
        assert(invert_entries_upto(slots, n).drop_last() =~= invert_entries_upto(slots, n - 1));
    } else {
        lemma_invert_upto_value(slots, k, n - 1);
        match slots[n - 1] {
            Some(c2) => {
                assert(slots[n - 1] != slots[k]);
                assert(invert_entries_upto(slots, n).drop_last() =~= invert_entries_upto(
                    slots,
                    n - 1,
                ));
            },
            None => {},
        }
    }
}

/// Inversion, defined case: a character held by exactly one high slot
/// `k` maps back to byte `128 + k` in the inverted encoding map.
pub proof fn lemma_inverted_value(slots: Seq<Option<char>>, k: int)
    requires
        0 <= k < 128,
        slots[k] is Some,
        forall|j: int| 0 <= j < 128 && j != k ==> (#[trigger] slots[j]) != slots[k],
    ensures
        inverted(slots).dom().contains(slots[k]->Some_0),
        inverted(slots)[slots[k]->Some_0] == (k + 128) as u8,
{
    lemma_invert_upto_value(slots, k, 128);
}

/// Inversion, undefined case: a character held by no high slot is
/// absent from the inverted encoding map.
pub proof fn lemma_inverted_absent(slots: Seq<Option<char>>, c: char)
    requires
        forall|j: int| 0 <= j < 128 ==> (#[trigger] slots[j]) != Some(c),
    ensures
        !inverted(slots).dom().contains(c),
{
    lemma_invert_upto_absent(slots, c, 128);
}

/// In the inversion of the first `n` slots, a character held by none
/// of them is absent.
proof fn lemma_invert_upto_absent(slots: Seq<Option<char>>, c: char, n: int)
    requires
        n <= 128,
        forall|j: int| 0 <= j < n ==> (#[trigger] slots[j]) != Some(c),
    ensures
        !entries_map(invert_entries_upto(slots, n)).dom().contains(c),
    decreases n,
{
    if n > 0 {
        lemma_invert_upto_absent(slots, c, n - 1);
        match slots[n - 1] {
            Some(c2) => {
                assert(invert_entries_upto(slots, n).drop_last() =~= invert_entries_upto(
                    slots,
                    n - 1,
                ));
            },
            None => {},
        }
    }
}

/// Round-trip law: over a complete decoding table whose high half is
/// injective and maps every high byte to a non-ASCII character, encoding
/// the character that a high byte decodes to yields that byte again.
pub proof fn lemma_complete_round_trip(t: TableType, b: u8)
    requires
        t.wf(),
        t.is_complete(),
        b >= 128,
        forall|i: int, j: int|
            0 <= i < j < 128 ==> (#[trigger] t.high_slots()[i]) != (#[trigger] t.high_slots()[j]),
        forall|i: int| 0 <= i < 128 ==> ((#[trigger] t.high_slots()[i])->Some_0 as u32) >= 128,
    ensures
        t.decoded_byte(b) is Some,
        encoded_byte(inverted(t.high_slots()), t.decoded_byte(b)->Some_0) == Some(b),
{
    let slots = t.high_slots();
    let k = b - 128;
    assert(slots[k] is Some);
    assert forall|j: int| 0 <= j < 128 && j != k implies (#[trigger] slots[j]) != slots[k] by {
        if j < k {
            assert(slots[j] != slots[k]);
        }
    }
    lemma_invert_upto_value(slots, k, 128);
    assert((k + 128) as u8 == b);
}

} // verus!
