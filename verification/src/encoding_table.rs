//! Encoding table: a mapping from Unicode characters to code-page bytes.

use vstd::prelude::*;

verus! {

/// The map described by a sequence of `(character, byte)` entries.
/// A later entry for the same character overrides an earlier one.
pub open spec fn entries_map(s: Seq<(char, u8)>) -> Map<char, u8>
    decreases s.len(),
{
    if s.len() == 0 {
        Map::empty()
    } else {
        entries_map(s.drop_last()).insert(s.last().0, s.last().1)
    }
}

/// A character present at an index after which its character never
/// recurs holds the value the map assigns to it.
pub proof fn lemma_entries_map_value(s: Seq<(char, u8)>, i: int)
    requires
        0 <= i < s.len(),
        forall|j: int| i < j < s.len() ==> (#[trigger] s[j]).0 != s[i].0,
    ensures
        entries_map(s).dom().contains(s[i].0),
        entries_map(s)[s[i].0] == s[i].1,
    decreases s.len(),
{
    if i < s.len() - 1 {
        lemma_entries_map_value(s.drop_last(), i);
    }
}

/// A character that appears in no entry is not in the map's domain.
pub proof fn lemma_entries_map_absent(s: Seq<(char, u8)>, c: char)
    requires
        forall|i: int| 0 <= i < s.len() ==> (#[trigger] s[i]).0 != c,
    ensures
        !entries_map(s).dom().contains(c),
    decreases s.len(),
{
    if s.len() > 0 {
        lemma_entries_map_absent(s.drop_last(), c);
    }
}

/// A table mapping Unicode characters to code-page bytes.
///
/// Entries are kept in the order they were inserted; when the same
/// character is inserted twice, the later insertion wins.
#[derive(Debug, Clone)]
pub struct EncodingTable {
    entries: Vec<(char, u8)>,
}

impl View for EncodingTable {
    type V = Map<char, u8>;

    closed spec fn view(&self) -> Map<char, u8> {
        entries_map(self.entries@)
    }
}

impl EncodingTable {
    /// An empty table.
    pub fn new() -> (r: EncodingTable)
        ensures
            r@ == Map::<char, u8>::empty(),
            r.entry_seq().len() == 0,
    {
        EncodingTable { entries: Vec::new() }
    }

    /// The entries in insertion order.
    pub closed spec fn entry_seq(&self) -> Seq<(char, u8)> {
        self.entries@
    }

    /// Add an entry, overriding any earlier entry for the same character.
    pub fn insert(&mut self, c: char, b: u8)
        ensures
            final(self)@ == old(self)@.insert(c, b),
            final(self).entry_seq() == old(self).entry_seq().push((c, b)),
    {
        self.entries.push((c, b));
        proof {
            assert(self.entries@.drop_last() =~= old(self).entries@);
        }
    }

    /// Look up the byte assigned to a character.
    pub fn get(&self, c: char) -> (r: Option<u8>)
        ensures
            r == if self@.dom().contains(c) {
                Some(self@[c])
            } else {
                None::<u8>
            },
    {
        let n = self.entries.len();
        let mut i: usize = n;
        while i > 0
            invariant
                i <= n,
                n == self.entries@.len(),
                forall|j: int| i <= j < n ==> (#[trigger] self.entries@[j]).0 != c,
            decreases i,
        {
            i = i - 1;
            let (ec, eb) = self.entries[i];
            if ec == c {
                proof {
                    lemma_entries_map_value(self.entries@, i as int);
                }
                return Some(eb);
            }
        }
        proof {
            lemma_entries_map_absent(self.entries@, c);
        }
        None
    }

    /// The entries in insertion order, as a fresh vector.
    pub fn entries(&self) -> (r: Vec<(char, u8)>)
        ensures
            r@ == self.entry_seq(),
    {
        let n = self.entries.len();
        let mut r: Vec<(char, u8)> = Vec::new();
        let mut i: usize = 0;
        while i < n
            invariant
                i <= n,
                n == self.entries@.len(),
                r@ == self.entries@.take(i as int),
            decreases n - i,
        {
            r.push(self.entries[i]);
            i = i + 1;
            proof {
                assert(self.entries@.take(i as int) =~= self.entries@.take(i - 1).push(
                    self.entries@[i - 1],
                ));
            }
        }
        proof {
            assert(self.entries@.take(n as int) =~= self.entries@);
        }
        r
    }

    /// The number of entries.
    pub fn len(&self) -> (r: usize)
        ensures
            r == self.entry_seq().len(),
    {
        self.entries.len()
    }
}

} // verus!
