//! Ordered lookup from numeric code page identifiers to tables.

use vstd::prelude::*;

verus! {

/// The map described by a sequence of `(code page, table)` entries.
/// A later entry for the same identifier overrides an earlier one.
pub open spec fn registry_map<V>(s: Seq<(u16, V)>) -> Map<u16, V>
    decreases s.len(),
{
    if s.len() == 0 {
        Map::empty()
    } else {
        registry_map(s.drop_last()).insert(s.last().0, s.last().1)
    }
}

/// An identifier present at an index after which it never recurs holds
/// the value the map assigns to it.
proof fn lemma_registry_map_value<V>(s: Seq<(u16, V)>, i: int)
    requires
        0 <= i < s.len(),
        forall|j: int| i < j < s.len() ==> (#[trigger] s[j]).0 != s[i].0,
    ensures
        registry_map(s).dom().contains(s[i].0),
        registry_map(s)[s[i].0] == s[i].1,
    decreases s.len(),
{
    if i < s.len() - 1 {
        lemma_registry_map_value(s.drop_last(), i);
    }
}

/// An identifier that appears in no entry is not in the map's domain.
proof fn lemma_registry_map_absent<V>(s: Seq<(u16, V)>, id: u16)
    requires
        forall|i: int| 0 <= i < s.len() ==> (#[trigger] s[i]).0 != id,
    ensures
        !registry_map(s).dom().contains(id),
    decreases s.len(),
{
    if s.len() > 0 {
        lemma_registry_map_absent(s.drop_last(), id);
    }
}

/// A registry: an ordered mapping from numeric code page identifiers to
/// tables, kept sorted by identifier in ascending order.
#[derive(Debug, Clone)]
pub struct Registry<V> {
    entries: Vec<(u16, V)>,
}

impl<V> View for Registry<V> {
    type V = Map<u16, V>;

    closed spec fn view(&self) -> Map<u16, V> {
        registry_map(self.entries@)
    }
}

impl<V> Registry<V> {
    /// The entries are strictly sorted by code page identifier, so every
    /// identifier occurs at most once and iteration order is fixed.
    pub closed spec fn wf(&self) -> bool {
        forall|i: int, j: int|
            0 <= i < j < self.entries@.len() ==> (#[trigger] self.entries@[i]).0 < (
            #[trigger] self.entries@[j]).0
    }

    /// An empty registry.
    pub fn new() -> (r: Registry<V>)
        ensures
            r.wf(),
            r@ == Map::<u16, V>::empty(),
    {
        Registry { entries: Vec::new() }
    }

    /// Register a table under an identifier larger than every identifier
    /// registered so far, keeping the entries sorted.
    pub fn insert_ascending(&mut self, id: u16, v: V)
        requires
            old(self).wf(),
            forall|k: u16| old(self)@.dom().contains(k) ==> k < id,
        ensures
            final(self).wf(),
            final(self)@ == old(self)@.insert(id, v),
    {
        proof {
            assert forall|i: int| 0 <= i < self.entries@.len() implies (
            #[trigger] self.entries@[i]).0 < id by {
                let s = self.entries@;
                assert forall|j: int| i < j < s.len() implies (#[trigger] s[j]).0 != s[i].0 by {
                    assert(s[i].0 < s[j].0);
                }
                lemma_registry_map_value(s, i);
                assert(self@.dom().contains(s[i].0));
            }
        }
        self.entries.push((id, v));
        proof {
            assert(self.entries@.drop_last() =~= old(self).entries@);
        }
    }

    /// Look up the table registered under an identifier; an absent
    /// identifier is a normal "not supported" outcome.
    pub fn get(&self, id: u16) -> (r: Option<&V>)
        requires
            self.wf(),
        ensures
            match r {
                Some(v) => self@.dom().contains(id) && *v == self@[id],
                None => !self@.dom().contains(id),
            },
    {
        let n = self.entries.len();
        let mut i: usize = 0;
        while i < n
            invariant
                i <= n,
                n == self.entries@.len(),
                self.wf(),
                forall|j: int| 0 <= j < i ==> (#[trigger] self.entries@[j]).0 != id,
            decreases n - i,
        {
            let e = &self.entries[i];
            if e.0 == id {
                proof {
                    lemma_registry_map_value(self.entries@, i as int);
                }
                return Some(&e.1);
            }
            i = i + 1;
        }
        proof {
            lemma_registry_map_absent(self.entries@, id);
        }
        None
    }
}

} // verus!
