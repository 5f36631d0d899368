//! The snapshot store: at most one raw document per year, viewed as a map
//! from year to document text. The store overwrites unconditionally on
//! write; the lifecycle rules above it enforce conflict semantics.

use vstd::prelude::*;

use crate::errors::StorageError;

verus! {

/// The map a sequence of `(year, document)` entries denotes; a later entry
/// for a year shadows an earlier one.
pub open spec fn entries_map(s: Seq<(u32, String)>) -> Map<u32, Seq<char>>
    decreases s.len(),
{
    if s.len() == 0 {
        Map::empty()
    } else {
        entries_map(s.drop_last()).insert(s.last().0, s.last().1@)
    }
}

/// No two entries hold the same year.
pub open spec fn unique_years(s: Seq<(u32, String)>) -> bool {
    forall|i: int, j: int| 0 <= i < j < s.len() ==> s[i].0 != s[j].0
}

/// One snapshot per year: the whole raw document text, keyed by year alone.
pub struct SnapshotStore {
    entries: Vec<(u32, String)>,
}

impl View for SnapshotStore {
    type V = Map<u32, Seq<char>>;

    closed spec fn view(&self) -> Map<u32, Seq<char>> {
        entries_map(self.entries@)
    }
}

proof fn lemma_entries_map_contains(s: Seq<(u32, String)>, year: u32)
    ensures
        entries_map(s).contains_key(year) <==> exists|i: int| 0 <= i < s.len() && s[i].0 == year,
    decreases s.len(),
{
    if s.len() > 0 {
        let pre = s.drop_last();
        lemma_entries_map_contains(pre, year);
        if s.last().0 == year {
            assert(s[s.len() - 1].0 == year);
        } else {
            if entries_map(s).contains_key(year) {
                let i = choose|i: int| 0 <= i < pre.len() && pre[i].0 == year;
                assert(s[i].0 == year);
            }
            if exists|i: int| 0 <= i < s.len() && s[i].0 == year {
                let i = choose|i: int| 0 <= i < s.len() && s[i].0 == year;
                assert(pre[i].0 == year);
            }
        }
    }
}

proof fn lemma_entries_map_index(s: Seq<(u32, String)>, i: int)
    requires
        unique_years(s),
        0 <= i < s.len(),
    ensures
        entries_map(s).contains_key(s[i].0),
        entries_map(s)[s[i].0] == s[i].1@,
    decreases s.len(),
{
    if i < s.len() - 1 {
        lemma_entries_map_index(s.drop_last(), i);
        assert(s.last().0 != s[i].0);
    }
}

proof fn lemma_entries_map_remove(s: Seq<(u32, String)>, i: int)
    requires
        unique_years(s),
        0 <= i < s.len(),
    ensures
        entries_map(s.remove(i)) == entries_map(s).remove(s[i].0),
    decreases s.len(),
{
    let pre = s.drop_last();
    if i == s.len() - 1 {
        assert(s.remove(i) =~= pre);
        lemma_entries_map_contains(pre, s[i].0);
        assert(forall|k: int| 0 <= k < pre.len() ==> s[k].0 != s[i].0);
        assert(!entries_map(pre).contains_key(s[i].0));
        assert(entries_map(pre).insert(s[i].0, s[i].1@).remove(s[i].0) =~= entries_map(pre));
    } else {
        lemma_entries_map_remove(pre, i);
        assert(s.remove(i).drop_last() =~= pre.remove(i));
        assert(s.remove(i).last() == s.last());
        assert(s.last().0 != s[i].0);
        assert(entries_map(pre).remove(s[i].0).insert(s.last().0, s.last().1@) =~= entries_map(
            pre,
        ).insert(s.last().0, s.last().1@).remove(s[i].0));
    }
}

impl SnapshotStore {
    /// Entries hold pairwise distinct years.
    pub closed spec fn wf(&self) -> bool {
        unique_years(self.entries@)
    }

    /// An empty store: no year holds a snapshot.
    pub fn new() -> (s: Self)
        ensures
            s.wf(),
            s@ == Map::<u32, Seq<char>>::empty(),
    {
        SnapshotStore { entries: Vec::new() }
    }

    fn find_index(&self, year: u32) -> (r: Option<usize>)
        ensures
            match r {
                Some(i) => i < self.entries@.len() && self.entries@[i as int].0 == year,
                None => forall|k: int| 0 <= k < self.entries@.len() ==> self.entries@[k].0 != year,
            },
    {
        let mut i: usize = 0;
        while i < self.entries.len()
            invariant
                i <= self.entries@.len(),
                forall|k: int| 0 <= k < i ==> self.entries@[k].0 != year,
            decreases self.entries@.len() - i,
        {
            if self.entries[i].0 == year {
                return Some(i);
            }
            i = i + 1;
        }
        None
    }

    /// Whether a snapshot is held for `year`: a pure check, no side effect.
    pub fn has_snapshot(&self, year: u32) -> (r: bool)
        requires
            self.wf(),
        ensures
            r == self@.contains_key(year),
    {
        let found = self.find_index(year);
        proof {
            lemma_entries_map_contains(self.entries@, year);
        }
        found.is_some()
    }

    /// The stored document for `year`; fails with `NotFound` when none is held.
    pub fn read(&self, year: u32) -> (r: Result<String, StorageError>)
        requires
            self.wf(),
        ensures
            self@.contains_key(year) ==> r is Ok && r->Ok_0@ == self@[year],
            !self@.contains_key(year) ==> r == Result::<String, StorageError>::Err(
                StorageError::NotFound,
            ),
    {
        proof {
            lemma_entries_map_contains(self.entries@, year);
        }
        match self.find_index(year) {
            Some(i) => {
                proof {
                    lemma_entries_map_index(self.entries@, i as int);
                }
                Ok(self.entries[i].1.clone())
            },
            None => Err(StorageError::NotFound),
        }
    }

    fn evict(&mut self, year: u32)
        requires
            old(self).wf(),
        ensures
            final(self).wf(),
            final(self)@ == old(self)@.remove(year),
            forall|k: int|
                0 <= k < final(self).entries@.len() ==> final(self).entries@[k].0 != year,
    {
        proof {
            lemma_entries_map_contains(self.entries@, year);
        }
        match self.find_index(year) {
            Some(i) => {
                proof {
                    lemma_entries_map_remove(self.entries@, i as int);
                }
                let ghost pre = self.entries@;
                self.entries.remove(i);
                proof {
                    assert forall|a: int, b: int|
                        0 <= a < b < self.entries@.len() implies self.entries@[a].0
                        != self.entries@[b].0 by {
                        assert(self.entries@[a] == if a < i as int {
                            pre[a]
                        } else {
                            pre[a + 1]
                        });
                        assert(self.entries@[b] == if b < i as int {
                            pre[b]
                        } else {
                            pre[b + 1]
                        });
                    }
                    assert forall|k: int|
                        0 <= k < self.entries@.len() implies self.entries@[k].0 != year by {
                        assert(self.entries@[k] == if k < i as int {
                            pre[k]
                        } else {
                            pre[k + 1]
                        });
                    }
                }
            },
            None => {
                proof {
                    assert(entries_map(self.entries@).remove(year) =~= entries_map(
                        self.entries@,
                    ));
                }
            },
        }
    }

    /// Persists `content` as the snapshot for `year`, creating or
    /// overwriting unconditionally: the caller enforces conflict semantics.
    pub fn write(&mut self, year: u32, content: String) -> (r: Result<(), StorageError>)
        requires
            old(self).wf(),
        ensures
            final(self).wf(),
            r is Ok,
            final(self)@ == old(self)@.insert(year, content@),
    {
        self.evict(year);
        let ghost mid = self.entries@;
        self.entries.push((year, content));
        proof {
            assert(self.entries@.drop_last() =~= mid);
            assert(forall|a: int, b: int|
                0 <= a < b < self.entries@.len() ==> self.entries@[a].0 != self.entries@[b].0);
            assert(entries_map(mid).remove(year).insert(year, content@) =~= entries_map(
                mid,
            ).insert(year, content@));
            assert(old(self)@.remove(year).insert(year, content@) =~= old(self)@.insert(
                year,
                content@,
            ));
        }
        Ok(())
    }

    /// Removes the snapshot for `year`; fails with `NotFound` when none is held.
    pub fn delete(&mut self, year: u32) -> (r: Result<(), StorageError>)
        requires
            old(self).wf(),
        ensures
            final(self).wf(),
            old(self)@.contains_key(year) ==> r is Ok && final(self)@ == old(self)@.remove(year),
            !old(self)@.contains_key(year) ==> r == Result::<(), StorageError>::Err(
                StorageError::NotFound,
            ) && final(self)@ == old(self)@,
    {
        proof {
            lemma_entries_map_contains(self.entries@, year);
        }
        if self.has_snapshot(year) {
            self.evict(year);
            Ok(())
        } else {
            Err(StorageError::NotFound)
        }
    }
}

/// Round trip: writing a document for a year and then reading that year
/// yields exactly the written document. `write` ensures the store's view is
/// the old view with `(year, content)` inserted, and `read` on a held year
/// returns the view's document for it, so the bytes come back unchanged.
pub proof fn lemma_write_read_round_trip(m: Map<u32, Seq<char>>, year: u32, content: Seq<char>)
    ensures
        m.insert(year, content).contains_key(year),
        m.insert(year, content)[year] == content,
{
}

} // verus!
