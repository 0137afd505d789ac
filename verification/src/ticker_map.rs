//! The figures of the portfolio's positions, by ticker.
use vstd::prelude::*;
use crate::types::TickerData;

verus! {

/// Figures by ticker: each ticker at most once.
#[derive(Debug, Clone)]
pub struct TickerInfoMap {
    entries: Vec<(String, TickerData)>,
}

/// Position of an entry with this ticker.
spec fn index_of(entries: Seq<(String, TickerData)>, k: Seq<char>) -> int {
    choose|i: int| 0 <= i < entries.len() && entries[i].0@ == k
}

/// Some entry has this ticker.
spec fn has_key(entries: Seq<(String, TickerData)>, k: Seq<char>) -> bool {
    exists|i: int| 0 <= i < entries.len() && entries[i].0@ == k
}

/// No two entries have the same ticker.
spec fn distinct_keys(entries: Seq<(String, TickerData)>) -> bool {
    forall|i: int, j: int| 0 <= i < entries.len() && 0 <= j < entries.len() && i != j ==> entries[i].0@ != entries[j].0@
}

spec fn map_of(entries: Seq<(String, TickerData)>) -> Map<Seq<char>, TickerData> {
    Map::new(|k: Seq<char>| has_key(entries, k), |k: Seq<char>| entries[index_of(entries, k)].1)
}

proof fn lemma_index_of(entries: Seq<(String, TickerData)>, i: int)
    requires
        distinct_keys(entries),
        0 <= i < entries.len(),
    ensures
        has_key(entries, entries[i].0@),
        index_of(entries, entries[i].0@) == i,
{
    let k = entries[i].0@;
    assert(0 <= i < entries.len() && entries[i].0@ == k);
    let j = index_of(entries, k);
    assert(0 <= j < entries.len() && entries[j].0@ == k);
}

impl View for TickerInfoMap {
    type V = Map<Seq<char>, TickerData>;

    closed spec fn view(&self) -> Map<Seq<char>, TickerData> {
        map_of(self.entries@)
    }
}

impl TickerInfoMap {
    /// No ticker occurs twice.
    pub closed spec fn wf(&self) -> bool {
        distinct_keys(self.entries@)
    }

    /// An empty map.
    pub fn new() -> (r: TickerInfoMap)
        ensures
            r.wf(),
            r@ == Map::<Seq<char>, TickerData>::empty(),
    {
        let r = TickerInfoMap { entries: Vec::new() };
        assert(r@ =~= Map::<Seq<char>, TickerData>::empty());
        r
    }

    fn find(&self, key: &String) -> (r: Option<usize>)
        requires
            self.wf(),
        ensures
            r matches Some(i) ==> i < self.entries.len() && self.entries@[i as int].0@ == key@,
            r is None ==> !has_key(self.entries@, key@),
    {
        let mut i: usize = 0;
        while i < self.entries.len()
            invariant
                i <= self.entries.len(),
                forall|j: int| 0 <= j < i ==> self.entries@[j].0@ != key@,
            decreases self.entries.len() - i,
        {
            if self.entries[i].0 == *key {
                return Some(i);
            }
            i = i + 1;
        }
        None
    }

    /// The figures of the ticker, if it has an entry.
    pub fn get(&self, key: &String) -> (r: Option<&TickerData>)
        requires
            self.wf(),
        ensures
            r matches Some(d) ==> self@.contains_key(key@) && *d == self@[key@],
            r is None ==> !self@.contains_key(key@),
    {
        match self.find(key) {
            Some(i) => {
                proof {
                    lemma_index_of(self.entries@, i as int);
                }
                Some(&self.entries[i].1)
            },
            None => None,
        }
    }

    /// Number of entries.
    pub fn len(&self) -> (r: usize)
        requires
            self.wf(),
        ensures
            r == self@.dom().len(),
    {
        proof {
            self.lemma_len();
        }
        self.entries.len()
    }

    proof fn lemma_len(&self)
        requires
            self.wf(),
        ensures
            self@.dom().len() == self.entries@.len(),
            self@.dom().finite(),
    {
        let keys = self.entries@.map_values(|e: (String, TickerData)| e.0@);
        assert(self@.dom() =~= keys.to_set()) by {
            assert forall|k: Seq<char>| self@.dom().contains(k) implies keys.to_set().contains(k) by {
                let i = choose|i: int| 0 <= i < self.entries@.len() && self.entries@[i].0@ == k;
                assert(keys[i] == k);
            }
            assert forall|k: Seq<char>| keys.to_set().contains(k) implies self@.dom().contains(k) by {
                let i = choose|i: int| 0 <= i < keys.len() && keys[i] == k;
                assert(self.entries@[i].0@ == k);
            }
        }
        assert(keys.no_duplicates());
        keys.unique_seq_to_set();
    }

    /// The entries in the order in which their tickers first arrived.
    pub closed spec fn listing(&self) -> Seq<(String, TickerData)> {
        self.entries@
    }

    /// The entries, in the order in which their tickers first arrived.
    pub fn entries(&self) -> (r: &Vec<(String, TickerData)>)
        requires
            self.wf(),
        ensures
            r@ == self.listing(),
            forall|i: int| 0 <= i < r.len() ==> self@.contains_key((#[trigger] r@[i]).0@) && self@[r@[i].0@] == r@[i].1,
            forall|k: Seq<char>| self@.contains_key(k) ==> exists|i: int| 0 <= i < r.len() && (#[trigger] r@[i]).0@ == k,
    {
        assert forall|i: int| 0 <= i < self.entries.len() implies self@.contains_key((#[trigger] self.entries@[i]).0@)
            && self@[self.entries@[i].0@] == self.entries@[i].1 by {
            lemma_index_of(self.entries@, i);
        }
        &self.entries
    }

    /// Sets the figures of the ticker, replacing an earlier entry in its
    /// place; a new ticker comes last.
    pub fn insert(&mut self, key: String, data: TickerData)
        requires
            old(self).wf(),
        ensures
            final(self).wf(),
            final(self)@ == old(self)@.insert(key@, data),
            old(self)@.contains_key(key@) ==> exists|i: int| 0 <= i < old(self).listing().len()
                && (#[trigger] old(self).listing()[i]).0@ == key@
                && final(self).listing() == old(self).listing().update(i, (key, data)),
            !old(self)@.contains_key(key@) ==> final(self).listing() == old(self).listing().push((key, data)),
    {
        match self.find(&key) {
            Some(i) => {
                let ghost old_entries = self.entries@;
                proof {
                    assert(old(self).listing()[i as int].0@ == key@);
                }
                self.entries.set(i, (key, data));
                proof {
                    let e = self.entries@;
                    assert forall|k: Seq<char>| #[trigger] has_key(e, k) == (has_key(old_entries, k) || k == key@) by {
                        if has_key(old_entries, k) {
                            let j = choose|j: int| 0 <= j < old_entries.len() && old_entries[j].0@ == k;
                            assert(e[j].0@ == k);
                        }
                        if has_key(e, k) {
                            let j = choose|j: int| 0 <= j < e.len() && e[j].0@ == k;
                            assert(old_entries[j].0@ == k);
                        }
                        if k == key@ {
                            assert(e[i as int].0@ == k);
                        }
                    }
                    assert forall|k: Seq<char>| has_key(e, k) && k != key@ implies #[trigger] index_of(e, k) == index_of(old_entries, k) by {
                        let j = index_of(old_entries, k);
                        lemma_index_of(old_entries, j);
                        lemma_index_of(e, j);
                    }
                    lemma_index_of(e, i as int);
                    assert(map_of(e) =~= map_of(old_entries).insert(key@, data));
                }
            },
            None => {
                let ghost old_entries = self.entries@;
                let ghost k0 = key@;
                self.entries.push((key, data));
                proof {
                    let e = self.entries@;
                    assert forall|k: Seq<char>| #[trigger] has_key(e, k) == (has_key(old_entries, k) || k == k0) by {
                        if has_key(old_entries, k) {
                            let j = choose|j: int| 0 <= j < old_entries.len() && old_entries[j].0@ == k;
                            assert(e[j].0@ == k);
                        }
                        if has_key(e, k) {
                            let j = choose|j: int| 0 <= j < e.len() && e[j].0@ == k;
                            if j < old_entries.len() {
                                assert(old_entries[j].0@ == k);
                            }
                        }
                        if k == k0 {
                            assert(e[old_entries.len() as int].0@ == k);
                        }
                    }
                    assert forall|k: Seq<char>| has_key(e, k) && k != k0 implies #[trigger] index_of(e, k) == index_of(old_entries, k) by {
                        let j = index_of(old_entries, k);
                        lemma_index_of(old_entries, j);
                        lemma_index_of(e, j);
                    }
                    lemma_index_of(e, old_entries.len() as int);
                    assert(map_of(e) =~= map_of(old_entries).insert(k0, data));
                }
            },
        }
    }

    /// Removes the entry of the ticker, if there is one; the others keep
    /// their order.
    pub fn remove(&mut self, key: &String)
        requires
            old(self).wf(),
        ensures
            final(self).wf(),
            final(self)@ == old(self)@.remove(key@),
            old(self)@.contains_key(key@) ==> exists|i: int| 0 <= i < old(self).listing().len()
                && (#[trigger] old(self).listing()[i]).0@ == key@
                && final(self).listing() == old(self).listing().remove(i),
            !old(self)@.contains_key(key@) ==> final(self).listing() == old(self).listing(),
    {
        match self.find(key) {
            Some(i) => {
                let ghost old_entries = self.entries@;
                let _ = self.entries.remove(i);
                proof {
                    let e = self.entries@;
                    assert(e =~= old_entries.remove(i as int));
                    assert(old(self).listing()[i as int].0@ == key@);
                    assert forall|k: Seq<char>| #[trigger] has_key(e, k) == (has_key(old_entries, k) && k != key@) by {
                        if has_key(old_entries, k) && k != key@ {
                            let j = choose|j: int| 0 <= j < old_entries.len() && old_entries[j].0@ == k;
                            if j < i {
                                assert(e[j].0@ == k);
                            } else {
                                assert(j != i);
                                assert(e[j - 1].0@ == k);
                            }
                        }
                        if has_key(e, k) {
                            let j = choose|j: int| 0 <= j < e.len() && e[j].0@ == k;
                            if j < i {
                                assert(old_entries[j].0@ == k);
                                assert(j != i);
                            } else {
                                assert(old_entries[j + 1].0@ == k);
                            }
                        }
                    }
                    assert forall|k: Seq<char>| has_key(e, k) implies #[trigger] e[index_of(e, k)].1 == old_entries[index_of(old_entries, k)].1 by {
                        let j = index_of(old_entries, k);
                        lemma_index_of(old_entries, j);
                        if j < i {
                            lemma_index_of(e, j);
                        } else {
                            lemma_index_of(e, j - 1);
                        }
                    }
                    assert(map_of(e) =~= map_of(old_entries).remove(key@));
                }
            },
            None => {
                assert(self@ =~= old(self)@.remove(key@));
            },
        }
    }
}

/// A read gives back what the last write of the ticker left: its figures
/// after `insert`, nothing after `remove`; other tickers keep theirs.
pub proof fn lemma_read_after_write(m: Map<Seq<char>, TickerData>, k: Seq<char>, other: Seq<char>, d: TickerData)
    requires
        other != k,
    ensures
        m.insert(k, d).contains_key(k) && m.insert(k, d)[k] == d,
        !m.remove(k).contains_key(k),
        m.insert(k, d).contains_key(other) == m.contains_key(other),
        m.remove(k).contains_key(other) == m.contains_key(other),
        m.contains_key(other) ==> m.insert(k, d)[other] == m[other] && m.remove(k)[other] == m[other],
{
}

} // verus!
