//! The overview page: the positions ordered by their unrealized gain.
use vstd::prelude::*;
use crate::decimal::{lemma_value_le_order, value_le, Decimal};
use crate::ticker_map::TickerInfoMap;
use crate::types::TickerData;

verus! {

/// The place of figures with gain `gain` in a list ordered by gain: after the
/// leading run of figures with a gain no greater.
pub open spec fn gain_slot(s: Seq<TickerData>, gain: Decimal) -> nat
    decreases s.len(),
{
    if s.len() == 0 || !value_le(s[0].unrealized_gain@, gain@) {
        0
    } else {
        1 + gain_slot(s.drop_first(), gain)
    }
}

/// The figures ordered by unrealized gain, smallest first; equal gains keep
/// their order.
pub open spec fn sort_by_gain(s: Seq<TickerData>) -> Seq<TickerData>
    decreases s.len(),
{
    if s.len() == 0 {
        s
    } else {
        let sorted = sort_by_gain(s.drop_last());
        sorted.insert(gain_slot(sorted, s.last().unrealized_gain) as int, s.last())
    }
}

/// The figures of the entries, in order.
pub open spec fn figures_of(entries: Seq<(String, TickerData)>) -> Seq<TickerData> {
    entries.map_values(|e: (String, TickerData)| e.1)
}

/// The rows of the overview table: the positions, largest unrealized gain
/// first (the order by gain reversed).
pub open spec fn overview_order(entries: Seq<(String, TickerData)>) -> Seq<TickerData> {
    sort_by_gain(figures_of(entries)).reverse()
}

proof fn lemma_gain_slot_skip(s: Seq<TickerData>, gain: Decimal, j: int)
    requires
        0 <= j <= s.len(),
        forall|k: int| 0 <= k < j ==> value_le((#[trigger] s[k]).unrealized_gain@, gain@),
    ensures
        gain_slot(s, gain) == j + gain_slot(s.skip(j), gain),
    decreases j,
{
    if j == 0 {
        assert(s.skip(0) =~= s);
    } else {
        assert(value_le(s[0].unrealized_gain@, gain@));
        assert forall|k: int| 0 <= k < j - 1 implies value_le((#[trigger] s.drop_first()[k]).unrealized_gain@, gain@) by {
            assert(s.drop_first()[k] == s[k + 1]);
        }
        lemma_gain_slot_skip(s.drop_first(), gain, j - 1);
        assert(s.drop_first().skip(j - 1) =~= s.skip(j));
    }
}

/// The figures are ordered by unrealized gain, smallest first.
pub open spec fn smallest_gain_first(s: Seq<TickerData>) -> bool {
    forall|i: int, j: int| 0 <= i < j < s.len() ==> value_le((#[trigger] s[i]).unrealized_gain@, (#[trigger] s[j]).unrealized_gain@)
}

/// The figures are ordered by unrealized gain, largest first.
pub open spec fn largest_gain_first(s: Seq<TickerData>) -> bool {
    forall|i: int, j: int| 0 <= i < j < s.len() ==> value_le((#[trigger] s[j]).unrealized_gain@, (#[trigger] s[i]).unrealized_gain@)
}

proof fn lemma_gain_slot_sorted(s: Seq<TickerData>, gain: Decimal)
    requires
        smallest_gain_first(s),
    ensures
        gain_slot(s, gain) <= s.len(),
        forall|k: int| 0 <= k < gain_slot(s, gain) ==> value_le((#[trigger] s[k]).unrealized_gain@, gain@),
        forall|k: int| gain_slot(s, gain) <= k < s.len() ==> !value_le((#[trigger] s[k]).unrealized_gain@, gain@),
    decreases s.len(),
{
    if s.len() == 0 {
    } else if !value_le(s[0].unrealized_gain@, gain@) {
        assert forall|k: int| 0 <= k < s.len() implies !value_le((#[trigger] s[k]).unrealized_gain@, gain@) by {
            if k > 0 {
                assert(value_le(s[0].unrealized_gain@, s[k].unrealized_gain@));
                lemma_value_le_order(s[0].unrealized_gain@, s[k].unrealized_gain@, gain@);
            }
        }
    } else {
        let t = s.drop_first();
        assert forall|i: int, j: int| 0 <= i < j < t.len() implies value_le((#[trigger] t[i]).unrealized_gain@, (#[trigger] t[j]).unrealized_gain@) by {
            assert(t[i] == s[i + 1] && t[j] == s[j + 1]);
        }
        lemma_gain_slot_sorted(t, gain);
        let p = gain_slot(s, gain);
        assert forall|k: int| 0 <= k < p implies value_le((#[trigger] s[k]).unrealized_gain@, gain@) by {
            if k > 0 {
                assert(s[k] == t[k - 1]);
            }
        }
        assert forall|k: int| p <= k < s.len() implies !value_le((#[trigger] s[k]).unrealized_gain@, gain@) by {
            assert(s[k] == t[k - 1]);
        }
    }
}

/// Ordering by gain keeps every position's figures (as often as they occur)
/// and orders them smallest gain first.
pub proof fn lemma_sort_by_gain(s: Seq<TickerData>)
    ensures
        sort_by_gain(s).len() == s.len(),
        sort_by_gain(s).to_multiset() == s.to_multiset(),
        smallest_gain_first(sort_by_gain(s)),
    decreases s.len(),
{
    broadcast use vstd::seq_lib::to_multiset_insert, vstd::seq_lib::to_multiset_build;

    if s.len() > 0 {
        let rest = s.drop_last();
        let x = s.last();
        lemma_sort_by_gain(rest);
        let sorted = sort_by_gain(rest);
        lemma_gain_slot_sorted(sorted, x.unrealized_gain);
        let p = gain_slot(sorted, x.unrealized_gain) as int;
        let r = sorted.insert(p, x);
        assert(r == sort_by_gain(s));
        assert(s =~= rest.push(x));
        assert forall|i: int, j: int| 0 <= i < j < r.len() implies value_le((#[trigger] r[i]).unrealized_gain@, (#[trigger] r[j]).unrealized_gain@) by {
            if j < p {
                assert(r[i] == sorted[i] && r[j] == sorted[j]);
            } else if j == p {
                assert(r[i] == sorted[i]);
            } else if i < p {
                assert(r[i] == sorted[i] && r[j] == sorted[j - 1]);
                lemma_value_le_order(sorted[i].unrealized_gain@, x.unrealized_gain@, sorted[j - 1].unrealized_gain@);
            } else if i == p {
                assert(r[j] == sorted[j - 1]);
                lemma_value_le_order(sorted[j - 1].unrealized_gain@, x.unrealized_gain@, x.unrealized_gain@);
            } else {
                assert(r[i] == sorted[i - 1] && r[j] == sorted[j - 1]);
            }
        }
    }
}

/// The overview shows every position once per entry of the map, largest
/// unrealized gain first.
pub proof fn lemma_overview_order(entries: Seq<(String, TickerData)>)
    ensures
        overview_order(entries).len() == entries.len(),
        overview_order(entries).to_multiset() == figures_of(entries).to_multiset(),
        largest_gain_first(overview_order(entries)),
{
    let sorted = sort_by_gain(figures_of(entries));
    lemma_sort_by_gain(figures_of(entries));
    sorted.lemma_reverse_to_multiset();
    let rev = sorted.reverse();
    assert forall|i: int, j: int| 0 <= i < j < rev.len() implies value_le((#[trigger] rev[j]).unrealized_gain@, (#[trigger] rev[i]).unrealized_gain@) by {
        assert(rev[i] == sorted[sorted.len() - 1 - i] && rev[j] == sorted[sorted.len() - 1 - j]);
    }
}

/// The positions of the map, largest unrealized gain first.
pub fn overview_rows(map: &TickerInfoMap) -> (r: Vec<TickerData>)
    requires
        map.wf(),
        forall|k: Seq<char>| map@.contains_key(k) ==> (#[trigger] map@[k]).wf(),
    ensures
        r@ == overview_order(map.listing()),
{
    let entries = map.entries();
    let n = entries.len();
    let ghost all = figures_of(entries@);
    assert forall|k: int| 0 <= k < n implies (#[trigger] entries@[k]).1.wf() by {
        assert(map@.contains_key(entries@[k].0@));
    }
    let mut sorted: Vec<TickerData> = Vec::new();
    let mut i: usize = 0;
    while i < n
        invariant
            n == entries@.len(),
            all == figures_of(entries@),
            i <= n,
            sorted@ == sort_by_gain(all.take(i as int)),
            sorted@.len() == i,
            forall|k: int| 0 <= k < sorted@.len() ==> (#[trigger] sorted@[k]).wf(),
            forall|k: int| 0 <= k < n ==> (#[trigger] entries@[k]).1.wf(),
        decreases n - i,
    {
        let x = entries[i].1.copy();
        let mut j: usize = 0;
        while j < sorted.len() && sorted[j].unrealized_gain.at_most(&x.unrealized_gain)
            invariant
                j <= sorted@.len(),
                x.wf(),
                forall|k: int| 0 <= k < sorted@.len() ==> (#[trigger] sorted@[k]).wf(),
                forall|k: int| 0 <= k < j ==> value_le((#[trigger] sorted@[k]).unrealized_gain@, x.unrealized_gain@),
            decreases sorted@.len() - j,
        {
            j = j + 1;
        }
        proof {
            lemma_gain_slot_skip(sorted@, x.unrealized_gain, j as int);
            if j < sorted@.len() {
                assert(sorted@.skip(j as int)[0] == sorted@[j as int]);
            }
            assert(all.take(i + 1).drop_last() =~= all.take(i as int));
            assert(all.take(i + 1).last() == all[i as int]);
        }
        sorted.insert(j, x);
        i = i + 1;
    }
    proof {
        assert(all.take(n as int) =~= all);
    }
    let mut rows: Vec<TickerData> = Vec::new();
    let mut k: usize = 0;
    while k < n
        invariant
            n == sorted@.len(),
            k <= n,
            rows@ =~= Seq::new(k as nat, |j: int| sorted@[n - 1 - j]),
        decreases n - k,
    {
        rows.push(sorted[n - 1 - k].copy());
        k = k + 1;
    }
    proof {
        assert(rows@ =~= sorted@.reverse());
    }
    rows
}

} // verus!
