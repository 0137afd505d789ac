//! The dashboard: the positions that lost or gained most today.
use vstd::prelude::*;
use crate::types::TickerData;

verus! {

/// How many positions each performer list shows.
pub const PERFORMERS: usize = 3usize;

/// The position's price did not rise today.
pub open spec fn lost_today(d: TickerData) -> bool {
    d.todays_change.mantissa <= 0
}

/// The position's price rose today.
pub open spec fn gained_today(d: TickerData) -> bool {
    d.todays_change.mantissa > 0
}

/// The position belongs to the list of risers (`rising`) or to that of the
/// others.
pub open spec fn kept(d: TickerData, rising: bool) -> bool {
    if rising {
        gained_today(d)
    } else {
        lost_today(d)
    }
}

/// The first `n` figures, in order, that belong to the list.
pub open spec fn first_kept(s: Seq<TickerData>, keep: bool, n: nat) -> Seq<TickerData>
    decreases s.len(),
{
    if s.len() == 0 || n == 0 {
        Seq::empty()
    } else if kept(s[0], keep) {
        seq![s[0]].add(first_kept(s.drop_first(), keep, (n - 1) as nat))
    } else {
        first_kept(s.drop_first(), keep, n)
    }
}

proof fn lemma_first_kept_step(s: Seq<TickerData>, keep: bool, i: int, n: nat)
    requires
        0 <= i < s.len(),
        n > 0,
    ensures
        first_kept(s.skip(i), keep, n) == if kept(s[i], keep) {
            seq![s[i]].add(first_kept(s.skip(i + 1), keep, (n - 1) as nat))
        } else {
            first_kept(s.skip(i + 1), keep, n)
        },
{
    assert(s.skip(i)[0] == s[i]);
    assert(s.skip(i).drop_first() =~= s.skip(i + 1));
}

/// The first (at most three) positions of the list whose price did not rise
/// today, in the list's order.
pub fn worst_performers(assets: &[TickerData]) -> (r: Vec<TickerData>)
    ensures
        r@ == first_kept(assets@, false, 3),
{
    let ghost keep = false;
    let mut r: Vec<TickerData> = Vec::new();
    let mut i: usize = 0;
    proof {
        assert(assets@.skip(0) =~= assets@);
        assert(r@ + first_kept(assets@, keep, 3) =~= first_kept(assets@, keep, 3));
    }
    while i < assets.len() && r.len() < PERFORMERS
        invariant
            i <= assets.len(),
            !keep,
            r.len() <= 3,
            r@ + first_kept(assets@.skip(i as int), keep, (3 - r.len()) as nat) == first_kept(assets@, keep, 3),
        decreases assets.len() - i,
    {
        proof {
            lemma_first_kept_step(assets@, keep, i as int, (3 - r.len()) as nat);
        }
        if assets[i].todays_change.mantissa <= 0 {
            let ghost before = r@;
            r.push(assets[i].copy());
            proof {
                assert(before + seq![assets@[i as int]].add(first_kept(assets@.skip(i + 1), keep, (3 - r.len()) as nat))
                    =~= r@ + first_kept(assets@.skip(i + 1), keep, (3 - r.len()) as nat));
            }
        }
        i = i + 1;
    }
    proof {
        if i == assets.len() {
            assert(assets@.skip(i as int).len() == 0);
        }
        assert(r@ + Seq::<TickerData>::empty() =~= r@);
    }
    r
}

/// The first (at most three) positions of the reversed list whose price rose
/// today, in the reversed list's order.
pub fn top_performers(assets: &[TickerData]) -> (r: Vec<TickerData>)
    ensures
        r@ == first_kept(assets@.reverse(), true, 3),
{
    let ghost keep = true;
    let n = assets.len();
    let mut reversed: Vec<TickerData> = Vec::new();
    let mut k: usize = 0;
    while k < n
        invariant
            n == assets@.len(),
            k <= n,
            reversed@ =~= Seq::new(k as nat, |j: int| assets@[n - 1 - j]),
        decreases n - k,
    {
        reversed.push(assets[n - 1 - k].copy());
        k = k + 1;
    }
    proof {
        assert(reversed@ =~= assets@.reverse());
    }
    let mut r: Vec<TickerData> = Vec::new();
    let mut i: usize = 0;
    proof {
        assert(reversed@.skip(0) =~= reversed@);
        assert(r@ + first_kept(reversed@, keep, 3) =~= first_kept(reversed@, keep, 3));
    }
    while i < reversed.len() && r.len() < PERFORMERS
        invariant
            i <= reversed.len(),
            keep,
            r.len() <= 3,
            r@ + first_kept(reversed@.skip(i as int), keep, (3 - r.len()) as nat) == first_kept(reversed@, keep, 3),
        decreases reversed.len() - i,
    {
        proof {
            lemma_first_kept_step(reversed@, keep, i as int, (3 - r.len()) as nat);
        }
        if reversed[i].todays_change.mantissa > 0 {
            let ghost before = r@;
            r.push(reversed[i].copy());
            proof {
                assert(before + seq![reversed@[i as int]].add(first_kept(reversed@.skip(i + 1), keep, (3 - r.len()) as nat))
                    =~= r@ + first_kept(reversed@.skip(i + 1), keep, (3 - r.len()) as nat));
            }
        }
        i = i + 1;
    }
    proof {
        if i == reversed.len() {
            assert(reversed@.skip(i as int).len() == 0);
        }
        assert(r@ + Seq::<TickerData>::empty() =~= r@);
    }
    r
}

} // verus!
