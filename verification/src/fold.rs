//! Left folds that may stop on a failing step.
use vstd::prelude::*;

verus! {

/// Folds `f` over `s` from the left, starting at `init`; `None` as soon as a
/// step gives `None`.
pub open spec fn fold_opt<T, A>(s: Seq<T>, init: A, f: spec_fn(A, T) -> Option<A>) -> Option<A>
    decreases s.len(),
{
    if s.len() == 0 {
        Some(init)
    } else {
        match fold_opt(s.drop_last(), init, f) {
            Some(a) => f(a, s.last()),
            None => None,
        }
    }
}

/// The fold over the first `i + 1` elements is one step after the fold over the first `i`.
pub proof fn lemma_fold_opt_step<T, A>(s: Seq<T>, init: A, f: spec_fn(A, T) -> Option<A>, i: int)
    requires
        0 <= i < s.len(),
    ensures
        fold_opt(s.take(i + 1), init, f) == (match fold_opt(s.take(i), init, f) {
            Some(a) => f(a, s[i]),
            None => None,
        }),
{
    assert(s.take(i + 1).drop_last() =~= s.take(i));
}

/// A failed step fails the whole fold.
pub proof fn lemma_fold_opt_none<T, A>(s: Seq<T>, init: A, f: spec_fn(A, T) -> Option<A>, i: int)
    requires
        0 <= i <= s.len(),
        fold_opt(s.take(i), init, f) is None,
    ensures
        fold_opt(s, init, f) is None,
    decreases s.len() - i,
{
    if i < s.len() {
        lemma_fold_opt_step(s, init, f, i);
        lemma_fold_opt_none(s, init, f, i + 1);
    } else {
        assert(s.take(i) =~= s);
    }
}

/// The fold over all elements is the fold over the prefix of full length.
pub proof fn lemma_fold_opt_full<T, A>(s: Seq<T>, init: A, f: spec_fn(A, T) -> Option<A>)
    ensures
        fold_opt(s.take(s.len() as int), init, f) == fold_opt(s, init, f),
{
    assert(s.take(s.len() as int) =~= s);
}

/// A step that keeps every accumulator leaves the fold unchanged, wherever
/// its element is inserted.
pub proof fn lemma_fold_opt_insert_neutral<T, A>(s: Seq<T>, init: A, f: spec_fn(A, T) -> Option<A>, i: int, x: T)
    requires
        0 <= i <= s.len(),
        forall|a: A| #[trigger] f(a, x) == Some(a),
    ensures
        fold_opt(s.insert(i, x), init, f) == fold_opt(s, init, f),
    decreases s.len(),
{
    let t = s.insert(i, x);
    if i == s.len() {
        assert(t.drop_last() =~= s);
        assert(t.last() == x);
        match fold_opt(s, init, f) {
            Some(a) => {
                assert(f(a, x) == Some(a));
            },
            None => {},
        }
    } else {
        assert(t.drop_last() =~= s.drop_last().insert(i, x));
        assert(t.last() == s.last());
        lemma_fold_opt_insert_neutral(s.drop_last(), init, f, i, x);
    }
}

} // verus!
