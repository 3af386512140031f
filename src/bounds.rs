use vstd::prelude::*;

verus! {

/// `less` can answer `true` on `(a, b)`: `a` lies below `b`.
pub open spec fn below<T, L: Fn(T, T) -> bool>(less: L, a: T, b: T) -> bool {
    call_ensures(less, (a, b), true)
}

/// `less` can answer `false` on `(a, b)`.
pub open spec fn not_below<T, L: Fn(T, T) -> bool>(less: L, a: T, b: T) -> bool {
    call_ensures(less, (a, b), false)
}

/// `less` is transitive on the answers it can give.
pub open spec fn transitive<T, L: Fn(T, T) -> bool>(less: L) -> bool {
    forall|a: T, b: T, c: T| #[trigger] below(less, a, b) && #[trigger] below(less, b, c) ==> below(less, a, c)
}

/// One step of a running minimum: from `p`, on value `x`, to `m`.
pub open spec fn low_step<T, L: Fn(T, T) -> bool>(less: L, p: T, x: T, m: T) -> bool {
    (below(less, x, p) && m == x) || (not_below(less, x, p) && m == p)
}

/// One step of a running maximum: from `p`, on value `x`, to `m`.
pub open spec fn high_step<T, L: Fn(T, T) -> bool>(less: L, p: T, x: T, m: T) -> bool {
    (below(less, p, x) && m == x) || (not_below(less, p, x) && m == p)
}

/// `m` is a value that the running minimum over `s`, seeded at `zero`, can end
/// at: each value replaces the current one when it lies below it.
pub open spec fn is_low<T, L: Fn(T, T) -> bool>(less: L, zero: T, s: Seq<T>, m: T) -> bool
    decreases s.len(),
{
    if s.len() == 0 {
        m == zero
    } else {
        exists|p: T|
            is_low(less, zero, s.drop_last(), p) && #[trigger] low_step(less, p, s.last(), m)
    }
}

/// `m` is a value that the running maximum over `s`, seeded at `zero`, can end
/// at: each value replaces the current one when the current one lies below it.
pub open spec fn is_high<T, L: Fn(T, T) -> bool>(less: L, zero: T, s: Seq<T>, m: T) -> bool
    decreases s.len(),
{
    if s.len() == 0 {
        m == zero
    } else {
        exists|p: T|
            is_high(less, zero, s.drop_last(), p) && #[trigger] high_step(less, p, s.last(), m)
    }
}

/// The vertical bounds of a series: a running minimum and maximum, both seeded
/// at `zero`. Under a transitive comparison the bounds always take in `zero`:
/// the low one is `zero` or below it, the high one `zero` or above it.
pub fn limits<T: Copy, L: Fn(T, T) -> bool>(series: &Vec<T>, zero: T, less: L) -> (r: (T, T))
    requires
        forall|a: T, b: T| #[trigger] call_requires(less, (a, b)),
    ensures
        is_low(less, zero, series@, r.0),
        is_high(less, zero, series@, r.1),
        transitive(less) ==> (r.0 == zero || below(less, r.0, zero)) && (r.1 == zero || below(less, zero, r.1))
            && (r.0 == r.1 || below(less, r.0, r.1)),
{
    let mut lo: T = zero;
    let mut hi: T = zero;
    let mut k: usize = 0;
    proof {
        assert(series@.take(0) =~= Seq::<T>::empty());
    }
    while k < series.len()
        invariant
            k <= series@.len(),
            is_low(less, zero, series@.take(k as int), lo),
            is_high(less, zero, series@.take(k as int), hi),
            forall|a: T, b: T| #[trigger] call_requires(less, (a, b)),
        decreases series@.len() - k,
    {
        let x = series[k];
        let old_lo = lo;
        let old_hi = hi;
        let lower = less(x, lo);
        if lower {
            lo = x;
        }
        let higher = less(hi, x);
        if higher {
            hi = x;
        }
        proof {
            let s = series@.take(k + 1);
            assert(s.drop_last() =~= series@.take(k as int));
            assert(s.last() == x);
            assert(is_low(less, zero, s.drop_last(), old_lo) && low_step(less, old_lo, s.last(), lo));
            assert(is_high(less, zero, s.drop_last(), old_hi) && high_step(less, old_hi, s.last(), hi));
        }
        k = k + 1;
    }
    proof {
        assert(series@.take(series@.len() as int) =~= series@);
        if transitive(less) {
            lemma_limits_bracket_zero(less, zero, series@, lo, hi);
        }
    }
    (lo, hi)
}

/// Where `less` is transitive, a running minimum seeded at `zero` is `zero`
/// or lies below it.
pub proof fn lemma_low_at_most_zero<T, L: Fn(T, T) -> bool>(less: L, zero: T, s: Seq<T>, m: T)
    requires
        transitive(less),
        is_low(less, zero, s, m),
    ensures
        m == zero || below(less, m, zero),
    decreases s.len(),
{
    if s.len() > 0 {
        let p = choose|p: T|
            is_low(less, zero, s.drop_last(), p) && #[trigger] low_step(less, p, s.last(), m);
        lemma_low_at_most_zero(less, zero, s.drop_last(), p);
    }
}

/// Where `less` is transitive, a running maximum seeded at `zero` is `zero`
/// or lies above it.
pub proof fn lemma_high_at_least_zero<T, L: Fn(T, T) -> bool>(less: L, zero: T, s: Seq<T>, m: T)
    requires
        transitive(less),
        is_high(less, zero, s, m),
    ensures
        m == zero || below(less, zero, m),
    decreases s.len(),
{
    if s.len() > 0 {
        let p = choose|p: T|
            is_high(less, zero, s.drop_last(), p) && #[trigger] high_step(less, p, s.last(), m);
        lemma_high_at_least_zero(less, zero, s.drop_last(), p);
    }
}

/// The bounds of any series bracket the seed: the low bound is `zero` or below
/// it, the high bound is `zero` or above it, and so the low bound is the high
/// one or below it; for any comparison that is transitive.
pub proof fn lemma_limits_bracket_zero<T, L: Fn(T, T) -> bool>(less: L, zero: T, series: Seq<T>, lo: T, hi: T)
    requires
        transitive(less),
        is_low(less, zero, series, lo),
        is_high(less, zero, series, hi),
    ensures
        lo == zero || below(less, lo, zero),
        hi == zero || below(less, zero, hi),
        lo == hi || below(less, lo, hi),
{
    lemma_low_at_most_zero(less, zero, series, lo);
    lemma_high_at_least_zero(less, zero, series, hi);
}

/// The range that the vertical axis spans: the bounds themselves, or, where
/// `same` finds that they collapse to one point, the span that `widen` puts
/// around it. Where no span that `widen` gives collapses, neither does the
/// range.
pub fn axis_range<T: Copy, E: Fn(T, T) -> bool, W: Fn(T) -> (T, T)>(
    bounds: (T, T),
    same: E,
    widen: W,
) -> (r: (T, T))
    requires
        call_requires(same, (bounds.0, bounds.1)),
        call_requires(widen, (bounds.0,)),
    ensures
        (call_ensures(same, (bounds.0, bounds.1), false) && r == bounds)
            || (call_ensures(same, (bounds.0, bounds.1), true) && call_ensures(widen, (bounds.0,), r)),
        (forall|v: T, w: (T, T)| #[trigger] call_ensures(widen, (v,), w) ==> call_ensures(same, (w.0, w.1), false))
            ==> call_ensures(same, (r.0, r.1), false),
{
    if same(bounds.0, bounds.1) {
        widen(bounds.0)
    } else {
        bounds
    }
}

} // verus!
