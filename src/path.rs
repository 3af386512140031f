use vstd::prelude::*;
use crate::error::FbmError;

verus! {

/// `terms` holds, for point `i`, one value that `term` can return for each
/// summand `j < i`, in order of `j`; `term` is handed the lag `i - j` and `j`.
pub open spec fn is_draw<T, F: Fn(usize, usize) -> T>(term: F, i: usize, terms: Seq<T>) -> bool {
    &&& terms.len() == i
    &&& forall|j: int| 0 <= j < i ==> call_ensures(term, ((i - j) as usize, j as usize), #[trigger] terms[j])
}

/// `acc` is a value that adding up `terms` from the left with `plus`, starting at
/// `zero`, can produce.
pub open spec fn is_sum<T, G: Fn(T, T) -> T>(plus: G, zero: T, terms: Seq<T>, acc: T) -> bool
    decreases terms.len(),
{
    if terms.len() == 0 {
        acc == zero
    } else {
        exists|prev: T|
            is_sum(plus, zero, terms.drop_last(), prev) && #[trigger] call_ensures(plus, (prev, terms.last()), acc)
    }
}

/// `v` is a value that point `i` of a path can take: the sum of one fresh draw
/// of `term` for each earlier index.
pub open spec fn is_point<T, F: Fn(usize, usize) -> T, G: Fn(T, T) -> T>(
    term: F,
    plus: G,
    zero: T,
    i: usize,
    v: T,
) -> bool {
    exists|terms: Seq<T>| is_draw(term, i, terms) && is_sum(plus, zero, terms, v)
}

/// Generates a path of `n` points by weighted-noise summation: point 0 is
/// `zero`, and point `i` adds up `term(i - j, j)` over `j < i`, each summand
/// drawn afresh. `term` holds the weighting and the noise, `plus` the
/// arithmetic. A path of no points is refused.
pub fn generate<T: Copy, F: Fn(usize, usize) -> T, G: Fn(T, T) -> T>(
    n: usize,
    zero: T,
    term: F,
    plus: G,
) -> (r: Result<Vec<T>, FbmError>)
    requires
        forall|i: usize, j: usize| j < i < n ==> #[trigger] call_requires(term, ((i - j) as usize, j)),
        forall|a: T, b: T| #[trigger] call_requires(plus, (a, b)),
    ensures
        r is Err <==> n == 0,
        r is Err ==> r->Err_0 == FbmError::InvalidLength,
        r is Ok ==> r->Ok_0@.len() == n && r->Ok_0@[0] == zero,
        r is Ok ==> forall|i: int| 0 <= i < n ==> is_point(term, plus, zero, i as usize, #[trigger] r->Ok_0@[i]),
{
    if n == 0 {
        return Err(FbmError::InvalidLength);
    }
    let mut path: Vec<T> = Vec::new();
    path.push(zero);
    proof {
        let empty = Seq::<T>::empty();
        assert(is_draw(term, 0usize, empty));
        assert(is_sum(plus, zero, empty, zero));
        assert(is_point(term, plus, zero, 0usize, path@[0]));
    }
    let mut i: usize = 1;
    while i < n
        invariant
            1 <= i <= n,
            path@.len() == i,
            path@[0] == zero,
            forall|k: int| 0 <= k < i ==> is_point(term, plus, zero, k as usize, #[trigger] path@[k]),
            forall|a: usize, b: usize| b < a < n ==> #[trigger] call_requires(term, ((a - b) as usize, b)),
            forall|a: T, b: T| #[trigger] call_requires(plus, (a, b)),
        decreases n - i,
    {
        let mut sum: T = zero;
        let ghost mut terms: Seq<T> = Seq::empty();
        let mut j: usize = 0;
        while j < i
            invariant
                1 <= i < n,
                j <= i,
                terms.len() == j,
                forall|m: int| 0 <= m < j ==> call_ensures(term, ((i - m) as usize, m as usize), #[trigger] terms[m]),
                is_sum(plus, zero, terms, sum),
                forall|a: usize, b: usize| b < a < n ==> #[trigger] call_requires(term, ((a - b) as usize, b)),
                forall|a: T, b: T| #[trigger] call_requires(plus, (a, b)),
            decreases i - j,
        {
            let t = term(i - j, j);
            let next = plus(sum, t);
            proof {
                let prev = sum;
                let old_terms = terms;
                terms = terms.push(t);
                assert(terms.drop_last() =~= old_terms);
                assert(call_ensures(plus, (prev, terms.last()), next));
                assert(is_sum(plus, zero, terms, next));
            }
            sum = next;
            j = j + 1;
        }
        proof {
            assert(is_draw(term, i, terms));
            assert(is_point(term, plus, zero, i, sum));
        }
        path.push(sum);
        i = i + 1;
    }
    Ok(path)
}

} // verus!
