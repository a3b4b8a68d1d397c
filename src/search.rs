//! First-match search over positions, the shape shared by every lookup in
//! the library ("the first entry, in order, that satisfies ...").

use vstd::prelude::*;

verus! {

/// The first position `k` with `from <= k < n` at which `p` holds, if any.
pub open spec fn first_from(p: spec_fn(int) -> bool, from: int, n: int) -> Option<int>
    decreases n - from,
{
    if from >= n {
        None
    } else if p(from) {
        Some(from)
    } else {
        first_from(p, from + 1, n)
    }
}

/// The first position below `n` at which `p` holds, if any.
pub open spec fn first_where(p: spec_fn(int) -> bool, n: int) -> Option<int> {
    first_from(p, 0, n)
}

/// Skipping a run of positions where `p` fails does not change the search.
pub proof fn lemma_first_skip(p: spec_fn(int) -> bool, from: int, to: int, n: int)
    requires
        from <= to,
        forall|j: int| from <= j < to ==> !#[trigger] p(j),
    ensures
        first_from(p, from, n) == first_from(p, to, n),
    decreases to - from,
{
    if from < to {
        if from < n {
            lemma_first_skip(p, from + 1, to, n);
        } else {
            lemma_first_none_past_end(p, to, n);
        }
    }
}

proof fn lemma_first_none_past_end(p: spec_fn(int) -> bool, from: int, n: int)
    requires
        from >= n,
    ensures
        first_from(p, from, n) == None::<int>,
{
}

} // verus!
