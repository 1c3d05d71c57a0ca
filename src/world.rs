//! Nearest-hit resolution across a scene.
//!
//! Every candidate intersection along a ray is given as a key: an integer that
//! orders the candidates exactly as their distances along the ray are ordered.
//! A candidate counts when its key lies in `lower..upper`; `lower` stands for the
//! self-intersection bound below which a hit is rejected, `upper` for the
//! largest distance that is still a hit.
use vstd::prelude::*;

verus! {

/// Candidate `i` counts: its key lies in `lower..upper`.
pub open spec fn accepted(keys: Seq<i64>, lower: i64, upper: i64, i: int) -> bool {
    0 <= i < keys.len() && lower <= keys[i] < upper
}

/// Candidate `i` is the nearest hit: it counts, no counted candidate is nearer,
/// and no counted candidate before it is as near.
pub open spec fn is_nearest(keys: Seq<i64>, lower: i64, upper: i64, i: int) -> bool {
    &&& accepted(keys, lower, upper, i)
    &&& forall|j: int| #[trigger]
        accepted(keys, lower, upper, j) ==> keys[i] <= keys[j]
    &&& forall|j: int| 0 <= j < i && #[trigger] accepted(keys, lower, upper, j) ==> keys[i] < keys[j]
}

/// Index of the nearest counted candidate, or `None` when no candidate counts
/// (the ray leaves the scene).
pub fn nearest_hit(keys: &Vec<i64>, lower: i64, upper: i64) -> (r: Option<usize>)
    ensures
        r is None <==> forall|j: int| !#[trigger] accepted(keys@, lower, upper, j),
        r matches Some(i) ==> is_nearest(keys@, lower, upper, i as int),
{
    let mut best: Option<usize> = None;
    let mut k: usize = 0;
    while k < keys.len()
        invariant
            k <= keys.len(),
            best is None <==> forall|j: int| 0 <= j < k ==> !#[trigger] accepted(keys@, lower, upper, j),
            best matches Some(i) ==> {
                &&& i < k
                &&& accepted(keys@, lower, upper, i as int)
                &&& forall|j: int|
                    0 <= j < k && #[trigger] accepted(keys@, lower, upper, j) ==> keys@[i as int] <= keys@[j]
                &&& forall|j: int|
                    0 <= j < i && #[trigger] accepted(keys@, lower, upper, j) ==> keys@[i as int] < keys@[j]
            },
        decreases keys.len() - k,
    {
        let key = keys[k];
        if lower <= key && key < upper {
            match best {
                None => {
                    best = Some(k);
                },
                Some(i) => {
                    if key < keys[i] {
                        best = Some(k);
                    }
                },
            }
        }
        proof {
            if let Some(i) = best {
                assert(accepted(keys@, lower, upper, i as int));
            }
        }
        k = k + 1;
    }
    best
}

/// The nearest hit is a function of the candidates: two queries on the same
/// candidates, with the same bounds, resolve to the same hit.
pub proof fn nearest_hit_is_unique(keys: Seq<i64>, lower: i64, upper: i64, i: int, j: int)
    requires
        is_nearest(keys, lower, upper, i),
        is_nearest(keys, lower, upper, j),
    ensures
        i == j,
{
    if i < j {
        assert(accepted(keys, lower, upper, i));
    } else if j < i {
        assert(accepted(keys, lower, upper, j));
    }
}

/// Of a sphere's two roots, near one first: when the near root falls below the
/// lower bound and the far root lies in range, exactly the far root counts, and
/// it is the nearest hit. (This is the selection made for a ray that starts
/// inside a sphere, once the geometry has put the near root behind it.)
pub proof fn only_far_root_counts(roots: Seq<i64>, lower: i64, upper: i64)
    requires
        roots.len() == 2,
        roots[0] < lower <= roots[1] < upper,
    ensures
        forall|j: int| #[trigger] accepted(roots, lower, upper, j) <==> j == 1,
        is_nearest(roots, lower, upper, 1),
{
}

/// The order in which the scene lists its primitives does not matter: when two
/// candidate lists hold the same keys in any order, their nearest hits lie at
/// the same distance.
pub proof fn nearest_hit_ignores_order(
    keys: Seq<i64>,
    shuffled: Seq<i64>,
    lower: i64,
    upper: i64,
    i: int,
    j: int,
)
    requires
        keys.to_multiset() == shuffled.to_multiset(),
        is_nearest(keys, lower, upper, i),
        is_nearest(shuffled, lower, upper, j),
    ensures
        keys[i] == shuffled[j],
{
    keys.to_multiset_ensures();
    shuffled.to_multiset_ensures();
    assert(keys.contains(keys[i]));
    assert(shuffled.to_multiset().count(keys[i]) > 0);
    let m = choose|m: int| 0 <= m < shuffled.len() && shuffled[m] == keys[i];
    assert(accepted(shuffled, lower, upper, m));
    assert(shuffled.contains(shuffled[j]));
    assert(keys.to_multiset().count(shuffled[j]) > 0);
    let n = choose|n: int| 0 <= n < keys.len() && keys[n] == shuffled[j];
    assert(accepted(keys, lower, upper, n));
}

} // verus!
