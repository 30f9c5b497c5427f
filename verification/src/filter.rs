//! The label filter: an issue event is in scope exactly when the issue
//! carries at least one label and its label set meets the watch-set. An
//! issue with no labels at all is discarded before the watch-set is even
//! consulted.

use vstd::prelude::*;

verus! {

/// Whether some entry of `labels` reads `s`.
pub open spec fn has_label(labels: Seq<String>, s: Seq<char>) -> bool {
    exists|i: int| 0 <= i < labels.len() && labels[i]@ == s
}

/// Whether the two label lists share at least one name.
pub open spec fn sets_meet(labels: Seq<String>, watched: Seq<String>) -> bool {
    exists|i: int| 0 <= i < labels.len() && has_label(watched, labels[i]@)
}

/// The scope gate of the issue dispatcher: a non-empty label set that
/// meets the watch-set.
pub open spec fn spec_in_scope(labels: Seq<String>, watched: Seq<String>) -> bool {
    labels.len() > 0 && sets_meet(labels, watched)
}

/// Whether `s` occurs in `labels`, by exact string match.
pub fn contains_label(labels: &Vec<String>, s: &String) -> (r: bool)
    ensures
        r == has_label(labels@, s@),
{
    let n = labels.len();
    let mut i: usize = 0;
    while i < n
        invariant
            0 <= i <= n,
            n == labels@.len(),
            forall|j: int| 0 <= j < i ==> labels@[j]@ != s@,
        decreases n - i,
    {
        if labels[i] == *s {
            return true;
        }
        i += 1;
    }
    false
}

/// The intersection of an issue's labels with the watch-set: every shared
/// name exactly once, in the order the issue lists them.
pub fn intersect(labels: &Vec<String>, watched: &Vec<String>) -> (r: Vec<String>)
    ensures
        forall|i: int|
            0 <= i < r@.len() ==> has_label(labels@, #[trigger] r@[i]@) && has_label(
                watched@,
                r@[i]@,
            ),
        forall|i: int|
            0 <= i < labels@.len() && has_label(watched@, #[trigger] labels@[i]@) ==> has_label(
                r@,
                labels@[i]@,
            ),
        forall|i: int, j: int| 0 <= i < j < r@.len() ==> r@[i]@ != r@[j]@,
{
    let mut r: Vec<String> = Vec::new();
    let n = labels.len();
    let mut k: usize = 0;
    while k < n
        invariant
            0 <= k <= n,
            n == labels@.len(),
            forall|i: int|
                0 <= i < r@.len() ==> has_label(labels@, #[trigger] r@[i]@) && has_label(
                    watched@,
                    r@[i]@,
                ),
            forall|i: int|
                0 <= i < k && has_label(watched@, #[trigger] labels@[i]@) ==> has_label(
                    r@,
                    labels@[i]@,
                ),
            forall|i: int, j: int| 0 <= i < j < r@.len() ==> r@[i]@ != r@[j]@,
        decreases n - k,
    {
        if contains_label(watched, &labels[k]) && !contains_label(&r, &labels[k]) {
            let ghost old_r = r@;
            r.push(labels[k].clone());
            proof {
                assert(forall|i: int| 0 <= i < old_r.len() ==> r@[i]@ == old_r[i]@);
                assert(r@[old_r.len() as int]@ == labels@[k as int]@);
            }
        }
        k += 1;
    }
    r
}

/// Decides the scope gate; `true` exactly when the issue has labels and at
/// least one of them is watched.
pub fn in_scope(labels: &Vec<String>, watched: &Vec<String>) -> (r: bool)
    ensures
        r == spec_in_scope(labels@, watched@),
{
    if labels.len() == 0 {
        return false;
    }
    let shared = intersect(labels, watched);
    proof {
        if shared@.len() > 0 {
            assert(has_label(labels@, shared@[0]@) && has_label(watched@, shared@[0]@));
            let i = choose|i: int| 0 <= i < labels@.len() && labels@[i]@ == shared@[0]@;
            assert(sets_meet(labels@, watched@));
        }
        if sets_meet(labels@, watched@) {
            let i = choose|i: int| 0 <= i < labels@.len() && has_label(watched@, labels@[i]@);
            assert(has_label(shared@, labels@[i]@));
            assert(shared@.len() > 0);
        }
    }
    shared.len() > 0
}

} // verus!
