//! The association grouper: a pure, single-pass algorithm that, given an
//! ordered list of parent keys and a list of child records each carrying a
//! parent key, partitions the children into per-parent groups.
//!
//! The result keeps the parents' original order, keeps the children of one
//! parent in their input order (stable grouping), and gives a parent with
//! no matching children an empty group. The work is proportional to the
//! number of parents plus the number of children: one pass builds a
//! key-to-position table over the parents, one pass distributes the
//! children through table lookups.

use vstd::prelude::*;

use std::collections::HashMap;

use crate::models::{Comment, User};
use crate::store::lemma_filter_push;

verus! {

broadcast use vstd::std_specs::hash::group_hash_axioms;

/// The predicate a child record must meet to land in the group of the
/// parent post with id `post_id`.
pub open spec fn belongs_to(post_id: i32) -> spec_fn((Comment, User)) -> bool {
    |cu: (Comment, User)| cu.0.post_id == post_id
}

/// Partitions `children` into one group per entry of `parent_keys`: group
/// `i` holds exactly the children whose key equals `parent_keys[i]`, in the
/// relative order they appeared in `children`. A child whose key matches no
/// parent lands nowhere.
pub fn group_comments_by_post(parent_keys: &Vec<i32>, children: Vec<(Comment, User)>) -> (groups:
    Vec<Vec<(Comment, User)>>)
    requires
        forall|i: int, j: int|
            0 <= i < j < parent_keys@.len() ==> parent_keys@[i] != parent_keys@[j],
    ensures
        groups@.len() == parent_keys@.len(),
        forall|i: int|
            0 <= i < parent_keys@.len() ==> (#[trigger] groups@[i])@ == children@.filter(
                belongs_to(parent_keys@[i]),
            ),
{
    let n = parent_keys.len();
    let mut position: HashMap<i32, usize> = HashMap::new();
    let mut groups: Vec<Vec<(Comment, User)>> = Vec::new();
    let mut i: usize = 0;
    while i < n
        invariant
            n == parent_keys@.len(),
            i <= n,
            groups@.len() == i,
            forall|j: int, k: int| 0 <= j < k < n ==> parent_keys@[j] != parent_keys@[k],
            forall|j: int|
                0 <= j < i ==> (#[trigger] groups@[j])@ == Seq::<(Comment, User)>::empty(),
            forall|j: int|
                0 <= j < i ==> position@.contains_key(#[trigger] parent_keys@[j])
                    && position@[parent_keys@[j]] == j,
            forall|k: i32|
                position@.contains_key(k) ==> exists|j: int|
                    0 <= j < i && #[trigger] parent_keys@[j] == k,
        decreases n - i,
    {
        position.insert(parent_keys[i], i);
        let empty_group: Vec<(Comment, User)> = Vec::new();
        groups.push(empty_group);
        assert forall|k: i32| position@.contains_key(k) implies exists|j: int|
            0 <= j < i + 1 && #[trigger] parent_keys@[j] == k by {
            if k == parent_keys@[i as int] {
                assert(parent_keys@[i as int] == k);
            }
        }
        i += 1;
    }
    let total = children.len();
    let mut j: usize = 0;
    while j < total
        invariant
            n == parent_keys@.len(),
            total == children@.len(),
            j <= total,
            groups@.len() == n,
            forall|a: int, b: int| 0 <= a < b < n ==> parent_keys@[a] != parent_keys@[b],
            forall|g: int|
                0 <= g < n ==> position@.contains_key(#[trigger] parent_keys@[g])
                    && position@[parent_keys@[g]] == g,
            forall|k: i32|
                position@.contains_key(k) ==> exists|g: int|
                    0 <= g < n && #[trigger] parent_keys@[g] == k,
            forall|g: int|
                0 <= g < n ==> (#[trigger] groups@[g])@ == children@.subrange(0, j as int).filter(
                    belongs_to(parent_keys@[g]),
                ),
        decreases total - j,
    {
        let ghost prefix = children@.subrange(0, j as int);
        let child_comment = children[j].0.clone();
        let child_author = children[j].1.clone();
        proof {
            assert((child_comment, child_author) == children@[j as int]);
            assert(children@.subrange(0, j as int + 1) =~= prefix.push(children@[j as int]));
        }
        match position.get(&child_comment.post_id) {
            Some(slot) => {
                let g: usize = *slot;
                proof {
                    let k = child_comment.post_id;
                    let witness = choose|w: int| 0 <= w < n && #[trigger] parent_keys@[w] == k;
                    assert(position@[parent_keys@[witness]] == witness);
                    assert(g == witness);
                }
                groups[g].push((child_comment, child_author));
                assert forall|g2: int| 0 <= g2 < n implies (#[trigger] groups@[g2])@
                    == children@.subrange(0, j as int + 1).filter(
                    belongs_to(parent_keys@[g2]),
                ) by {
                    lemma_filter_push(
                        prefix,
                        children@[j as int],
                        belongs_to(parent_keys@[g2]),
                    );
                }
            },
            None => {
                assert forall|g2: int| 0 <= g2 < n implies (#[trigger] groups@[g2])@
                    == children@.subrange(0, j as int + 1).filter(
                    belongs_to(parent_keys@[g2]),
                ) by {
                    lemma_filter_push(
                        prefix,
                        children@[j as int],
                        belongs_to(parent_keys@[g2]),
                    );
                    assert(!position@.contains_key(children@[j as int].0.post_id));
                    assert(parent_keys@[g2] != children@[j as int].0.post_id);
                }
            },
        }
        j += 1;
    }
    proof {
        assert(children@.subrange(0, total as int) =~= children@);
    }
    groups
}

} // verus!
