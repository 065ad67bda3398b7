//! The shape of a skeleton: which bone is the root and which bones hang from each
//! bone, worked out from the parent index that each bone names in a skeleton file.
use vstd::prelude::*;

verus! {

/// Every parent index names a bone of the list.
pub open spec fn parents_in_range(parents: Seq<Option<u32>>) -> bool {
    forall|i: int|
        0 <= i < parents.len() && (#[trigger] parents[i]) is Some ==> (parents[i]->0 as int)
            < parents.len()
}

/// Some bone of the list has no parent.
pub open spec fn has_root(parents: Seq<Option<u32>>) -> bool {
    exists|i: int| 0 <= i < parents.len() && (#[trigger] parents[i]) is None
}

/// Bone `i` names bone `p` as its parent.
pub open spec fn parent_is(parents: Seq<Option<u32>>, i: int, p: int) -> bool {
    parents[i] is Some && parents[i]->0 as int == p
}

/// `children` lists, in increasing order, exactly the bones before `bound` whose parent
/// is `p`.
pub open spec fn lists_children_before(
    parents: Seq<Option<u32>>,
    p: int,
    bound: int,
    children: Seq<usize>,
) -> bool {
    &&& forall|j: int|
        0 <= j < children.len() ==> (#[trigger] children[j] as int) < bound
            && parent_is(parents, children[j] as int, p)
    &&& forall|i: int|
        0 <= i < bound && #[trigger] parent_is(parents, i, p) ==> children.contains(
            i as usize,
        )
    &&& forall|j1: int, j2: int|
        0 <= j1 < j2 < children.len() ==> (#[trigger] children[j1]) < (#[trigger] children[j2])
}

/// `children` lists, in increasing order, exactly the bones whose parent is `p`.
pub open spec fn lists_children_of(parents: Seq<Option<u32>>, p: int, children: Seq<usize>) -> bool {
    lists_children_before(parents, p, parents.len() as int, children)
}

/// A skeleton as its root bone and, for each bone, the bones attached to it.
#[derive(Debug, Clone)]
pub struct BoneHierarchy {
    pub root: usize,
    pub children_of: Vec<Vec<usize>>,
}

/// The first bone without a parent, if there is one.
pub fn find_root_bone(parents: &Vec<Option<u32>>) -> (r: Option<usize>)
    ensures
        match r {
            Some(root) => root < parents.len() && parents@[root as int] is None && forall|j: int|
                0 <= j < root ==> (#[trigger] parents@[j]) is Some,
            None => !has_root(parents@),
        },
{
    let mut i: usize = 0;
    while i < parents.len()
        invariant
            i <= parents.len(),
            forall|j: int| 0 <= j < i ==> (#[trigger] parents@[j]) is Some,
        decreases parents.len() - i,
    {
        if parents[i].is_none() {
            return Some(i);
        }
        i = i + 1;
    }
    None
}

/// For each bone, the bones whose parent it is, in the order they are listed.
pub fn children_lists(parents: &Vec<Option<u32>>) -> (r: Vec<Vec<usize>>)
    requires
        parents_in_range(parents@),
    ensures
        r.len() == parents.len(),
        forall|p: int| 0 <= p < r.len() ==> lists_children_of(parents@, p, #[trigger] r@[p]@),
{
    let n = parents.len();
    let mut lists: Vec<Vec<usize>> = Vec::new();
    let mut k: usize = 0;
    while k < n
        invariant
            k <= n,
            n == parents.len(),
            lists.len() == k,
            forall|p: int| 0 <= p < k ==> (#[trigger] lists@[p]@).len() == 0,
        decreases n - k,
    {
        lists.push(Vec::new());
        k = k + 1;
    }
    let mut i: usize = 0;
    while i < n
        invariant
            i <= n,
            n == parents.len(),
            lists.len() == n,
            parents_in_range(parents@),
            forall|p: int|
                0 <= p < n ==> lists_children_before(parents@, p, i as int, #[trigger] lists@[p]@),
        decreases n - i,
    {
        if let Some(q) = parents[i] {
            let qi = q as usize;
            assert(parents@[i as int] is Some);
            let mut c = lists[qi].clone();
            assert(c@ =~= lists@[qi as int]@);
            c.push(i);
            let ghost before = lists@;
            lists.set(qi, c);
            assert forall|p: int|
                0 <= p < n implies lists_children_before(
                parents@,
                p,
                i + 1,
                #[trigger] lists@[p]@,
            ) by {
                assert(lists_children_before(parents@, p, i as int, before[p]@));
                if p == qi as int {
                    let old_c = before[p]@;
                    let new_c = lists@[p]@;
                    assert(new_c =~= old_c.push(i));
                    assert forall|j: int| 0 <= j < new_c.len() implies (#[trigger] new_c[j] as int)
                        < i + 1 && parent_is(parents@, new_c[j] as int, p) by {
                        if j < old_c.len() {
                            assert(new_c[j] == old_c[j]);
                        }
                    }
                    assert forall|j1: int, j2: int|
                        0 <= j1 < j2 < new_c.len() implies (#[trigger] new_c[j1]) < (
                        #[trigger] new_c[j2]) by {
                        assert(new_c[j1] == old_c[j1]);
                        if j2 < old_c.len() {
                            assert(new_c[j2] == old_c[j2]);
                        }
                    }
                    assert forall|q2: int|
                        0 <= q2 < i + 1 && #[trigger] parent_is(parents@, q2, p) implies lists@[p]@.contains(
                        q2 as usize,
                    ) by {
                        if q2 < i {
                            let w = choose|w: int|
                                0 <= w < before[p]@.len() && before[p]@[w] == q2 as usize;
                            assert(lists@[p]@[w] == q2 as usize);
                        } else {
                            assert(lists@[p]@[lists@[p]@.len() - 1] == i);
                        }
                    }
                } else {
                    assert(lists@[p] == before[p]);
                }
            }
        }
        i = i + 1;
    }
    lists
}

/// The root of the skeleton and the bones hanging from each bone.
pub fn build_bone_hierarchy(parents: &Vec<Option<u32>>) -> (h: BoneHierarchy)
    requires
        parents_in_range(parents@),
        has_root(parents@),
    ensures
        h.root < parents.len(),
        parents@[h.root as int] is None,
        forall|j: int| 0 <= j < h.root ==> (#[trigger] parents@[j]) is Some,
        h.children_of.len() == parents.len(),
        forall|p: int|
            0 <= p < parents.len() ==> lists_children_of(parents@, p, #[trigger] h.children_of@[p]@),
{
    let root = find_root_bone(parents);
    let children_of = children_lists(parents);
    match root {
        Some(r) => BoneHierarchy { root: r, children_of },
        None => BoneHierarchy { root: 0, children_of },
    }
}

/// Each bone with a parent is listed under that parent and under no other bone, and a
/// bone without a parent is listed under none.
pub proof fn lemma_each_bone_listed_once(h: BoneHierarchy, parents: Seq<Option<u32>>, b: int, p: int)
    requires
        h.children_of.len() == parents.len(),
        forall|q: int|
            0 <= q < parents.len() ==> lists_children_of(parents, q, #[trigger] h.children_of@[q]@),
        0 <= b < parents.len(),
        0 <= p < parents.len(),
    ensures
        h.children_of@[p]@.contains(b as usize) <==> parent_is(parents, b, p),
{
    assert(lists_children_of(parents, p, h.children_of@[p]@));
    if h.children_of@[p]@.contains(b as usize) {
        let j = choose|j: int|
            0 <= j < h.children_of@[p]@.len() && h.children_of@[p]@[j] == b as usize;
        assert(parent_is(parents, h.children_of@[p]@[j] as int, p));
    }
}

} // verus!
