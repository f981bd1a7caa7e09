use core::any::TypeId;

use vstd::prelude::*;

use crate::table::SameKey;

verus! {

/// The items are in non-decreasing order of binding.
pub open spec fn sorted_by_binding<T>(s: Seq<(usize, T)>) -> bool {
    forall|i: int, j: int| 0 <= i < j < s.len() ==> (#[trigger] s[i]).0 <= (#[trigger] s[j]).0
}

/// The items reordered by increasing binding: the same items, each as often
/// as before.
pub fn sort_by_binding<T>(items: Vec<(usize, T)>) -> (r: Vec<(usize, T)>)
    ensures
        r@.to_multiset() == items@.to_multiset(),
        sorted_by_binding(r@),
{
    broadcast use vstd::seq_lib::group_to_multiset_ensures;
    broadcast use vstd::multiset::group_multiset_axioms;

    let ghost all = items@;
    let mut rest = items;
    let mut r: Vec<(usize, T)> = Vec::new();
    assert(r@.to_multiset().add(rest@.to_multiset()) =~= all.to_multiset());
    while rest.len() > 0
        invariant
            r@.to_multiset().add(rest@.to_multiset()) == all.to_multiset(),
            sorted_by_binding(r@),
        decreases rest@.len(),
    {
        let ghost before_rest = rest@;
        let ghost before_r = r@;
        let item = rest.remove(0);
        let key = item.0;
        let mut k: usize = 0;
        while k < r.len() && r[k].0 <= key
            invariant
                r@ == before_r,
                k <= r@.len(),
                forall|j: int| 0 <= j < k ==> (#[trigger] r@[j]).0 <= key,
            decreases r@.len() - k,
        {
            k = k + 1;
        }
        proof {
            if k < r@.len() {
                assert(r@[k as int].0 > key);
            }
        }
        r.insert(k, item);
        proof {
            assert(r@ == before_r.insert(k as int, item));
            assert forall|i: int, j: int| 0 <= i < j < r@.len() implies (#[trigger] r@[i]).0 <= (#[trigger] r@[j]).0 by {
                if j < k {
                    assert(r@[i] == before_r[i] && r@[j] == before_r[j]);
                } else if j == k {
                    assert(r@[i] == before_r[i]);
                } else if i == k {
                    assert(r@[j] == before_r[j - 1]);
                    assert(before_r[k as int].0 > key);
                    if j - 1 > k {
                        assert(before_r[k as int].0 <= before_r[j - 1].0);
                    }
                } else if i < k {
                    assert(r@[i] == before_r[i] && r@[j] == before_r[j - 1]);
                } else {
                    assert(r@[i] == before_r[i - 1] && r@[j] == before_r[j - 1]);
                }
            }
            assert(rest@ == before_rest.remove(0));
            assert(item == before_rest[0]);
            vstd::seq_lib::to_multiset_insert(before_r, k as int, item);
            vstd::seq_lib::to_multiset_remove(before_rest, 0);
            vstd::seq_lib::to_multiset_contains(before_rest, item);
            assert(before_rest.contains(item)) by {
                assert(before_rest[0] == item);
            }
            assert(r@.to_multiset().add(rest@.to_multiset()) =~= before_r.to_multiset().add(
                before_rest.to_multiset(),
            ));
        }
    }
    assert(rest@.to_multiset() =~= vstd::multiset::Multiset::empty());
    assert(r@.to_multiset() =~= all.to_multiset());
    r
}

/// Whether each binding differs from the next by exactly one, the check a
/// shader makes of the bindings of its materials once they are sorted.
pub fn bindings_are_contiguous(bindings: &[usize]) -> (r: bool)
    ensures
        r == (forall|i: int|
            0 <= i < bindings@.len() - 1 ==> #[trigger] bindings@[i] + 1 == bindings@[i + 1]
                || bindings@[i] == bindings@[i + 1] + 1),
{
    if bindings.len() == 0 {
        return true;
    }
    let mut i: usize = 0;
    while i < bindings.len() - 1
        invariant
            bindings@.len() >= 1,
            i <= bindings@.len() - 1,
            forall|j: int|
                0 <= j < i && j < bindings@.len() - 1 ==> #[trigger] bindings@[j] + 1 == bindings@[j
                    + 1] || bindings@[j] == bindings@[j + 1] + 1,
        decreases bindings@.len() - i,
    {
        let a = bindings[i];
        let b = bindings[i + 1];
        let step = if a >= b {
            a - b
        } else {
            b - a
        };
        if step != 1 {
            return false;
        }
        i = i + 1;
    }
    true
}

/// The binding of material type `material` in a shader whose materials are
/// listed in binding order: its first position in the list.
pub fn binding_of(materials: &[TypeId], material: &TypeId) -> (r: Option<usize>)
    ensures
        r is None ==> !materials@.contains(*material),
        r matches Some(i) ==> i < materials@.len() && materials@[i as int] == *material && forall|j: int|
            0 <= j < i ==> materials@[j] != *material,
{
    let mut i: usize = 0;
    while i < materials.len()
        invariant
            i <= materials@.len(),
            forall|j: int| 0 <= j < i ==> materials@[j] != *material,
        decreases materials@.len() - i,
    {
        if materials[i].same_key(material) {
            return Some(i);
        }
        i = i + 1;
    }
    None
}

} // verus!
