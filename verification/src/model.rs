use vstd::prelude::*;

verus! {

/// The vertex indices of a primitive that has no index list: every position once, in order.
pub fn sequential_indices(position_count: u32) -> (v: Vec<u32>)
    ensures
        v@.len() == position_count,
        forall|i: int| 0 <= i < position_count ==> #[trigger] v@[i] == i,
{
    let mut v: Vec<u32> = Vec::new();
    let mut i: u32 = 0;
    while i < position_count
        invariant
            i <= position_count,
            v@.len() == i,
            forall|k: int| 0 <= k < i ==> #[trigger] v@[k] == k,
        decreases position_count - i,
    {
        v.push(i);
        i = i + 1;
    }
    v
}

/// The indices that name an existing position.
pub open spec fn drawable(indices: Seq<u32>, position_count: usize) -> Seq<u32> {
    indices.filter(|i: u32| (i as int) < position_count)
}

/// The vertices a triangle list draws: its indices in order, leaving out those
/// that name no position.
pub fn drawable_indices(indices: &Vec<u32>, position_count: usize) -> (v: Vec<u32>)
    ensures
        v@ == drawable(indices@, position_count),
{
    let mut v: Vec<u32> = Vec::new();
    let mut k: usize = 0;
    while k < indices.len()
        invariant
            k <= indices@.len(),
            v@ == drawable(indices@.take(k as int), position_count),
        decreases indices@.len() - k,
    {
        let index = indices[k];
        proof {
            reveal_with_fuel(Seq::filter, 1);
            assert(indices@.take(k + 1).drop_last() =~= indices@.take(k as int));
        }
        if (index as usize) < position_count {
            v.push(index);
        }
        k = k + 1;
    }
    proof {
        assert(indices@.take(indices@.len() as int) =~= indices@);
    }
    v
}

} // verus!
