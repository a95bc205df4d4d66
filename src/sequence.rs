use vstd::prelude::*;

verus! {

use crate::step::{hail, hail_spec};

/// The value reached from `start` after `k` forward steps.
pub open spec fn hail_iter(start: i16, k: nat) -> i16
    decreases k,
{
    if k == 0 {
        start
    } else {
        hail_spec(hail_iter(start, (k - 1) as nat))
    }
}

/// Returns the `count` values that follow `start` in the hailstone sequence:
/// `[hail(start), hail(hail(start)), ...]`, without `start` itself.
pub fn generate_sequence(start: i16, count: usize) -> (r: Vec<i16>)
    ensures
        r@.len() == count,
        count == 0 ==> r@ == Seq::<i16>::empty(),
        count > 0 ==> r@[0] == hail_spec(start),
        forall|i: int| 1 <= i < count ==> #[trigger] r@[i] == hail_spec(r@[i - 1]),
        forall|i: int| 0 <= i < count ==> #[trigger] r@[i] == hail_iter(start, (i + 1) as nat),
{
    let mut sequence: Vec<i16> = Vec::with_capacity(count);
    let mut current: i16 = start;
    let mut k: usize = 0;
    while k < count
        invariant
            k <= count,
            sequence@.len() == k,
            current == hail_iter(start, k as nat),
            forall|i: int| 0 <= i < k ==> #[trigger] sequence@[i] == hail_iter(start, (i + 1) as nat),
        decreases count - k,
    {
        current = hail(current);
        sequence.push(current);
        k = k + 1;
    }
    assert forall|i: int| 1 <= i < count implies #[trigger] sequence@[i] == hail_spec(sequence@[i - 1]) by {
        assert(sequence@[i - 1] == hail_iter(start, i as nat));
    }
    sequence
}

} // verus!
