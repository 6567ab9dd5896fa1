//! Timing regions. The starts of the timing points part the time line: a
//! timing point is in force from its start until the next start after it, or
//! until the chart ends. Before every start, the first timing point of the
//! chart is in force. Times are whole milliseconds.

use vstd::prelude::*;

verus! {

/// Whether the timing point at `i` is the one in force at `time`. Among the
/// timing points that have started by then it is the one that started last,
/// and of several with that start the last in the chart. Where none has
/// started, it is the first in the chart.
pub open spec fn in_force(starts: Seq<i64>, time: i64, i: int) -> bool {
    &&& 0 <= i < starts.len()
    &&& if starts[i] <= time {
        &&& forall|j: int|
            0 <= j < starts.len() && #[trigger] starts[j] <= time ==> starts[j] <= starts[i]
        &&& forall|j: int| i < j < starts.len() ==> #[trigger] starts[j] != starts[i]
    } else {
        &&& i == 0
        &&& forall|j: int| 0 <= j < starts.len() ==> time < #[trigger] starts[j]
    }
}

/// The starts never go back from one timing point to the next.
pub open spec fn in_order(starts: Seq<i64>) -> bool {
    forall|i: int, j: int| 0 <= i <= j < starts.len() ==> starts[i] <= starts[j]
}

/// The timing point in force at `time`, by its place in the chart; none where
/// the chart has no timing point. The timing points need not be in order.
pub fn timing_region(starts: &Vec<i64>, time: i64) -> (r: Option<usize>)
    ensures
        match r {
            Some(i) => in_force(starts@, time, i as int),
            None => starts@.len() == 0,
        },
{
    if starts.len() == 0 {
        return None;
    }
    let mut best: usize = 0;
    let mut found = false;
    let mut i: usize = 0;
    while i < starts.len()
        invariant
            i <= starts.len(),
            best < starts.len(),
            found ==> best < i && starts@[best as int] <= time,
            found ==> forall|j: int|
                0 <= j < i && #[trigger] starts@[j] <= time ==> starts@[j] <= starts@[best as int],
            found ==> forall|j: int| best < j < i ==> #[trigger] starts@[j] != starts@[best as int],
            !found ==> best == 0,
            !found ==> forall|j: int| 0 <= j < i ==> time < #[trigger] starts@[j],
        decreases starts.len() - i,
    {
        if starts[i] <= time && (!found || starts[i] >= starts[best]) {
            best = i;
            found = true;
        }
        i += 1;
    }
    Some(best)
}

/// At most one timing point is in force at a time.
pub proof fn lemma_in_force_once(starts: Seq<i64>, time: i64, i: int, k: int)
    requires
        in_force(starts, time, i),
        in_force(starts, time, k),
    ensures
        i == k,
{
    if starts[i] <= time && starts[k] <= time {
        assert(starts[i] <= starts[k] && starts[k] <= starts[i]);
        if i < k {
            assert(starts[k] != starts[i]);
        } else if k < i {
            assert(starts[i] != starts[k]);
        }
    }
}

/// Where the starts are in order, the timing point in force at a time is the
/// one whose region holds that time: it has started, as have all before it,
/// and the next one has not. A time before every start falls to the first
/// timing point.
pub proof fn lemma_regions_are_contiguous(starts: Seq<i64>, time: i64, i: int)
    requires
        in_order(starts),
        in_force(starts, time, i),
    ensures
        starts[i] <= time || (i == 0 && forall|j: int|
            0 <= j < starts.len() ==> time < #[trigger] starts[j]),
        i + 1 < starts.len() ==> time < starts[i + 1],
        starts[i] <= time ==> forall|j: int| 0 <= j < i ==> #[trigger] starts[j] <= time,
{
    if starts[i] <= time {
        if i + 1 < starts.len() {
            assert(starts[i] <= starts[i + 1]);
            assert(starts[i + 1] != starts[i]);
            if starts[i + 1] <= time {
                assert(starts[i + 1] <= starts[i]);
            }
        }
        assert forall|j: int| 0 <= j < i implies #[trigger] starts[j] <= time by {
            assert(starts[j] <= starts[i]);
        }
    } else {
        if i + 1 < starts.len() {
            assert(time < starts[i + 1]);
        }
    }
}

} // verus!
