//! Laws of the timeline.

use crate::clock::{clamp_instant, expected_start, expected_timeline, next_start};
use vstd::prelude::*;

verus! {

/// Law of the timeline: where every segment carries an explicit instant,
/// each expected start is that instant and each duration is the segment's own.
pub proof fn lemma_explicit_timeline(timings: Seq<(Option<i64>, u64)>, first: i64)
    requires
        forall|k: int| 0 <= k < timings.len() ==> (#[trigger] timings[k]).0 is Some,
    ensures
        expected_timeline(timings, first).len() == timings.len(),
        forall|k: int|
            0 <= k < timings.len() ==> #[trigger] expected_timeline(timings, first)[k] == (
                timings[k].0->0,
                timings[k].1,
            ),
{
}

/// Law of the timeline: a segment without an instant of its own starts where
/// the segment before it ends, as long as that stays within the range of
/// instants; the first one starts at the anchor.
pub proof fn lemma_inferred_start(timings: Seq<(Option<i64>, u64)>, first: i64, k: int)
    requires
        0 <= k < timings.len(),
        timings[k].0 is None,
    ensures
        k == 0 ==> expected_start(timings, first, k) == first,
        k > 0 && expected_start(timings, first, k - 1) + timings[k - 1].1 <= i64::MAX
            ==> expected_start(timings, first, k) == expected_start(timings, first, k - 1)
            + timings[k - 1].1,
{
    lemma_next_start_lower_bound(timings, first, k);
    if k > 0 {
        lemma_next_start_lower_bound(timings, first, k - 1);
    }
}

/// The next start never lies before the earliest instant.
pub proof fn lemma_next_start_lower_bound(timings: Seq<(Option<i64>, u64)>, first: i64, k: int)
    ensures
        i64::MIN <= next_start(timings, first, k),
    decreases k,
{
    if k > 0 {
        lemma_next_start_lower_bound(timings, first, k - 1);
    }
}

/// `b` may stand for `a` as a next start: the two are equal, or both lie at
/// or past the largest instant.
pub open spec fn same_from_here(a: int, b: int) -> bool {
    a == b || (a >= i64::MAX && b >= i64::MAX)
}

/// `later` says of every segment what `earlier` says, except that it may
/// give a segment without an instant the start that `earlier` expects of it.
pub open spec fn fills_in(
    earlier: Seq<(Option<i64>, u64)>,
    later: Seq<(Option<i64>, u64)>,
    first: i64,
) -> bool {
    &&& later.len() == earlier.len()
    &&& forall|k: int|
        0 <= k < earlier.len() ==> {
            &&& (#[trigger] later[k]).1 == earlier[k].1
            &&& (later[k].0 == earlier[k].0 || (earlier[k].0 is None && later[k].0 == Some(
                expected_start(earlier, first, k),
            )))
        }
}

proof fn lemma_fills_in_next_start(
    earlier: Seq<(Option<i64>, u64)>,
    later: Seq<(Option<i64>, u64)>,
    first: i64,
    k: int,
)
    requires
        fills_in(earlier, later, first),
        0 <= k <= earlier.len(),
    ensures
        same_from_here(next_start(earlier, first, k), next_start(later, first, k)),
    decreases k,
{
    if k > 0 {
        lemma_fills_in_next_start(earlier, later, first, k - 1);
        lemma_next_start_lower_bound(earlier, first, k - 1);
        assert(later[k - 1].1 == earlier[k - 1].1);
    }
}

/// Law of the timeline: writing the expected start of a segment down as its
/// explicit instant changes nobody's place in time.
pub proof fn lemma_fills_in_keeps_timeline(
    earlier: Seq<(Option<i64>, u64)>,
    later: Seq<(Option<i64>, u64)>,
    first: i64,
)
    requires
        fills_in(earlier, later, first),
    ensures
        expected_timeline(later, first) == expected_timeline(earlier, first),
{
    assert forall|k: int| 0 <= k < earlier.len() implies expected_start(later, first, k)
        == expected_start(earlier, first, k) by {
        lemma_fills_in_next_start(earlier, later, first, k);
        assert(later[k].1 == earlier[k].1);
    }
    assert forall|k: int| 0 <= k < earlier.len() implies (#[trigger] later[k]).1
        == earlier[k].1 by {}
    assert(expected_timeline(later, first) =~= expected_timeline(earlier, first));
}

} // verus!
