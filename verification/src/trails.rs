//! The recent positions of each body, drawn as its trail.

use vstd::prelude::*;
use std::collections::VecDeque;

verus! {

/// The most positions a trail keeps.
pub const TRAIL_MAX_POINTS: usize = 512;

/// The last `max` elements of `s` (all of `s` when it is shorter).
pub open spec fn newest<T>(s: Seq<T>, max: nat) -> Seq<T> {
    if s.len() > max {
        s.subrange(s.len() - max, s.len() as int)
    } else {
        s
    }
}

/// Records a sampled position in a trail. A sample that duplicates the
/// newest point is skipped; otherwise it is appended and the oldest points
/// are dropped until at most `max_points` remain.
pub fn record_trail_sample<T>(
    trail: &mut VecDeque<T>,
    sample: T,
    duplicate_of_newest: bool,
    max_points: usize,
)
    ensures
        duplicate_of_newest ==> final(trail)@ == old(trail)@,
        !duplicate_of_newest ==> final(trail)@ == newest(old(trail)@.push(sample), max_points as nat),
{
    if duplicate_of_newest {
        return;
    }
    trail.push_back(sample);
    let ghost full = trail@;
    let ghost mut dropped: int = 0;
    while trail.len() > max_points
        invariant
            0 <= dropped <= full.len(),
            trail@ == full.subrange(dropped, full.len() as int),
            full.len() - dropped >= max_points || dropped == 0,
        decreases trail@.len(),
    {
        let _ = trail.pop_front();
        proof {
            dropped = dropped + 1;
        }
        assert(trail@ =~= full.subrange(dropped, full.len() as int));
    }
    proof {
        if full.len() > max_points {
            assert(dropped == full.len() - max_points);
        } else {
            assert(full.subrange(0, full.len() as int) =~= full);
        }
    }
}

/// Forgets every recorded position of every trail.
pub fn clear_trails<T>(trails: &mut Vec<VecDeque<T>>)
    ensures
        final(trails)@.len() == old(trails)@.len(),
        forall|i: int| 0 <= i < final(trails)@.len() ==> final(trails)@[i]@.len() == 0,
{
    let n = trails.len();
    let mut i: usize = 0;
    while i < n
        invariant
            n == trails@.len(),
            i <= n,
            forall|k: int| 0 <= k < i ==> trails@[k]@.len() == 0,
        decreases n - i,
    {
        let mut emptied: VecDeque<T> = VecDeque::new();
        std::mem::swap(&mut emptied, &mut trails[i]);
        i = i + 1;
    }
}

/// A trail never holds more than its cap, and a recorded sample is its
/// newest point (when the cap allows any point at all).
pub proof fn lemma_trail_capped<T>(old_trail: Seq<T>, sample: T, max: nat)
    ensures
        newest(old_trail.push(sample), max).len() <= max,
        max > 0 ==> newest(old_trail.push(sample), max).last() == sample,
        old_trail.len() < max ==> newest(old_trail.push(sample), max) == old_trail.push(sample),
{
}

} // verus!
