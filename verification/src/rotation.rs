//! The globe's rotation model.
//!
//! The globe turns about its vertical (Y) axis by half the elapsed seconds,
//! in radians, compounding frame after frame. Elapsed time is carried in
//! microseconds; the orientation angle is then exact in nanoradians, at 500
//! nanoradians per elapsed microsecond.

use vstd::prelude::*;

verus! {

/// Orientation angle about the vertical axis, in nanoradians, after a given
/// elapsed time in microseconds: the angle is half the elapsed seconds in
/// radians, which is exactly 500 nanoradians per microsecond.
pub open spec fn angle_nanorad_of(elapsed_us: int) -> int {
    500 * elapsed_us
}

/// Total of a sequence of frame times.
pub open spec fn seq_sum(deltas: Seq<int>) -> int
    decreases deltas.len(),
{
    if deltas.len() == 0 {
        0
    } else {
        seq_sum(deltas.drop_last()) + deltas.last()
    }
}

/// Elapsed time after applying each frame advance of a sequence in turn,
/// starting from a given elapsed time.
pub open spec fn elapsed_after(elapsed_us: int, deltas: Seq<int>) -> int
    decreases deltas.len(),
{
    if deltas.len() == 0 {
        elapsed_us
    } else {
        elapsed_after(elapsed_us, deltas.drop_last()) + deltas.last()
    }
}

/// Running total of elapsed time driving the globe's orientation.
#[derive(Clone, Copy, PartialEq, Eq, Structural, Debug)]
pub struct GlobeSpin {
    pub elapsed_us: u64,
}

impl GlobeSpin {
    /// A globe that has not yet turned.
    pub fn new() -> (s: GlobeSpin)
        ensures
            s.elapsed_us == 0,
    {
        GlobeSpin { elapsed_us: 0 }
    }

    /// The orientation angle about the vertical axis, in nanoradians.
    pub open spec fn angle_nanorad(self) -> int {
        angle_nanorad_of(self.elapsed_us as int)
    }

    /// Advance the spin by one frame's elapsed time.
    pub fn advance(&mut self, delta_us: u64)
        requires
            old(self).elapsed_us + delta_us <= u64::MAX,
        ensures
            final(self).elapsed_us == old(self).elapsed_us + delta_us,
    {
        self.elapsed_us = self.elapsed_us + delta_us;
    }

    /// Advance the spin by a whole sequence of frame times at once.
    pub fn advance_all(&mut self, deltas: &Vec<u64>)
        requires
            old(self).elapsed_us + seq_sum(deltas@.map_values(|d: u64| d as int)) <= u64::MAX,
        ensures
            final(self).elapsed_us == old(self).elapsed_us + seq_sum(
                deltas@.map_values(|d: u64| d as int),
            ),
    {
        let ghost all: Seq<int> = deltas@.map_values(|d: u64| d as int);
        let mut idx: usize = 0;
        while idx < deltas.len()
            invariant
                idx <= deltas@.len(),
                all == deltas@.map_values(|d: u64| d as int),
                old(self).elapsed_us + seq_sum(all) <= u64::MAX,
                self.elapsed_us == old(self).elapsed_us + seq_sum(all.take(idx as int)),
            decreases deltas@.len() - idx,
        {
            proof {
                lemma_seq_sum_take_step(all, idx as int);
                lemma_seq_sum_prefix_bound(all, idx as int + 1);
            }
            let delta: u64 = deltas[idx];
            self.elapsed_us = self.elapsed_us + delta;
            idx = idx + 1;
        }
        proof {
            assert(all.take(idx as int) =~= all);
        }
    }

    /// The orientation angle, exact, in nanoradians.
    pub fn angle_nanoradians(&self) -> (a: u128)
        ensures
            a == self.angle_nanorad(),
    {
        (self.elapsed_us as u128) * 500
    }
}

/// Taking one more element of a sequence adds exactly that element to its
/// total.
proof fn lemma_seq_sum_take_step(deltas: Seq<int>, i: int)
    requires
        0 <= i < deltas.len(),
    ensures
        seq_sum(deltas.take(i + 1)) == seq_sum(deltas.take(i)) + deltas[i],
{
    assert(deltas.take(i + 1).drop_last() =~= deltas.take(i));
    assert(deltas.take(i + 1).last() == deltas[i]);
}

/// A prefix of a sequence of non-negative frame times never exceeds the
/// whole sequence's total.
proof fn lemma_seq_sum_prefix_bound(deltas: Seq<int>, i: int)
    requires
        0 <= i <= deltas.len(),
        forall|j: int| 0 <= j < deltas.len() ==> deltas[j] >= 0,
    ensures
        seq_sum(deltas.take(i)) <= seq_sum(deltas),
    decreases deltas.len() - i,
{
    if i == deltas.len() {
        assert(deltas.take(i) =~= deltas);
    } else {
        lemma_seq_sum_take_step(deltas, i);
        lemma_seq_sum_prefix_bound(deltas, i + 1);
    }
}

/// Rotation is additive: the angle covered by two elapsed stretches of time
/// together is the sum of the angles covered by each.
pub proof fn lemma_rotation_additive(elapsed_a: int, elapsed_b: int)
    ensures
        angle_nanorad_of(elapsed_a + elapsed_b) == angle_nanorad_of(elapsed_a) + angle_nanorad_of(
            elapsed_b,
        ),
{
}

/// Rotation is monotonic: more elapsed time never turns the globe back.
pub proof fn lemma_rotation_monotonic(elapsed_a: int, elapsed_b: int)
    requires
        elapsed_a <= elapsed_b,
    ensures
        angle_nanorad_of(elapsed_a) <= angle_nanorad_of(elapsed_b),
{
}

/// Frame slicing is immaterial: advancing frame by frame through any
/// sequence of frame times ends at the same orientation as one advance by
/// their total.
pub proof fn lemma_rotation_slicing(elapsed_us: int, deltas: Seq<int>)
    ensures
        angle_nanorad_of(elapsed_after(elapsed_us, deltas)) == angle_nanorad_of(elapsed_us)
            + angle_nanorad_of(seq_sum(deltas)),
    decreases deltas.len(),
{
    if deltas.len() == 0 {
    } else {
        lemma_rotation_slicing(elapsed_us, deltas.drop_last());
    }
}

} // verus!
