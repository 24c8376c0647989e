//! Counting the frames drawn since the last frames-per-second report.
//!
//! Each redraw counts one frame. Once the measuring interval has run out
//! (the clock is read by the caller), the frames of the interval are handed
//! back for the report and the count starts again from zero.
use vstd::prelude::*;

verus! {

/// The count after one more frame, given whether the interval ran out with it.
pub open spec fn next_count(count: int, interval_elapsed: bool) -> int {
    if interval_elapsed {
        0
    } else {
        count + 1
    }
}

/// The number of frames reported with one more frame, if any.
pub open spec fn reported_frames(count: int, interval_elapsed: bool) -> Option<int> {
    if interval_elapsed {
        Some(count + 1)
    } else {
        None
    }
}

/// Frames counted since the last report.
pub struct FrameCounter {
    frames: i32,
}

impl FrameCounter {
    #[verifier::type_invariant]
    spec fn inv(self) -> bool {
        self.frames >= 0
    }

    /// The frames counted since the last report.
    pub closed spec fn count(self) -> int {
        self.frames as int
    }

    /// A counter with no frame counted.
    pub fn new() -> (counter: FrameCounter)
        ensures
            counter.count() == 0,
    {
        FrameCounter { frames: 0 }
    }

    /// The frames counted since the last report.
    pub fn frames(&self) -> (frames: i32)
        ensures
            frames == self.count(),
            frames >= 0,
    {
        proof {
            use_type_invariant(self);
        }
        self.frames
    }

    /// Counts one drawn frame. When `interval_elapsed`, returns the frames of
    /// the interval, this one included, and starts counting anew; otherwise
    /// returns `None`. The count is an `i32`, as the demo keeps it, so one
    /// more frame must fit.
    pub fn record_frame(&mut self, interval_elapsed: bool) -> (report: Option<i32>)
        requires
            old(self).count() < i32::MAX,
        ensures
            final(self).count() == next_count(old(self).count(), interval_elapsed),
            report matches Some(n) ==> Some(n as int) == reported_frames(old(self).count(), interval_elapsed),
            report is None <==> reported_frames(old(self).count(), interval_elapsed) is None,
            interval_elapsed ==> report == Some((old(self).count() + 1) as i32) && final(self).count() == 0,
            !interval_elapsed ==> report is None && final(self).count() == old(self).count() + 1,
    {
        proof {
            use_type_invariant(&*self);
        }
        let counted = self.frames + 1;
        if interval_elapsed {
            self.frames = 0;
            Some(counted)
        } else {
            self.frames = counted;
            None
        }
    }
}

/// The count and the total of the frames reported after a run of frames,
/// `elapsed[i]` telling whether the interval ran out with frame `i`.
pub open spec fn run_frames(count: int, elapsed: Seq<bool>) -> (int, int)
    decreases elapsed.len(),
{
    if elapsed.len() == 0 {
        (count, 0)
    } else {
        let before = run_frames(count, elapsed.drop_last());
        let last = elapsed.last();
        let total = match reported_frames(before.0, last) {
            Some(n) => before.1 + n,
            None => before.1,
        };
        (next_count(before.0, last), total)
    }
}

/// No frame is lost or counted twice: after any run of frames, the frames
/// still counted plus all those reported equal the frames counted at the
/// start plus the frames of the run.
pub proof fn lemma_frames_conserved(count: int, elapsed: Seq<bool>)
    ensures
        run_frames(count, elapsed).0 + run_frames(count, elapsed).1 == count + elapsed.len(),
    decreases elapsed.len(),
{
    if elapsed.len() > 0 {
        lemma_frames_conserved(count, elapsed.drop_last());
    }
}

/// Once the interval has run out, the report holds every frame of the
/// interval, the current one included, and counting restarts from zero;
/// before that, nothing is reported and the frame is added to the count.
pub proof fn lemma_interval_report(count: int)
    requires
        count >= 0,
    ensures
        next_count(count, true) == 0,
        reported_frames(count, true) == Some(count + 1),
        next_count(count, false) == count + 1,
        reported_frames(count, false) is None,
{
}

/// Every report counts at least one frame, and the count never goes
/// negative.
pub proof fn lemma_reports_positive(count: int, interval_elapsed: bool)
    requires
        count >= 0,
    ensures
        next_count(count, interval_elapsed) >= 0,
        reported_frames(count, interval_elapsed) matches Some(n) ==> n >= 1,
{
}

} // verus!
