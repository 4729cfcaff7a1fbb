//! Counting of frames between two reports of the average frame time.

use vstd::prelude::*;

verus! {

/// Number of frames after which the average frame time is reported.
pub const FRAMES_PER_REPORT: u32 = 100;

/// Counts the frames since the last report.
#[derive(Debug, Clone, Copy, PartialEq, Eq, Structural)]
pub struct FrameCounter {
    frame_count: u32,
}

impl FrameCounter {
    /// Frames counted since the last report.
    pub closed spec fn view(&self) -> nat {
        self.frame_count as nat
    }

    /// A report is due before the count can reach the number of frames
    /// between two reports.
    pub closed spec fn wf(&self) -> bool {
        self.frame_count < FRAMES_PER_REPORT
    }

    /// A counter that has seen no frame.
    pub fn new() -> (counter: Self)
        ensures
            counter.wf(),
            counter@ == 0,
    {
        FrameCounter { frame_count: 0 }
    }

    /// Frames counted since the last report.
    pub fn frame_count(&self) -> (count: u32)
        ensures
            count == self@,
    {
        self.frame_count
    }

    /// Counts one frame. Says whether the average is due, which it is with
    /// every hundredth frame; the count then starts again at zero.
    pub fn record(&mut self) -> (report: bool)
        requires
            old(self).wf(),
        ensures
            final(self).wf(),
            report == (old(self)@ + 1 == FRAMES_PER_REPORT),
            final(self)@ == if report {
                0
            } else {
                old(self)@ + 1
            },
    {
        self.frame_count += 1;
        if self.frame_count == FRAMES_PER_REPORT {
            self.frame_count = 0;
            true
        } else {
            false
        }
    }
}

} // verus!
