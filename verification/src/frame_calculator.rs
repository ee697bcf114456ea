//! A frame-rate counter: how many ticks arrived in the last whole second of
//! wall-clock time.  The clock itself is outside the logic; the contract
//! states what holds of either outcome of a reading.

use vstd::prelude::*;

verus! {

/// Relies on std::time::Instant: an opaque reading of the monotonic clock,
/// carried through but never inspected.
#[verifier::external_type_specification]
#[verifier::external_body]
pub struct ExInstant(std::time::Instant);

/// Relies on std::time::Instant::now: a reading of the monotonic clock.
/// Nothing can be promised of the value, which depends on when it runs.
#[verifier::external_body]
fn instant_now() -> std::time::Instant {
    std::time::Instant::now()
}

/// Relies on std::time::Instant::elapsed: the span from the reading to the
/// clock's present.  Nothing can be promised of the value.
#[verifier::external_body]
fn instant_elapsed(start: &std::time::Instant) -> std::time::Duration {
    start.elapsed()
}

/// Relies on std::time::Duration::as_secs: the number of whole seconds the
/// span holds.
#[verifier::external_body]
fn duration_as_secs(duration: &std::time::Duration) -> u64 {
    duration.as_secs()
}

/// Counts ticks against the clock: the published rate is the number of
/// ticks that arrived in the last completed second.
pub struct FrameCalculator {
    total_fps: u64,
    fps_count_start: std::time::Instant,
    current_fps_result: u64,
}

impl FrameCalculator {
    /// The running count of ticks in the second now being measured.
    pub closed spec fn spec_counting(self) -> u64 {
        self.total_fps
    }

    /// The rate measured over the last completed second.
    pub closed spec fn spec_fps(self) -> u64 {
        self.current_fps_result
    }

    /// A fresh counter: nothing counted, nothing published, the measured
    /// second starting now.
    pub fn new() -> (r: FrameCalculator)
        ensures
            r.spec_counting() == 0,
            r.spec_fps() == 0,
    {
        FrameCalculator {
            total_fps: 0,
            fps_count_start: instant_now(),
            current_fps_result: 0,
        }
    }

    /// One tick: count it, and once the clock shows a whole second gone,
    /// publish the count and start a new second.  Which of the two happens
    /// depends on the clock alone, so the contract promises the
    /// disjunction; the count wraps at the top of its range rather than
    /// fail.
    pub fn tick(&mut self)
        ensures
            ({
                let counted = if old(self).spec_counting() == u64::MAX {
                    0u64
                } else {
                    (old(self).spec_counting() + 1) as u64
                };
                ||| (final(self).spec_counting() == counted
                    && final(self).spec_fps() == old(self).spec_fps())
                ||| (final(self).spec_counting() == 0 && final(self).spec_fps() == counted)
            }),
    {
        if self.total_fps == u64::MAX {
            self.total_fps = 0;
        } else {
            self.total_fps = self.total_fps + 1;
        }
        let elapsed = instant_elapsed(&self.fps_count_start);
        if duration_as_secs(&elapsed) >= 1 {
            self.current_fps_result = self.total_fps;
            self.total_fps = 0;
            self.fps_count_start = instant_now();
        }
    }

    /// The rate measured over the last completed second.
    pub fn fps(&self) -> (r: u64)
        ensures
            r == self.spec_fps(),
    {
        self.current_fps_result
    }
}

} // verus!
