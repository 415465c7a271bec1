use vstd::prelude::*;
use std::time::{Duration, Instant};

verus! {

#[verifier::external_type_specification]
#[verifier::external_body]
pub struct ExInstant(Instant);

/// Relies on `Instant::now`: a reading of the monotonic clock; nothing is
/// known of its value.
pub assume_specification[ Instant::now ]() -> Instant;

/// Relies on `Instant::elapsed`: the time since the reading, of which
/// nothing is known here.
pub assume_specification[ Instant::elapsed ](i: &Instant) -> Duration;

/// Relies on `Duration::as_millis`: whole milliseconds of the duration, of
/// which nothing is known here.
pub assume_specification[ Duration::as_millis ](d: &Duration) -> u128;

/// Per-frame timing: how long the last frame took and the time between the
/// ends of the last two frames, both in milliseconds.
pub struct FrameStatsRecorder {
    /// When the current frame started.
    pub ellapsed_time: Instant,
    /// When the recorder was created; frame ends are measured from here.
    pub origin: Instant,
    /// How long the last frame took.
    pub ellapsed: u128,
    /// The time between the ends of the last two frames.
    pub delta_time: u128,
    /// When the last frame ended.
    pub last_frame: u128,
}

impl FrameStatsRecorder {
    pub fn new() -> (r: FrameStatsRecorder)
        ensures
            r.ellapsed == 0,
            r.delta_time == 0,
            r.last_frame == 0,
    {
        FrameStatsRecorder {
            ellapsed_time: Instant::now(),
            origin: Instant::now(),
            ellapsed: 0,
            delta_time: 0,
            last_frame: 0,
        }
    }

    /// Records a frame that took `frame_ms` and ended at `now_ms`. The time
    /// since the previous frame end wraps around as unsigned arithmetic does,
    /// so a clock that went backwards gives a large delta rather than a panic.
    pub fn record_frame(&mut self, frame_ms: u128, now_ms: u128)
        ensures
            final(self).ellapsed == frame_ms,
            final(self).delta_time == now_ms.wrapping_sub(old(self).last_frame),
            final(self).last_frame == now_ms,
    {
        self.ellapsed = frame_ms;
        self.delta_time = now_ms.wrapping_sub(self.last_frame);
        self.last_frame = now_ms;
    }

    /// Ends the current frame: reads the clock, records the frame, and starts
    /// the next one.
    pub fn frame_complete(&mut self)
        ensures
            final(self).delta_time == final(self).last_frame.wrapping_sub(old(self).last_frame),
    {
        let frame_ms = self.ellapsed_time.elapsed().as_millis();
        let now_ms = self.origin.elapsed().as_millis();
        self.record_frame(frame_ms, now_ms);
        self.ellapsed_time = Instant::now();
    }

    /// Frames per second from the last delta: `1000 / delta_time`, or zero
    /// when no time passed.
    pub fn fps(&self) -> (r: u128)
        ensures
            self.delta_time > 0 ==> r == 1000u128 / self.delta_time,
            self.delta_time == 0 ==> r == 0,
    {
        if self.delta_time > 0 {
            1000 / self.delta_time
        } else {
            0
        }
    }
}

} // verus!
