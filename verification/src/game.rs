//! Frame pacing and startup decisions of the game loop.

use vstd::prelude::*;
use crate::config::GameConfig;
use crate::renderer::{projection_scale, scale_for, ProjectionScale};

verus! {

/// Milliseconds in a second.
pub const MILLIS_PER_SECOND: u64 = 1000;

/// Nanoseconds in a millisecond.
pub const NANOS_PER_MILLI: u64 = 1_000_000;

/// What the loop does when the host's events are drained.
#[derive(Clone, Copy, Debug, PartialEq, Eq, Structural)]
pub enum Pace {
    /// The frame is not due yet: sleep for this many nanoseconds.
    Wait { nanos: u64 },
    /// The frame is due: update the game and ask for a redraw.
    Update,
}

/// Time between two frames, in whole milliseconds.
pub fn frame_interval_millis(target_fps: u32) -> (millis: u64)
    requires
        target_fps > 0,
    ensures
        millis == MILLIS_PER_SECOND / (target_fps as u64),
{
    MILLIS_PER_SECOND / (target_fps as u64)
}

/// Time between two frames, in nanoseconds.
pub fn frame_interval_nanos(target_fps: u32) -> (nanos: u64)
    requires
        target_fps > 0,
    ensures
        nanos == (MILLIS_PER_SECOND / (target_fps as u64)) * NANOS_PER_MILLI,
{
    frame_interval_millis(target_fps) * NANOS_PER_MILLI
}

/// What is due when `elapsed` nanoseconds have passed since the last frame
/// and frames are `interval` nanoseconds apart.
pub open spec fn pace_of(elapsed: u64, interval: u64) -> Pace {
    if elapsed < interval {
        Pace::Wait { nanos: (interval - elapsed) as u64 }
    } else {
        Pace::Update
    }
}

/// Decides whether the next frame is due.
pub fn pace_frame(elapsed: u64, interval: u64) -> (pace: Pace)
    ensures
        pace == pace_of(elapsed, interval),
{
    if elapsed < interval {
        Pace::Wait { nanos: interval - elapsed }
    } else {
        Pace::Update
    }
}

/// Keeps the time of the last frame and says when the next one is due.
pub struct FrameTimer {
    interval: u64,
    last_frame: u64,
}

impl FrameTimer {
    /// Nanoseconds between two frames.
    pub closed spec fn interval(&self) -> u64 {
        self.interval
    }

    /// The time of the last frame, in nanoseconds of the host's clock.
    pub closed spec fn last_frame(&self) -> u64 {
        self.last_frame
    }

    /// Nanoseconds from the last frame to `now`; none if the clock ran
    /// backwards.
    pub open spec fn elapsed(&self, now: u64) -> u64 {
        if now >= self.last_frame() {
            (now - self.last_frame()) as u64
        } else {
            0
        }
    }

    /// A timer for `target_fps` frames per second whose last frame was at
    /// `now`.
    pub fn new(target_fps: u32, now: u64) -> (timer: FrameTimer)
        requires
            target_fps > 0,
        ensures
            timer.interval() == (MILLIS_PER_SECOND / (target_fps as u64)) * NANOS_PER_MILLI,
            timer.last_frame() == now,
    {
        FrameTimer { interval: frame_interval_nanos(target_fps), last_frame: now }
    }

    /// Decides at the time `now` whether the next frame is due. If it is,
    /// `now` becomes the time of the last frame.
    pub fn tick(&mut self, now: u64) -> (pace: Pace)
        ensures
            pace == pace_of(old(self).elapsed(now), old(self).interval()),
            final(self).interval() == old(self).interval(),
            final(self).last_frame() == if pace == Pace::Update {
                now
            } else {
                old(self).last_frame()
            },
    {
        let elapsed: u64 = if now >= self.last_frame {
            now - self.last_frame
        } else {
            0
        };
        let pace = pace_frame(elapsed, self.interval);
        if elapsed >= self.interval {
            self.last_frame = now;
        }
        pace
    }
}

/// The projection scale that the loop starts with: that of the configured
/// window.
pub fn startup_scale(config: &GameConfig) -> (scale: ProjectionScale)
    ensures
        scale == scale_for(*config, config.window_width, config.window_height),
{
    projection_scale(config, config.window_width, config.window_height)
}

} // verus!
