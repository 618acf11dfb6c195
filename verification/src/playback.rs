//! The render-loop policies: frame pacing, the frame-rate counter, and
//! the audio/video synchronization monitor.
//!
//! These run on the main thread as part of the periodic frame-processing
//! cycle.  Video is the sync master: when the audio clock has drifted too
//! far from the video clock, the monitor re-anchors audio to video by
//! requesting an audio seek; audio is never used to correct video.

use vstd::prelude::*;

use crate::timebase::RationalValue;

verus! {

/// Every how many accepted frames the drift check runs.
pub const SYNC_CHECK_PERIOD_FRAMES: u32 = 150;

/// Largest tolerated drift between the video and audio clocks, in ms.
pub const SYNC_DRIFT_THRESHOLD_MS: i64 = 200;

/// Absolute difference of the two clocks.
pub open spec fn spec_drift_ms(video_ms: int, audio_ms: int) -> int {
    if video_ms >= audio_ms {
        video_ms - audio_ms
    } else {
        audio_ms - video_ms
    }
}

/// The drift check, run after a frame is accepted for display: on every
/// `SYNC_CHECK_PERIOD_FRAMES`-th frame while playing, if the clocks have
/// drifted beyond `SYNC_DRIFT_THRESHOLD_MS`, audio must seek to the
/// video clock; the result carries that seek target.
pub fn sync_check(frame_count: u32, paused: bool, video_ms: i64, audio_ms: i64) -> (r: Option<
    i64,
>)
    ensures
        r == (if !paused && frame_count % SYNC_CHECK_PERIOD_FRAMES == 0 && spec_drift_ms(
            video_ms as int,
            audio_ms as int,
        ) > SYNC_DRIFT_THRESHOLD_MS as int {
            Some(video_ms)
        } else {
            None::<i64>
        }),
{
    if paused {
        return None;
    }
    if frame_count % SYNC_CHECK_PERIOD_FRAMES != 0 {
        return None;
    }
    let diff: i128 = video_ms as i128 - audio_ms as i128;
    let drift: i128 = if diff >= 0 {
        diff
    } else {
        -diff
    };
    if drift > SYNC_DRIFT_THRESHOLD_MS as i128 {
        Some(video_ms)
    } else {
        None
    }
}

/// Length of one frame interval in microseconds, `floor(1/fps)` seconds;
/// a degenerate frame rate falls back to the 30 fps default.
pub open spec fn spec_frame_interval_us(fr: RationalValue) -> int {
    if fr.numerator > 0 && fr.denominator > 0 {
        1000000 * (fr.denominator as int) / (fr.numerator as int)
    } else {
        33333
    }
}

/// Executable frame interval; see `spec_frame_interval_us`.
pub fn frame_interval_us(fr: RationalValue) -> (r: u64)
    ensures
        r as int == spec_frame_interval_us(fr),
{
    if fr.numerator > 0 && fr.denominator > 0 {
        (1000000u64 * (fr.denominator as u64)) / (fr.numerator as u64)
    } else {
        33333
    }
}

/// Paces the render loop to the stream's frame interval: a frame is
/// processed only when at least one interval has elapsed since the last
/// processed frame, and never while paused.
pub struct FramePacer {
    /// One frame interval, in microseconds.
    pub frame_interval_us: u64,
    /// When the last processed frame was taken, in microseconds of the
    /// caller's monotonic clock.
    pub last_frame_us: u64,
}

impl FramePacer {
    /// A pacer for the given frame rate, anchored at the current time.
    pub fn new(frame_rate: RationalValue, now_us: u64) -> (p: Self)
        ensures
            p.frame_interval_us as int == spec_frame_interval_us(frame_rate),
            p.last_frame_us == now_us,
    {
        FramePacer { frame_interval_us: frame_interval_us(frame_rate), last_frame_us: now_us }
    }

    /// Whether the next frame is due.  The clock must be monotonic; a
    /// frame is due when an interval has elapsed and playback is not
    /// paused, and taking it re-anchors the pacer.
    pub fn should_process_next_frame(&mut self, now_us: u64, paused: bool) -> (due: bool)
        requires
            now_us >= old(self).last_frame_us,
        ensures
            due == (!paused && now_us - old(self).last_frame_us >= old(self).frame_interval_us),
            final(self).frame_interval_us == old(self).frame_interval_us,
            final(self).last_frame_us == (if due {
                now_us
            } else {
                old(self).last_frame_us
            }),
    {
        if paused {
            return false;
        }
        let elapsed: u64 = now_us - self.last_frame_us;
        if elapsed >= self.frame_interval_us {
            self.last_frame_us = now_us;
            true
        } else {
            false
        }
    }
}

/// Counts frames shown since the last whole second, for the on-screen
/// rate display and for the sync monitor's check period.
pub struct FpsCounter {
    /// Frames counted since `last_update_us`.
    pub frame_count: u32,
    /// Start of the current measuring window, in microseconds.
    pub last_update_us: u64,
}

impl FpsCounter {
    /// A counter with an empty window starting now.
    pub fn new(now_us: u64) -> (c: Self)
        ensures
            c.frame_count == 0,
            c.last_update_us == now_us,
    {
        FpsCounter { frame_count: 0, last_update_us: now_us }
    }

    /// Counts one shown frame.  Once the window reaches a second, the
    /// result reports the frames and microseconds it covered (their ratio
    /// is the displayed rate) and a fresh window begins.
    pub fn update(&mut self, now_us: u64) -> (window: Option<(u32, u64)>)
        requires
            now_us >= old(self).last_update_us,
            old(self).frame_count < u32::MAX,
        ensures
            now_us - old(self).last_update_us >= 1000000 ==> {
                &&& window matches Some(w) && w.0 == old(self).frame_count + 1 && w.1 == now_us
                    - old(self).last_update_us
                &&& final(self).frame_count == 0
                &&& final(self).last_update_us == now_us
            },
            now_us - old(self).last_update_us < 1000000 ==> {
                &&& window is None
                &&& final(self).frame_count == old(self).frame_count + 1
                &&& final(self).last_update_us == old(self).last_update_us
            },
    {
        self.frame_count = self.frame_count + 1;
        let elapsed: u64 = now_us - self.last_update_us;
        if elapsed >= 1000000 {
            let frames: u32 = self.frame_count;
            self.frame_count = 0;
            self.last_update_us = now_us;
            Some((frames, elapsed))
        } else {
            None
        }
    }
}

} // verus!
