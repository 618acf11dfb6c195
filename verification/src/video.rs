//! The video pipeline's decision core: the accurate-seek state machine,
//! the presentation clock, and duration estimation.
//!
//! A container seek lands at or before the requested position (it is
//! keyframe-bounded), so an accurate seek must decode forward from there
//! and discard frames until the target is reached.  That recovery is the
//! `SeekState` machine: `Idle` emits every decoded frame, while
//! `AwaitingSettle` discards frames below the target, skips pre-roll
//! frames stamped exactly zero, and gives up after a bounded number of
//! decoded frames so a stream that never reaches the target cannot stall
//! playback forever.
//!
//! The demuxer, decoder and scaler live with the caller; `Video` here is
//! the pipeline's state, fed one decoded-frame timestamp at a time and
//! answering whether that frame is shown.

use vstd::prelude::*;

use crate::timebase::{ms_to_ts, ts_to_ms, RationalValue};
use crate::timebase::{ms_to_timestamp, timestamp_to_ms};

verus! {

/// How many decoded frames a seek may discard before the safety valve
/// forces the next timestamped frame out regardless of its position.
pub const SETTLE_FRAME_LIMIT: u32 = 300;

/// Seek-recovery state of the video pipeline.
#[derive(Clone, Copy, Debug, PartialEq, Eq, Structural)]
pub enum SeekState {
    /// No seek in progress; every decoded frame is emitted.
    Idle,
    /// A container seek was issued; frames are being discarded until one
    /// reaches `target_ms`, with `frames_since_seek` decoded so far.
    AwaitingSettle { target_ms: i64, frames_since_seek: u32 },
}

/// Outcome of feeding one decoded frame to the seek-recovery machine.
pub ghost struct SettleOutcome {
    /// State after the frame.
    pub state: SeekState,
    /// Whether the frame is emitted for display.
    pub emit: bool,
    /// The presentation clock after the frame.
    pub timestamp_ms: int,
}

/// One step of the seek-recovery machine, on a frame whose presentation
/// timestamp (already in milliseconds) is `pts_ms`, or `None` for a frame
/// the decoder did not stamp.
///
/// While idle, every frame is emitted and a stamped frame sets the clock.
/// While awaiting settlement: an unstamped frame is discarded without
/// counting; a stamped frame counts, and is emitted once the count passes
/// `SETTLE_FRAME_LIMIT` (the safety valve) or its timestamp reaches the
/// target; a frame stamped exactly zero is otherwise skipped as a
/// pre-roll artifact without touching the clock; and any other early
/// frame moves the clock but is discarded.
pub open spec fn spec_settle_step(s: SeekState, cur_ms: int, pts_ms: Option<int>) -> SettleOutcome {
    match pts_ms {
        None => match s {
            SeekState::Idle => SettleOutcome { state: s, emit: true, timestamp_ms: cur_ms },
            SeekState::AwaitingSettle { .. } => SettleOutcome {
                state: s,
                emit: false,
                timestamp_ms: cur_ms,
            },
        },
        Some(p) => match s {
            SeekState::Idle => SettleOutcome { state: s, emit: true, timestamp_ms: p },
            SeekState::AwaitingSettle { target_ms, frames_since_seek } => {
                let counted = frames_since_seek + 1;
                if counted > SETTLE_FRAME_LIMIT {
                    SettleOutcome { state: SeekState::Idle, emit: true, timestamp_ms: p }
                } else if p == 0 {
                    SettleOutcome {
                        state: SeekState::AwaitingSettle {
                            target_ms,
                            frames_since_seek: counted as u32,
                        },
                        emit: false,
                        timestamp_ms: cur_ms,
                    }
                } else if p >= target_ms {
                    SettleOutcome { state: SeekState::Idle, emit: true, timestamp_ms: p }
                } else {
                    SettleOutcome {
                        state: SeekState::AwaitingSettle {
                            target_ms,
                            frames_since_seek: counted as u32,
                        },
                        emit: false,
                        timestamp_ms: p,
                    }
                }
            },
        },
    }
}

/// Abstract state of the video pipeline.
pub ghost struct VideoView {
    /// Stream duration in milliseconds.
    pub duration_ms: int,
    /// Presentation clock: timestamp of the last accepted frame, or the
    /// target of a seek still settling.
    pub current_timestamp_ms: int,
    /// Frames per second, as the stream's average frame rate rational.
    pub frame_rate: RationalValue,
    /// The stream's native time unit.
    pub time_base: RationalValue,
    /// Seek-recovery state.
    pub settle: SeekState,
}

/// State of the video pipeline: the presentation clock, the stream
/// parameters the decisions depend on, and the seek-recovery machine.
pub struct Video {
    duration_ms: i64,
    current_timestamp_ms: i64,
    frame_rate: RationalValue,
    time_base: RationalValue,
    settle: SeekState,
}

impl View for Video {
    type V = VideoView;

    closed spec fn view(&self) -> VideoView {
        VideoView {
            duration_ms: self.duration_ms as int,
            current_timestamp_ms: self.current_timestamp_ms as int,
            frame_rate: self.frame_rate,
            time_base: self.time_base,
            settle: self.settle,
        }
    }
}

impl Video {
    /// The settle counter never passes the safety valve: the step that
    /// would take it beyond `SETTLE_FRAME_LIMIT` leaves the settling
    /// state instead.
    #[verifier::type_invariant]
    spec fn type_inv(self) -> bool {
        self.settle matches SeekState::AwaitingSettle { frames_since_seek, .. }
            ==> frames_since_seek <= SETTLE_FRAME_LIMIT
    }

    /// A pipeline at the start of a stream: clock at zero, no seek in
    /// progress.
    pub fn new(duration_ms: i64, frame_rate: RationalValue, time_base: RationalValue) -> (v: Self)
        ensures
            v@.duration_ms == duration_ms as int,
            v@.current_timestamp_ms == 0,
            v@.frame_rate == frame_rate,
            v@.time_base == time_base,
            v@.settle == SeekState::Idle,
    {
        Video {
            duration_ms,
            current_timestamp_ms: 0,
            frame_rate,
            time_base,
            settle: SeekState::Idle,
        }
    }

    /// The presentation clock, in milliseconds.
    pub fn get_current_timestamp_ms(&self) -> (ms: i64)
        ensures
            ms == self@.current_timestamp_ms,
    {
        self.current_timestamp_ms
    }

    /// Stream duration, in milliseconds.
    pub fn get_duration_ms(&self) -> (ms: i64)
        ensures
            ms == self@.duration_ms,
    {
        self.duration_ms
    }

    /// The stream's frame rate rational.
    pub fn get_frame_rate(&self) -> (r: RationalValue)
        ensures
            r == self@.frame_rate,
    {
        self.frame_rate
    }

    /// The stream's native time unit.
    pub fn get_time_base(&self) -> (r: RationalValue)
        ensures
            r == self@.time_base,
    {
        self.time_base
    }

    /// The seek-recovery state.
    pub fn get_seek_state(&self) -> (s: SeekState)
        ensures
            s == self@.settle,
    {
        self.settle
    }

    /// Records a seek whose container-level part succeeded: recovery
    /// begins with a fresh frame count, and the clock reports the target
    /// at once so the seek is visible before decode settles.  A failed
    /// container seek must not be recorded — no seek is in progress then
    /// and the state here stays as it was.
    pub fn commit_seek(&mut self, target_ms: i64)
        ensures
            final(self)@.settle == (SeekState::AwaitingSettle {
                target_ms,
                frames_since_seek: 0u32,
            }),
            final(self)@.current_timestamp_ms == target_ms as int,
            final(self)@.duration_ms == old(self)@.duration_ms,
            final(self)@.frame_rate == old(self)@.frame_rate,
            final(self)@.time_base == old(self)@.time_base,
    {
        self.settle = SeekState::AwaitingSettle { target_ms, frames_since_seek: 0 };
        self.current_timestamp_ms = target_ms;
    }

    /// Feeds one decoded frame's presentation timestamp (in the stream's
    /// native unit, or `None` for an unstamped frame) through the
    /// seek-recovery machine; the result says whether the frame is
    /// emitted for display.
    pub fn on_decoded_frame(&mut self, pts: Option<i64>) -> (emit: bool)
        ensures
            ({
                let p_ms = match pts {
                    Some(p) => Some(ts_to_ms(p as int, old(self)@.time_base)),
                    None => None,
                };
                let o = spec_settle_step(
                    old(self)@.settle,
                    old(self)@.current_timestamp_ms,
                    p_ms,
                );
                &&& emit == o.emit
                &&& final(self)@.settle == o.state
                &&& final(self)@.current_timestamp_ms == o.timestamp_ms
            }),
            final(self)@.duration_ms == old(self)@.duration_ms,
            final(self)@.frame_rate == old(self)@.frame_rate,
            final(self)@.time_base == old(self)@.time_base,
    {
        proof {
            use_type_invariant(&*self);
        }
        match pts {
            None => match self.settle {
                SeekState::Idle => true,
                SeekState::AwaitingSettle { .. } => false,
            },
            Some(p) => {
                let pts_ms: i64 = timestamp_to_ms(p, self.time_base);
                match self.settle {
                    SeekState::Idle => {
                        self.current_timestamp_ms = pts_ms;
                        true
                    },
                    SeekState::AwaitingSettle { target_ms, frames_since_seek } => {
                        let counted: u32 = frames_since_seek + 1;
                        if counted > SETTLE_FRAME_LIMIT {
                            self.current_timestamp_ms = pts_ms;
                            self.settle = SeekState::Idle;
                            true
                        } else if pts_ms == 0 {
                            self.settle = SeekState::AwaitingSettle {
                                target_ms,
                                frames_since_seek: counted,
                            };
                            false
                        } else if pts_ms >= target_ms {
                            self.current_timestamp_ms = pts_ms;
                            self.settle = SeekState::Idle;
                            true
                        } else {
                            self.current_timestamp_ms = pts_ms;
                            self.settle = SeekState::AwaitingSettle {
                                target_ms,
                                frames_since_seek: counted,
                            };
                            false
                        }
                    },
                }
            },
        }
    }
}

/// The timestamp, in the container's global time unit (millionths of a
/// second), to hand the container-level seek for a target time.
pub fn seek_target_timestamp(target_ms: i64) -> (ts: i64)
    ensures
        ts as int == ms_to_ts(
            target_ms as int,
            RationalValue { numerator: 1, denominator: 1000000 },
        ),
{
    ms_to_timestamp(target_ms, RationalValue { numerator: 1, denominator: 1000000 })
}

/// Accurate seek settles only on target or at the safety valve: while a
/// seek is settling, a step that emits its frame does so either because
/// the frame's timestamp reached the seek target, or because exactly
/// `SETTLE_FRAME_LIMIT` stamped frames had already been counted since the
/// seek — and in either case the frame is a stamped one.
pub proof fn lemma_settle_emission(s: SeekState, cur_ms: int, pts_ms: Option<int>)
    requires
        s matches SeekState::AwaitingSettle { frames_since_seek, .. } && frames_since_seek
            <= SETTLE_FRAME_LIMIT,
        spec_settle_step(s, cur_ms, pts_ms).emit,
    ensures
        pts_ms is Some,
        s matches SeekState::AwaitingSettle { target_ms, frames_since_seek } ==> (
        pts_ms->Some_0 >= target_ms || frames_since_seek == SETTLE_FRAME_LIMIT),
{
}

/// The machine run over a sequence of decoded frames, stopping at the
/// first emission: the result pairs the emitted frame's timestamp (as
/// fed, in ms) with how many stamped frames were discarded before it,
/// or is `None` when the whole sequence is discarded.
pub open spec fn spec_run_until_emission(
    s: SeekState,
    cur_ms: int,
    trace: Seq<Option<int>>,
) -> Option<(Option<int>, int)>
    decreases trace.len(),
{
    if trace.len() == 0 {
        None
    } else {
        let o = spec_settle_step(s, cur_ms, trace.first());
        if o.emit {
            Some((trace.first(), 0))
        } else {
            match spec_run_until_emission(o.state, o.timestamp_ms, trace.drop_first()) {
                Some(r) => Some(
                    (
                        r.0,
                        r.1 + (if trace.first() is Some {
                            1int
                        } else {
                            0int
                        }),
                    ),
                ),
                None => None,
            }
        }
    }
}

/// Accurate seek over a whole pull sequence: while a seek is settling
/// with `frames_since_seek` stamped frames already counted, the first
/// frame the machine emits — however many are discarded before it — is a
/// stamped one, and either its timestamp reaches the seek target or the
/// counted frames had just filled the safety valve's limit.
pub proof fn lemma_settle_run(
    target_ms: i64,
    frames_since_seek: u32,
    cur_ms: int,
    trace: Seq<Option<int>>,
)
    requires
        frames_since_seek <= SETTLE_FRAME_LIMIT,
    ensures
        spec_run_until_emission(
            SeekState::AwaitingSettle { target_ms, frames_since_seek },
            cur_ms,
            trace,
        ) matches Some(r) ==> (r.0 matches Some(p) && (p >= target_ms || frames_since_seek + r.1
            == SETTLE_FRAME_LIMIT)),
    decreases trace.len(),
{
    let s = SeekState::AwaitingSettle { target_ms, frames_since_seek };
    if trace.len() > 0 {
        let o = spec_settle_step(s, cur_ms, trace.first());
        if o.emit {
            lemma_settle_emission(s, cur_ms, trace.first());
        } else {
            lemma_settle_discard_keeps_target(s, cur_ms, trace.first());
            let counted = if trace.first() is Some {
                (frames_since_seek + 1) as u32
            } else {
                frames_since_seek
            };
            lemma_settle_run(target_ms, counted, o.timestamp_ms, trace.drop_first());
        }
    }
}

/// The property as seen from a fresh seek: after `seek(target_ms)`,
/// pulling frames until one is emitted ends with a frame whose timestamp
/// is at or past the target, or with exactly `SETTLE_FRAME_LIMIT`
/// stamped frames discarded first — the safety-valve path.
pub proof fn lemma_first_emission_after_seek(target_ms: i64, cur_ms: int, trace: Seq<Option<int>>)
    ensures
        spec_run_until_emission(
            SeekState::AwaitingSettle { target_ms, frames_since_seek: 0u32 },
            cur_ms,
            trace,
        ) matches Some(r) ==> (r.0 matches Some(p) && (p >= target_ms || r.1
            == SETTLE_FRAME_LIMIT)),
{
    lemma_settle_run(target_ms, 0, cur_ms, trace);
}

/// While a seek is settling, a discarded frame leaves the machine
/// settling on the same target, and only stamped frames advance the
/// count, by exactly one.
pub proof fn lemma_settle_discard_keeps_target(s: SeekState, cur_ms: int, pts_ms: Option<int>)
    requires
        s matches SeekState::AwaitingSettle { frames_since_seek, .. } && frames_since_seek
            <= SETTLE_FRAME_LIMIT,
        !spec_settle_step(s, cur_ms, pts_ms).emit,
    ensures
        s matches SeekState::AwaitingSettle { target_ms, frames_since_seek } ==> spec_settle_step(
            s,
            cur_ms,
            pts_ms,
        ).state == (SeekState::AwaitingSettle {
            target_ms,
            frames_since_seek: if pts_ms is Some {
                (frames_since_seek + 1) as u32
            } else {
                frames_since_seek
            },
        }),
{
}

/// Length of one frame interval in milliseconds, `floor(1000 / fps)`;
/// a degenerate frame rate falls back to the 30 fps default.
pub open spec fn spec_frame_interval_ms(fr: RationalValue) -> int {
    if fr.numerator > 0 && fr.denominator > 0 {
        1000 * (fr.denominator as int) / (fr.numerator as int)
    } else {
        33
    }
}

/// Executable frame interval; see `spec_frame_interval_ms`.
pub fn frame_interval_ms(fr: RationalValue) -> (r: i64)
    ensures
        r as int == spec_frame_interval_ms(fr),
        0 <= r <= 1000 * (i32::MAX as int),
{
    if fr.numerator > 0 && fr.denominator > 0 {
        ((1000u64 * (fr.denominator as u64)) / (fr.numerator as u64)) as i64
    } else {
        33
    }
}

/// The stream's average frame rate, or the 30 fps default when the
/// stream reports a rational with a zero denominator.
pub fn frame_rate_or_default(avg: RationalValue) -> (r: RationalValue)
    ensures
        r == (if avg.denominator != 0 {
            avg
        } else {
            RationalValue { numerator: 30, denominator: 1 }
        }),
{
    if avg.denominator != 0 {
        avg
    } else {
        RationalValue { numerator: 30, denominator: 1 }
    }
}

/// Whether a container-reported duration is implausibly small — shorter
/// than ten frame intervals — and the stream's packets must be scanned
/// for the true duration instead.
pub fn needs_packet_scan(reported_ms: i64, frame_rate: RationalValue) -> (b: bool)
    ensures
        b == (reported_ms < 10 * spec_frame_interval_ms(frame_rate)),
{
    reported_ms < 10 * frame_interval_ms(frame_rate)
}

/// The duration a packet scan finds: the maximum presentation timestamp
/// over the stream's packets, in milliseconds, zero when nothing is
/// stamped.
pub open spec fn spec_scan_duration_ms(pts: Seq<Option<i64>>, tb: RationalValue) -> int
    decreases pts.len(),
{
    if pts.len() == 0 {
        0
    } else {
        let rest = spec_scan_duration_ms(pts.drop_last(), tb);
        match pts.last() {
            Some(p) => {
                let v = ts_to_ms(p as int, tb);
                if v > rest {
                    v
                } else {
                    rest
                }
            },
            None => rest,
        }
    }
}

/// Scans every packet of the stream (their presentation timestamps, in
/// the stream's native unit; `None` for unstamped packets) and returns
/// the maximum timestamp seen as the duration.
pub fn calculate_duration(packet_pts: &Vec<Option<i64>>, time_base: RationalValue) -> (d: i64)
    ensures
        d as int == spec_scan_duration_ms(packet_pts@, time_base),
{
    let mut best: i64 = 0;
    for i in 0..packet_pts.len()
        invariant
            best as int == spec_scan_duration_ms(packet_pts@.take(i as int), time_base),
    {
        let entry: Option<i64> = packet_pts[i];
        match entry {
            Some(p) => {
                let v: i64 = timestamp_to_ms(p, time_base);
                if v > best {
                    best = v;
                }
            },
            None => {},
        }
        proof {
            assert(packet_pts@.take(i + 1).drop_last() =~= packet_pts@.take(i as int));
            assert(packet_pts@.take(i + 1).last() == packet_pts@[i as int]);
        }
    }
    proof {
        assert(packet_pts@.take(packet_pts@.len() as int) =~= packet_pts@);
    }
    best
}

/// The stream duration: the container-reported value when plausible,
/// otherwise the result of the packet scan.
pub fn select_duration(
    reported_ms: i64,
    frame_rate: RationalValue,
    packet_pts: &Vec<Option<i64>>,
    time_base: RationalValue,
) -> (d: i64)
    ensures
        d as int == (if reported_ms < 10 * spec_frame_interval_ms(frame_rate) {
            spec_scan_duration_ms(packet_pts@, time_base)
        } else {
            reported_ms as int
        }),
{
    if needs_packet_scan(reported_ms, frame_rate) {
        calculate_duration(packet_pts, time_base)
    } else {
        reported_ms
    }
}

} // verus!
