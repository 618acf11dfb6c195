//! Audio decode-to-memory and the audio output controller.
//!
//! The whole audio stream is decoded up front into one interleaved-stereo
//! buffer, so a seek is an O(1) offset computation instead of a re-decode.
//! Sample values are carried as opaque 32-bit patterns (the bit images of
//! the platform sink's 32-bit float samples); the engine moves and
//! duplicates them but never computes on them, so nothing here depends on
//! their numeric reading.
//!
//! `DecodedAudio` owns the buffer together with the per-channel sample
//! rate and the stream duration; its position/time mapping is
//!
//! ```text
//! ms_to_sample_pos(ms)  = floor(ms * rate / 1000) * 2   clamped to [0, len]
//! sample_pos_to_ms(pos) = floor((pos / 2) * 1000 / rate) clamped to [0, duration]
//! ```
//!
//! `MemoryAudioSource` is the restartable cursor over that buffer, and
//! `Audio` is the controller that computes the effect of seek, pause and
//! play on the published playback clock.

use vstd::arithmetic::div_mod::{lemma_div_is_ordered, lemma_div_multiples_vanish, lemma_fundamental_div_mod};
use vstd::prelude::*;

use crate::timebase::{ts_to_ms, RationalValue};
use crate::timebase::timestamp_to_ms;

verus! {

/// Abstract value of a decoded audio stream.
pub ghost struct DecodedAudioView {
    /// Interleaved stereo samples, as raw 32-bit patterns.
    pub samples: Seq<u32>,
    /// Per-channel sample rate in frames per second.
    pub sample_rate: int,
    /// Stream duration in milliseconds.
    pub duration_ms: int,
}

/// An audio stream decoded whole into memory.
pub struct DecodedAudio {
    samples: Vec<u32>,
    sample_rate: u32,
    duration_ms: i64,
}

impl View for DecodedAudio {
    type V = DecodedAudioView;

    closed spec fn view(&self) -> DecodedAudioView {
        DecodedAudioView {
            samples: self.samples@,
            sample_rate: self.sample_rate as int,
            duration_ms: self.duration_ms as int,
        }
    }
}

/// The sample position of a time, in buffer elements: the frame index
/// `floor(ms * rate / 1000)` doubled for stereo interleaving, clamped
/// into the buffer.  Negative times map to the start.
pub open spec fn spec_ms_to_sample_pos(ms: int, rate: int, len: int) -> int
    recommends
        rate >= 1,
        len >= 0,
{
    let pos = 2 * ((if ms < 0 {
        0
    } else {
        ms
    }) * rate / 1000);
    if pos > len {
        len
    } else {
        pos
    }
}

/// The time of a sample position, in milliseconds: the frame index
/// `pos / 2` rescaled by the sample rate, clamped into the stream
/// duration.
pub open spec fn spec_sample_pos_to_ms(pos: int, rate: int, duration: int) -> int
    recommends
        rate >= 1,
        pos >= 0,
        duration >= 0,
{
    let ms = (pos / 2) * 1000 / rate;
    if ms > duration {
        duration
    } else {
        ms
    }
}

/// A mono frame normalized onto stereo: every sample duplicated into
/// both channels.
pub open spec fn spec_stereo_dup(frame: Seq<u32>) -> Seq<u32> {
    Seq::new(2 * frame.len(), |i: int| frame[i / 2])
}

impl DecodedAudio {
    /// Stereo interleaving keeps the buffer length even, the sample rate
    /// positive (it is a divisor), and the duration nonnegative.
    #[verifier::type_invariant]
    spec fn type_inv(self) -> bool {
        &&& self.samples@.len() % 2 == 0
        &&& self.sample_rate >= 1
        &&& self.duration_ms >= 0
    }

    /// An empty buffer, to be filled frame by frame as the stream decodes.
    pub fn new(sample_rate: u32) -> (a: Self)
        requires
            sample_rate >= 1,
        ensures
            a@.samples == Seq::<u32>::empty(),
            a@.sample_rate == sample_rate as int,
            a@.duration_ms == 0,
    {
        DecodedAudio { samples: Vec::new(), sample_rate, duration_ms: 0 }
    }

    /// Appends one decoded frame.  A mono frame is duplicated into both
    /// output channels; any other frame is taken as already interleaved
    /// and must hold whole stereo frames.
    pub fn push_frame(&mut self, frame: &Vec<u32>, mono: bool)
        requires
            mono || frame@.len() % 2 == 0,
        ensures
            final(self)@.samples == old(self)@.samples + (if mono {
                spec_stereo_dup(frame@)
            } else {
                frame@
            }),
            final(self)@.sample_rate == old(self)@.sample_rate,
            final(self)@.duration_ms == old(self)@.duration_ms,
    {
        let mut extra: Vec<u32> = Vec::new();
        if mono {
            for i in 0..frame.len()
                invariant
                    extra@ == spec_stereo_dup(frame@.take(i as int)),
            {
                let s: u32 = frame[i];
                extra.push(s);
                extra.push(s);
                proof {
                    assert(extra@ =~= spec_stereo_dup(frame@.take(i + 1)));
                }
            }
            proof {
                assert(frame@.take(frame@.len() as int) =~= frame@);
            }
        } else {
            for i in 0..frame.len()
                invariant
                    extra@ == frame@.take(i as int),
            {
                extra.push(frame[i]);
                proof {
                    assert(extra@ =~= frame@.take(i + 1));
                }
            }
            proof {
                assert(frame@.take(frame@.len() as int) =~= frame@);
            }
        }
        proof {
            use_type_invariant(&*self);
        }
        let mut samples: Vec<u32> = Vec::new();
        core::mem::swap(&mut samples, &mut self.samples);
        samples.append(&mut extra);
        core::mem::swap(&mut samples, &mut self.samples);
    }

    /// Folds one packet's presentation timestamp into the running
    /// duration: the duration is the maximum timestamp seen, in
    /// milliseconds.
    pub fn note_packet_pts(&mut self, pts: i64, time_base: RationalValue)
        ensures
            final(self)@.samples == old(self)@.samples,
            final(self)@.sample_rate == old(self)@.sample_rate,
            final(self)@.duration_ms == ({
                let ts = ts_to_ms(pts as int, time_base);
                if ts > old(self)@.duration_ms {
                    ts
                } else {
                    old(self)@.duration_ms
                }
            }),
    {
        proof {
            use_type_invariant(&*self);
        }
        let ts_ms: i64 = timestamp_to_ms(pts, time_base);
        if ts_ms > self.duration_ms {
            self.duration_ms = ts_ms;
        }
    }

    /// An independent copy of the stream, for handing one to the
    /// real-time playback consumer while the controller keeps its own.
    pub fn duplicate(&self) -> (d: Self)
        ensures
            d@ == self@,
    {
        proof {
            use_type_invariant(&*self);
        }
        DecodedAudio {
            samples: self.samples.clone(),
            sample_rate: self.sample_rate,
            duration_ms: self.duration_ms,
        }
    }

    /// Number of elements in the interleaved buffer.
    pub fn samples_len(&self) -> (n: usize)
        ensures
            n == self@.samples.len(),
    {
        self.samples.len()
    }

    /// The sample at one buffer position.
    pub fn sample_at(&self, pos: usize) -> (s: u32)
        requires
            pos < self@.samples.len(),
        ensures
            s == self@.samples[pos as int],
    {
        self.samples[pos]
    }

    /// Read-only access to the whole buffer.
    pub fn samples(&self) -> (s: &Vec<u32>)
        ensures
            s@ == self@.samples,
    {
        &self.samples
    }

    /// Per-channel sample rate.
    pub fn sample_rate(&self) -> (r: u32)
        ensures
            r == self@.sample_rate,
            r >= 1,
    {
        proof {
            use_type_invariant(&*self);
        }
        self.sample_rate
    }

    /// Stream duration in milliseconds.
    pub fn duration_ms(&self) -> (d: i64)
        ensures
            d == self@.duration_ms,
            d >= 0,
    {
        proof {
            use_type_invariant(&*self);
        }
        self.duration_ms
    }

    /// The buffer element position of a time.
    pub fn ms_to_sample_pos(&self, ms: i64) -> (pos: usize)
        ensures
            pos == spec_ms_to_sample_pos(ms as int, self@.sample_rate, self@.samples.len() as int),
            pos % 2 == 0,
            pos <= self@.samples.len(),
    {
        proof {
            use_type_invariant(&*self);
        }
        let ms_c: u128 = if ms < 0 {
            0
        } else {
            ms as u128
        };
        let rate: u128 = self.sample_rate as u128;
        assert(ms_c * rate <= 0x8000_0000_0000_0000u128 * 0x1_0000_0000u128) by (nonlinear_arith)
            requires
                ms_c <= 0x8000_0000_0000_0000u128,
                rate <= 0x1_0000_0000u128,
        ;
        let raw: u128 = ms_c * rate / 1000;
        let pos2: u128 = 2 * raw;
        let len: usize = self.samples.len();
        if pos2 > len as u128 {
            len
        } else {
            pos2 as usize
        }
    }

    /// The time of a buffer element position.
    pub fn sample_pos_to_ms(&self, pos: usize) -> (ms: i64)
        ensures
            ms == spec_sample_pos_to_ms(pos as int, self@.sample_rate, self@.duration_ms),
            0 <= ms <= self@.duration_ms,
    {
        proof {
            use_type_invariant(&*self);
        }
        let half: u128 = (pos as u128) / 2;
        let raw: u128 = half * 1000 / (self.sample_rate as u128);
        if raw > self.duration_ms as u128 {
            self.duration_ms
        } else {
            raw as i64
        }
    }
}

/// The decoder's reported rate covers all channels; the per-channel rate
/// divides it by the channel count.
pub fn per_channel_sample_rate(rate: u32, channels: u16) -> (r: u32)
    requires
        channels > 0,
    ensures
        r == rate as int / channels as int,
{
    rate / (channels as u32)
}

/// Stereo normalization of a mono frame: twice the elements, each input
/// sample written to both channels of its output frame.
pub proof fn lemma_stereo_dup_pairs(frame: Seq<u32>)
    ensures
        spec_stereo_dup(frame).len() == 2 * frame.len(),
        forall|i: int|
            0 <= i < frame.len() ==> #[trigger] spec_stereo_dup(frame)[2 * i] == frame[i]
                && spec_stereo_dup(frame)[2 * i + 1] == frame[i],
{
    assert forall|i: int| 0 <= i < frame.len() implies #[trigger] spec_stereo_dup(frame)[2 * i]
        == frame[i] && spec_stereo_dup(frame)[2 * i + 1] == frame[i] by {
        assert((2 * i) / 2 == i);
        assert((2 * i + 1) / 2 == i);
    }
}

/// Position/time round trip: for any time within the stream whose sample
/// position lies within the buffer, mapping to a sample position and back
/// never overshoots, and undershoots by less than one sample period plus
/// the millisecond the integer result is truncated to.
pub proof fn lemma_position_round_trip(ms: int, rate: int, len: int, duration: int)
    requires
        rate >= 1,
        0 <= ms <= duration,
        2 * (ms * rate / 1000) <= len,
    ensures
        ({
            let back = spec_sample_pos_to_ms(
                spec_ms_to_sample_pos(ms, rate, len),
                rate,
                duration,
            );
            0 <= back <= ms && (ms - back) * rate < 1000 + rate
        }),
{
    let k = ms * rate / 1000;
    assert(ms * rate >= 0) by (nonlinear_arith)
        requires
            ms >= 0,
            rate >= 1,
    ;
    let pos = spec_ms_to_sample_pos(ms, rate, len);
    assert(pos == 2 * k);
    assert(pos / 2 == k);
    let back0 = k * 1000 / rate;
    // The frame index never represents a later time than it was derived from:
    // 1000 * k <= ms * rate, so dividing back by the rate stays at or below ms.
    assert(1000 * k <= ms * rate);
    assert(k * 1000 == 1000 * k);
    lemma_div_is_ordered(1000 * k, ms * rate, rate);
    lemma_div_multiples_vanish(ms, rate);
    assert(rate * ms == ms * rate) by (nonlinear_arith);
    assert(back0 <= ms);
    assert(back0 >= 0);
    // And it undershoots by less than one tick of each truncation:
    // ms * rate < 1000 * (k + 1) and k * 1000 < rate * (back0 + 1).
    assert(ms * rate < 1000 * k + 1000);
    lemma_fundamental_div_mod(k * 1000, rate);
    assert(k * 1000 < rate * back0 + rate);
    assert((ms - back0) * rate == ms * rate - back0 * rate) by (nonlinear_arith);
    assert(rate * back0 == back0 * rate) by (nonlinear_arith);
    assert((ms - back0) * rate < 1000 + rate);
    let back = spec_sample_pos_to_ms(pos, rate, duration);
    assert(back == back0);
}

/// How many elements a cursor pulls between republications of its
/// position into the shared playback clock.
pub const TIME_PUBLISH_GRANULARITY: usize = 4000;

/// A restartable cursor over a shared decoded buffer.  It yields one
/// element per pull and, every `TIME_PUBLISH_GRANULARITY` elements,
/// reports the time to publish into the shared playback clock; the caller
/// owns the clock cell and performs the write.
#[derive(Clone, Copy)]
pub struct MemoryAudioSource {
    position: usize,
}

impl MemoryAudioSource {
    /// The element offset the cursor will read next.
    pub closed spec fn spec_position(&self) -> int {
        self.position as int
    }

    /// A cursor at an arbitrary element offset.  The second result is the
    /// ms-equivalent of the starting offset, which the caller publishes
    /// into the playback clock immediately.
    pub fn new(audio: &DecodedAudio, start_pos: usize) -> (r: (MemoryAudioSource, i64))
        ensures
            r.0.spec_position() == start_pos as int,
            r.1 == spec_sample_pos_to_ms(start_pos as int, audio@.sample_rate, audio@.duration_ms),
    {
        let ms: i64 = audio.sample_pos_to_ms(start_pos);
        (MemoryAudioSource { position: start_pos }, ms)
    }

    /// Pulls one element.  Within the buffer it returns the sample there
    /// and advances by one; past the end the sequence is exhausted and
    /// nothing changes.  On each publish boundary it also reports the
    /// current time for the shared clock.
    pub fn next(&mut self, audio: &DecodedAudio) -> (r: (Option<u32>, Option<i64>))
        ensures
            old(self).spec_position() < audio@.samples.len() ==> {
                &&& r.0 == Some(audio@.samples[old(self).spec_position()])
                &&& final(self).spec_position() == old(self).spec_position() + 1
                &&& if old(self).spec_position() % (TIME_PUBLISH_GRANULARITY as int) == 0 {
                    r.1 matches Some(p) && p == spec_sample_pos_to_ms(
                        old(self).spec_position(),
                        audio@.sample_rate,
                        audio@.duration_ms,
                    )
                } else {
                    r.1 is None
                }
            },
            old(self).spec_position() >= audio@.samples.len() ==> {
                &&& r.0 is None
                &&& r.1 is None
                &&& final(self).spec_position() == old(self).spec_position()
            },
    {
        if self.position < audio.samples_len() {
            let sample: u32 = audio.sample_at(self.position);
            let publish: Option<i64> = if self.position % TIME_PUBLISH_GRANULARITY == 0 {
                Some(audio.sample_pos_to_ms(self.position))
            } else {
                None
            };
            self.position = self.position + 1;
            (Some(sample), publish)
        } else {
            (None, None)
        }
    }

    /// The element offset the cursor will read next.
    pub fn position(&self) -> (p: usize)
        ensures
            p as int == self.spec_position(),
    {
        self.position
    }

    /// The cursor always presents its buffer as interleaved stereo.
    pub fn channels(&self) -> (c: u16)
        ensures
            c == 2,
    {
        2
    }

    /// Per-channel sample rate of the underlying buffer.
    pub fn sample_rate(&self, audio: &DecodedAudio) -> (r: u32)
        ensures
            r == audio@.sample_rate,
    {
        audio.sample_rate()
    }

    /// Total duration of the underlying buffer, in whole seconds.
    pub fn total_duration_secs(&self, audio: &DecodedAudio) -> (secs: u64)
        ensures
            secs == audio@.duration_ms / 1000,
    {
        let d: i64 = audio.duration_ms();
        (d as u64) / 1000
    }
}

/// Abstract state of the audio output controller.
pub ghost struct AudioView {
    /// The decoded stream the controller plays.
    pub decoded: DecodedAudioView,
    /// The playback clock as last published on this thread, in ms.
    pub current_time_ms: int,
    /// Whether playback is meant to be running (recorded across seeks).
    pub was_playing: bool,
}

/// What the platform sink must be told after a seek: the element offset
/// the fresh cursor starts at, and whether playback resumes or stays
/// paused.
pub struct AudioSeekPlan {
    pub start_pos: usize,
    pub resume_playing: bool,
}

/// The audio output controller: owns the decoded stream, tracks the
/// published playback clock and the desired play/pause state, and
/// computes the effect of each transport operation.  The platform sink
/// itself lives with the caller, which applies each operation's outcome
/// to it.
pub struct Audio {
    decoded: DecodedAudio,
    current_time_ms: i64,
    was_playing: bool,
}

impl View for Audio {
    type V = AudioView;

    closed spec fn view(&self) -> AudioView {
        AudioView {
            decoded: self.decoded@,
            current_time_ms: self.current_time_ms as int,
            was_playing: self.was_playing,
        }
    }
}

/// The playback clock value after a seek to `target_ms`: the target is
/// clamped into the stream, mapped to its sample position, and the fresh
/// cursor publishes that position's ms-equivalent.
pub open spec fn spec_time_after_seek(dec: DecodedAudioView, target_ms: int) -> int {
    spec_sample_pos_to_ms(
        spec_ms_to_sample_pos(
            if target_ms > dec.duration_ms {
                dec.duration_ms
            } else {
                target_ms
            },
            dec.sample_rate,
            dec.samples.len() as int,
        ),
        dec.sample_rate,
        dec.duration_ms,
    )
}

impl Audio {
    /// A controller over a decoded stream, with the cursor at the start,
    /// the clock at zero and playback running.
    pub fn new(decoded: DecodedAudio) -> (a: Self)
        ensures
            a@.decoded == decoded@,
            a@.current_time_ms == 0,
            a@.was_playing == true,
    {
        Audio { decoded, current_time_ms: 0, was_playing: true }
    }

    /// The decoded stream, for building playback sources over it.
    pub fn decoded(&self) -> (d: &DecodedAudio)
        ensures
            d@ == self@.decoded,
    {
        &self.decoded
    }

    /// Repositions playback.  The target is clamped into the stream, the
    /// old cursor is abandoned, and a fresh cursor at the computed offset
    /// publishes its position into the clock.  The returned plan tells
    /// the caller where to attach the new cursor on the sink and whether
    /// to resume.
    pub fn seek(&mut self, target_ms: i64) -> (plan: AudioSeekPlan)
        ensures
            final(self)@.decoded == old(self)@.decoded,
            final(self)@.was_playing == old(self)@.was_playing,
            plan.resume_playing == old(self)@.was_playing,
            plan.start_pos as int == spec_ms_to_sample_pos(
                if target_ms > old(self)@.decoded.duration_ms {
                    old(self)@.decoded.duration_ms
                } else {
                    target_ms as int
                },
                old(self)@.decoded.sample_rate,
                old(self)@.decoded.samples.len() as int,
            ),
            final(self)@.current_time_ms == spec_time_after_seek(
                old(self)@.decoded,
                target_ms as int,
            ),
    {
        let duration: i64 = self.decoded.duration_ms();
        let target: i64 = if target_ms > duration {
            duration
        } else {
            target_ms
        };
        let start_pos: usize = self.decoded.ms_to_sample_pos(target);
        self.current_time_ms = target;
        let (_cursor, published): (MemoryAudioSource, i64) = MemoryAudioSource::new(
            &self.decoded,
            start_pos,
        );
        self.current_time_ms = published;
        AudioSeekPlan { start_pos, resume_playing: self.was_playing }
    }

    /// The playback clock as last published, in milliseconds.
    pub fn get_current_time(&self) -> (ms: i64)
        ensures
            ms == self@.current_time_ms,
    {
        self.current_time_ms
    }

    /// Stops playback and records the state for resumption after a seek.
    pub fn pause(&mut self)
        ensures
            final(self)@.decoded == old(self)@.decoded,
            final(self)@.current_time_ms == old(self)@.current_time_ms,
            final(self)@.was_playing == false,
    {
        self.was_playing = false;
    }

    /// Resumes playback and records the state for resumption after a
    /// seek.
    pub fn play(&mut self)
        ensures
            final(self)@.decoded == old(self)@.decoded,
            final(self)@.current_time_ms == old(self)@.current_time_ms,
            final(self)@.was_playing == true,
    {
        self.was_playing = true;
    }
}

/// Seek, then read the clock: a seek to a target that is within the
/// stream, falls on a whole frame, and is covered by the buffer, reports
/// the target itself back from the playback clock, before the output
/// thread has consumed a single sample.  (A target off a frame boundary
/// reports the start of the frame it truncates to instead, which is why
/// those inputs are excluded here.)
pub proof fn lemma_seek_reports_target(dec: DecodedAudioView, target_ms: int)
    requires
        dec.sample_rate >= 1,
        0 <= target_ms <= dec.duration_ms,
        (target_ms * dec.sample_rate) % 1000 == 0,
        2 * (target_ms * dec.sample_rate / 1000) <= dec.samples.len(),
    ensures
        spec_time_after_seek(dec, target_ms) == target_ms,
{
    lemma_position_round_trip_exact(
        target_ms,
        dec.sample_rate,
        dec.samples.len() as int,
        dec.duration_ms,
    );
}

/// Exact position/time round trip on times that fall on a whole frame:
/// when `ms * rate` is a multiple of 1000 (so the time names an exact
/// sample boundary) and the buffer covers it, mapping to a sample
/// position and back returns the time unchanged.
pub proof fn lemma_position_round_trip_exact(ms: int, rate: int, len: int, duration: int)
    requires
        rate >= 1,
        0 <= ms <= duration,
        (ms * rate) % 1000 == 0,
        2 * (ms * rate / 1000) <= len,
    ensures
        spec_sample_pos_to_ms(spec_ms_to_sample_pos(ms, rate, len), rate, duration) == ms,
{
    let k = ms * rate / 1000;
    assert(ms * rate >= 0) by (nonlinear_arith)
        requires
            ms >= 0,
            rate >= 1,
    ;
    assert(1000 * k == ms * rate);
    let pos = spec_ms_to_sample_pos(ms, rate, len);
    assert(pos == 2 * k);
    assert(pos / 2 == k);
    assert(k * 1000 == ms * rate);
    lemma_div_multiples_vanish(ms, rate);
    assert(rate * ms == ms * rate) by (nonlinear_arith);
    assert(k * 1000 / rate == ms);
}

} // verus!
