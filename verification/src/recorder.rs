//! The recorder of one voice channel: a bounded buffer of the most recent
//! samples, kept in step with the clock.
//!
//! Ticks arrive only while somebody speaks. When a frame arrives late, the
//! recorder first fills the time that went by with silence, so that the
//! buffer always spans real time. Time is a count of nanoseconds on a clock
//! of the caller's choosing that never runs backwards.

use crate::mixer::{any_speaking, mix, mixed_frame, silence};
use crate::queue::{lemma_retained_twice, retained, LimitedQueue};
use vstd::prelude::*;

verus! {

/// Samples per millisecond: 48 kHz, two channels.
pub const SAMPLES_PER_MS: u64 = 96;

/// The buffer's capacity in samples: ten seconds of audio.
pub const BUFFER_SAMPLES: usize = 960000;

/// The expected spacing of two ticks, in nanoseconds.
pub const TICK_NANOS: u64 = 20000000;

/// Nanoseconds per millisecond.
pub const NANOS_PER_MS: u64 = 1000000;

/// A frame that is less than this many milliseconds late gets no silence in
/// front of it.
pub const SLACK_MS: u64 = 20;

/// The bounded buffer of a recorder.
pub type SampleBuffer = LimitedQueue<i16, BUFFER_SAMPLES>;

/// By how many whole milliseconds a frame is late that arrives
/// `elapsed_nanos` after the one before it.
pub open spec fn late_ms(elapsed_nanos: u64) -> nat {
    if elapsed_nanos <= TICK_NANOS {
        0
    } else {
        ((elapsed_nanos - TICK_NANOS) / NANOS_PER_MS as int) as nat
    }
}

/// The number of silent samples owed for a frame that arrives
/// `elapsed_nanos` after the one before it: none within the slack, else
/// [`SAMPLES_PER_MS`] for each millisecond of lateness.
pub open spec fn silence_len(elapsed_nanos: u64) -> nat {
    if late_ms(elapsed_nanos) < SLACK_MS {
        0
    } else {
        late_ms(elapsed_nanos) * SAMPLES_PER_MS as nat
    }
}

/// The time from `earlier` to `later`, zero where the clock seems to have
/// run backwards.
pub open spec fn elapsed_between(earlier: u64, later: u64) -> u64 {
    if later >= earlier {
        (later - earlier) as u64
    } else {
        0
    }
}

/// What the buffer holds after a frame `frame` arrived `elapsed_nanos` after
/// the previous one, having held `before`.
pub open spec fn after_frame(before: Seq<i16>, elapsed_nanos: u64, frame: Seq<i16>) -> Seq<i16> {
    retained(before + silence(silence_len(elapsed_nanos)) + frame, BUFFER_SAMPLES as nat)
}

/// A gap of at least [`SLACK_MS`] beyond the tick spacing is filled with
/// exactly [`SAMPLES_PER_MS`] samples per whole millisecond beyond it; a
/// shorter gap is not filled at all.
pub proof fn lemma_silence_sizing(gap_ms: u64)
    requires
        gap_ms * NANOS_PER_MS <= u64::MAX,
    ensures
        gap_ms < 40 ==> silence_len((gap_ms * NANOS_PER_MS) as u64) == 0,
        gap_ms >= 40 ==> silence_len((gap_ms * NANOS_PER_MS) as u64) == (gap_ms - 20)
            * SAMPLES_PER_MS,
{
    if gap_ms >= 20 {
        assert((gap_ms * 1000000 - 20000000) / 1000000 == gap_ms - 20) by (nonlinear_arith)
            requires
                gap_ms >= 20,
        ;
    }
}

/// The state of one recording.
pub struct VoiceRecorder {
    last_timestamp: u64,
    writer: SampleBuffer,
}

impl View for VoiceRecorder {
    type V = Seq<i16>;

    /// The buffered samples, oldest first.
    closed spec fn view(&self) -> Seq<i16> {
        self.writer@
    }
}

impl VoiceRecorder {
    /// The buffer respects its capacity and holds whole stereo pairs.
    pub closed spec fn wf(&self) -> bool {
        &&& self.writer.wf()
        &&& self.writer@.len() % 2 == 0
    }

    /// When the last frame was recorded, or the recorder created.
    pub closed spec fn last_timestamp(&self) -> u64 {
        self.last_timestamp
    }

    /// A well-formed recorder holds an even number of samples, and no more
    /// than [`BUFFER_SAMPLES`].
    pub proof fn lemma_bounded(&self)
        requires
            self.wf(),
        ensures
            self@.len() <= BUFFER_SAMPLES,
            self@.len() % 2 == 0,
    {
        self.writer.lemma_bounded();
    }

    /// A recorder with an empty buffer, created at time `now`.
    pub fn new(now: u64) -> (recorder: VoiceRecorder)
        ensures
            recorder.wf(),
            recorder@ == Seq::<i16>::empty(),
            recorder.last_timestamp() == now,
    {
        VoiceRecorder { last_timestamp: now, writer: LimitedQueue::new() }
    }

    /// The time of the last recorded frame.
    pub fn timestamp(&self) -> (t: u64)
        ensures
            t == self.last_timestamp(),
    {
        self.last_timestamp
    }

    /// Appends the silence owed for a frame that arrives `elapsed_nanos`
    /// after the previous one.
    pub fn pad_silence(writer: &mut SampleBuffer, elapsed_nanos: u64)
        requires
            old(writer).wf(),
        ensures
            final(writer).wf(),
            final(writer)@ == retained(
                old(writer)@ + silence(silence_len(elapsed_nanos)),
                BUFFER_SAMPLES as nat,
            ),
    {
        proof {
            writer.lemma_bounded();
        }
        let elapsed_ms: u64 = elapsed_nanos.saturating_sub(TICK_NANOS) / NANOS_PER_MS;
        assert(elapsed_ms == late_ms(elapsed_nanos));
        if elapsed_ms < SLACK_MS {
            assert(writer@ + silence(0) =~= writer@);
            return ;
        }
        assert(elapsed_ms <= u64::MAX / 1000000);
        let owed: u64 = elapsed_ms * SAMPLES_PER_MS;
        // More silence than the buffer holds leaves the same contents as a
        // buffer's worth of it.
        let count: usize = if owed > BUFFER_SAMPLES as u64 {
            BUFFER_SAMPLES
        } else {
            owed as usize
        };
        writer.push_repeated(0i16, count);
        proof {
            let cap = BUFFER_SAMPLES as nat;
            let pushed = Seq::new(count as nat, |k: int| 0i16);
            assert(pushed =~= silence(count as nat));
            assert(retained(old(writer)@ + silence(count as nat), cap) =~= retained(
                old(writer)@ + silence(owed as nat),
                cap,
            ));
        }
    }

    /// Takes in one delivery tick that arrived at time `now`.
    ///
    /// A tick in which nobody has a frame changes nothing, the timestamp
    /// included: a gap is measured between frames. Otherwise the silence
    /// owed since the last frame goes in first, then the mixed frame, and
    /// the timestamp moves to `now` (it never moves back). The result says
    /// whether a frame was recorded.
    pub fn write(&mut self, frames: &Vec<Option<Vec<i16>>>, now: u64) -> (recorded: bool)
        requires
            old(self).wf(),
        ensures
            final(self).wf(),
            recorded == any_speaking(frames@),
            !recorded ==> *final(self) == *old(self),
            recorded ==> final(self)@ == after_frame(
                old(self)@,
                elapsed_between(old(self).last_timestamp(), now),
                mixed_frame(frames@),
            ),
            recorded ==> final(self).last_timestamp() == if now >= old(self).last_timestamp() {
                now
            } else {
                old(self).last_timestamp()
            },
            final(self).last_timestamp() >= old(self).last_timestamp(),
    {
        let samples = match mix(frames) {
            Some(samples) => samples,
            None => {
                return false;
            },
        };
        let elapsed: u64 = now.saturating_sub(self.last_timestamp);
        Self::pad_silence(&mut self.writer, elapsed);
        if now > self.last_timestamp {
            self.last_timestamp = now;
        }
        self.writer.push_slice(&samples);
        proof {
            let cap = BUFFER_SAMPLES as nat;
            let quiet = silence(silence_len(elapsed));
            lemma_retained_twice(old(self)@ + quiet, samples@, cap);
            assert(silence_len(elapsed) % 2 == 0) by {
                assert((late_ms(elapsed) * 96) % 2 == 0) by (nonlinear_arith);
            }
            old(self).writer.lemma_bounded();
            let all = old(self)@ + quiet + samples@;
            assert(all.len() % 2 == 0);
            assert(retained(all, cap).len() % 2 == 0);
        }
        true
    }

    /// A copy of the buffered samples, oldest first. Recording goes on
    /// unchanged.
    pub fn snapshot(&self) -> (samples: Vec<i16>)
        requires
            self.wf(),
        ensures
            samples@ == self@,
            samples@.len() <= BUFFER_SAMPLES,
            samples@.len() % 2 == 0,
    {
        proof {
            self.writer.lemma_bounded();
        }
        self.writer.snapshot()
    }
}

} // verus!
