//! The registry of recordings: which channels are being recorded, and the
//! operations on them.
//!
//! A channel is either absent or recording. Joining starts a recording,
//! leaving ends it and discards its audio, and a clip can be cut from a
//! recording at any time without stopping it. Engaging and releasing the
//! voice transport is the caller's part; the caller tells the registry how
//! that went, and the registry changes only when it went well.

use crate::encoder::{encodable, encode_clip, EncoderConfig};
use crate::error::Error;
use crate::mixer::{any_speaking, mixed_frame};
use crate::recorder::{after_frame, elapsed_between, VoiceRecorder, BUFFER_SAMPLES};
use std::collections::HashMap;
use vstd::prelude::*;

verus! {

broadcast use vstd::std_specs::hash::group_hash_axioms;

/// The recordings in progress, by channel.
pub struct VoiceClipper {
    map: HashMap<u64, VoiceRecorder>,
}

impl VoiceClipper {
    /// The recorder of each channel that is being recorded.
    pub closed spec fn recorders(&self) -> Map<u64, VoiceRecorder> {
        self.map@
    }

    /// Every recorder is well-formed.
    pub open spec fn wf(&self) -> bool {
        forall|id: u64| #[trigger]
            self.recorders().contains_key(id) ==> self.recorders()[id].wf()
    }

    /// The channel is being recorded.
    pub open spec fn recording(&self, channel_id: u64) -> bool {
        self.recorders().contains_key(channel_id)
    }

    /// Well-formedness carries over to a registry whose recorders are all
    /// well-formed recorders of this one, but for one channel.
    proof fn lemma_wf_but_for(&self, next: &VoiceClipper, channel_id: u64)
        requires
            self.wf(),
            forall|id: u64|
                id != channel_id && #[trigger] next.recorders().contains_key(id) ==> {
                    &&& self.recorders().contains_key(id)
                    &&& self.recorders()[id] == next.recorders()[id]
                },
            next.recorders().contains_key(channel_id) ==> next.recorders()[channel_id].wf(),
        ensures
            next.wf(),
    {
        assert forall|id: u64| #[trigger]
            next.recorders().contains_key(id) implies next.recorders()[id].wf() by {
            if id != channel_id {
                assert(self.recorders().contains_key(id));
            }
        }
    }

    /// A registry in which no channel is being recorded.
    pub fn new() -> (clipper: VoiceClipper)
        ensures
            clipper.wf(),
            clipper.recorders() == Map::<u64, VoiceRecorder>::empty(),
    {
        VoiceClipper { map: HashMap::new() }
    }

    /// Whether the channel is being recorded.
    pub fn is_recording(&self, channel_id: u64) -> (yes: bool)
        ensures
            yes == self.recording(channel_id),
    {
        self.map.contains_key(&channel_id)
    }

    /// Starts recording the channel at time `now`, once the caller has
    /// engaged the transport; `connected` says whether that worked.
    ///
    /// Without a connection nothing changes and the error is
    /// [`Error::CantConnect`]. With one, the channel gets a fresh, empty
    /// recorder: joining a channel that is already being recorded starts
    /// its recording over.
    pub fn join(&mut self, channel_id: u64, connected: bool, now: u64) -> (outcome: Result<
        (),
        Error,
    >)
        requires
            old(self).wf(),
        ensures
            final(self).wf(),
            connected ==> outcome == Ok::<(), Error>(()),
            !connected ==> outcome == Err::<(), Error>(Error::CantConnect),
            !connected ==> final(self).recorders() == old(self).recorders(),
            connected ==> final(self).recording(channel_id),
            connected ==> final(self).recorders() == old(self).recorders().insert(
                channel_id,
                final(self).recorders()[channel_id],
            ),
            connected ==> final(self).recorders()[channel_id]@ == Seq::<i16>::empty(),
            connected ==> final(self).recorders()[channel_id].last_timestamp() == now,
    {
        if !connected {
            return Err(Error::CantConnect);
        }
        self.map.insert(channel_id, VoiceRecorder::new(now));
        proof {
            old(self).lemma_wf_but_for(self, channel_id);
        }
        Ok(())
    }

    /// Stops recording the channel and discards its audio, once the caller
    /// has released the channel's session with the transport; `released`
    /// says whether that worked.
    ///
    /// Leaving a channel that is not being recorded changes nothing and is
    /// no error, whatever `released` says: there was no session to release.
    /// For a recorded channel, a release that failed leaves the recording as
    /// it is and gives [`Error::CantConnect`]; after a release the recorder
    /// is removed. The result says whether a recording was ended.
    pub fn leave(&mut self, channel_id: u64, released: bool) -> (outcome: Result<bool, Error>)
        requires
            old(self).wf(),
        ensures
            final(self).wf(),
            !old(self).recording(channel_id) ==> outcome == Ok::<bool, Error>(false),
            !old(self).recording(channel_id) ==> final(self).recorders() == old(self).recorders(),
            old(self).recording(channel_id) && released ==> outcome == Ok::<bool, Error>(true),
            old(self).recording(channel_id) && released ==> final(self).recorders() == old(
                self,
            ).recorders().remove(channel_id),
            old(self).recording(channel_id) && !released ==> outcome == Err::<bool, Error>(
                Error::CantConnect,
            ),
            old(self).recording(channel_id) && !released ==> final(self).recorders() == old(
                self,
            ).recorders(),
            outcome is Ok ==> !final(self).recording(channel_id),
    {
        if !self.map.contains_key(&channel_id) {
            return Ok(false);
        }
        if !released {
            return Err(Error::CantConnect);
        }
        self.map.remove(&channel_id);
        proof {
            old(self).lemma_wf_but_for(self, channel_id);
        }
        Ok(true)
    }

    /// Hands one delivery tick, which arrived at time `now`, to the
    /// channel's recorder. The result says whether a frame was recorded:
    /// the channel is being recorded and somebody has a frame in the tick.
    /// Otherwise nothing changes.
    pub fn write(&mut self, channel_id: u64, frames: &Vec<Option<Vec<i16>>>, now: u64) -> (recorded:
        bool)
        requires
            old(self).wf(),
        ensures
            final(self).wf(),
            recorded == (old(self).recording(channel_id) && any_speaking(frames@)),
            !recorded ==> final(self).recorders() == old(self).recorders(),
            recorded ==> final(self).recorders() == old(self).recorders().insert(
                channel_id,
                final(self).recorders()[channel_id],
            ),
            recorded ==> final(self).recorders()[channel_id]@ == after_frame(
                old(self).recorders()[channel_id]@,
                elapsed_between(old(self).recorders()[channel_id].last_timestamp(), now),
                mixed_frame(frames@),
            ),
            recorded ==> final(self).recorders()[channel_id].last_timestamp() == if now >= old(
                self,
            ).recorders()[channel_id].last_timestamp() {
                now
            } else {
                old(self).recorders()[channel_id].last_timestamp()
            },
    {
        let mut recorder = match self.map.remove(&channel_id) {
            Some(recorder) => recorder,
            None => {
                proof {
                    assert(self.map@ =~= old(self).map@);
                    old(self).lemma_wf_but_for(self, channel_id);
                }
                return false;
            },
        };
        assert(old(self).recorders().contains_key(channel_id));
        let recorded = recorder.write(frames, now);
        self.map.insert(channel_id, recorder);
        proof {
            assert(self.map@ =~= old(self).map@.insert(channel_id, recorder));
            if !recorded {
                assert(self.map@ =~= old(self).map@);
            }
            old(self).lemma_wf_but_for(self, channel_id);
        }
        recorded
    }

    /// A copy of what the channel's recorder holds, oldest sample first.
    /// The recording goes on. A channel that is not being recorded gives
    /// [`Error::NoConnection`].
    pub fn get_audio(&self, channel_id: u64) -> (audio: Result<Vec<i16>, Error>)
        requires
            self.wf(),
        ensures
            self.recording(channel_id) ==> audio is Ok,
            audio matches Ok(samples) ==> {
                &&& self.recording(channel_id)
                &&& samples@ == self.recorders()[channel_id]@
                &&& samples@.len() <= BUFFER_SAMPLES
                &&& encodable(samples@.len())
            },
            audio matches Err(error) ==> error == Error::NoConnection,
    {
        match self.map.get(&channel_id) {
            Some(recorder) => {
                assert(self.recorders().contains_key(channel_id));
                Ok(recorder.snapshot())
            },
            None => Err(Error::NoConnection),
        }
    }

    /// Cuts a clip: the channel's buffered audio as a complete MP3 stream.
    /// The recording goes on.
    ///
    /// A channel that is not being recorded gives [`Error::NoConnection`],
    /// and nothing else does. For a recorded channel the codec decides, and
    /// its failure is [`Error::SkillIssue`]; the clip is that of
    /// [`encode_clip`] on [`VoiceClipper::get_audio`].
    pub fn clip(&self, channel_id: u64) -> (clip: Result<Vec<u8>, Error>)
        requires
            self.wf(),
        ensures
            !self.recording(channel_id) <==> clip == Err::<Vec<u8>, Error>(Error::NoConnection),
            clip matches Err(error) ==> error == Error::NoConnection || error
                == Error::SkillIssue,
    {
        let audio = match self.get_audio(channel_id) {
            Ok(audio) => audio,
            Err(error) => {
                return Err(error);
            },
        };
        let config = EncoderConfig::voice();
        encode_clip(&audio, &config)
    }
}

impl Default for VoiceClipper {
    fn default() -> (clipper: VoiceClipper)
        ensures
            clipper.wf(),
            clipper.recorders() == Map::<u64, VoiceRecorder>::empty(),
    {
        VoiceClipper::new()
    }
}

} // verus!
