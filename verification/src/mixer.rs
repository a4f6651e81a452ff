//! Mixing the participants of one delivery tick into a single frame.
//!
//! A tick is a list of source frames, one entry per participant, `None` for
//! a participant without audio. The mix adds the frames sample by sample, in
//! the order of the list, and clamps every partial sum to the 16-bit range.
//! Nothing is normalised: loud speakers clip, by design.

use vstd::prelude::*;

verus! {

/// The number of samples in one mixed frame: 20 ms of 48 kHz stereo.
pub const FRAME_LEN: usize = 1920;

/// `a + b`, clamped to the range of `i16`.
pub open spec fn saturating_sum(a: int, b: int) -> int {
    if a + b > i16::MAX {
        i16::MAX as int
    } else if a + b < i16::MIN {
        i16::MIN as int
    } else {
        a + b
    }
}

/// `i16::saturating_add` returns the sum of its operands where that fits in
/// an `i16`, and otherwise the bound of the type that the sum went past.
pub assume_specification[ i16::saturating_add ](x: i16, y: i16) -> (sum: i16)
    ensures
        sum == saturating_sum(x as int, y as int),
;

/// What one participant adds at position `p`: the sample there, or nothing
/// where the participant has no frame or the frame is shorter than that.
pub open spec fn contribution(frame: Option<Vec<i16>>, p: int) -> int {
    match frame {
        Some(samples) => if 0 <= p < samples@.len() {
            samples@[p] as int
        } else {
            0
        },
        None => 0,
    }
}

/// The mixed sample at position `p`: the contributions of `frames`, added
/// from first to last with saturation after each step.
pub open spec fn mixed_sample(frames: Seq<Option<Vec<i16>>>, p: int) -> int
    decreases frames.len(),
{
    if frames.len() == 0 {
        0
    } else {
        saturating_sum(mixed_sample(frames.drop_last(), p), contribution(frames.last(), p))
    }
}

/// Some participant has a frame in this tick.
pub open spec fn any_speaking(frames: Seq<Option<Vec<i16>>>) -> bool {
    exists|i: int| 0 <= i < frames.len() && (#[trigger] frames[i]) is Some
}

/// The frame that a tick with at least one source frame mixes to.
pub open spec fn mixed_frame(frames: Seq<Option<Vec<i16>>>) -> Seq<i16> {
    Seq::new(FRAME_LEN as nat, |p: int| mixed_sample(frames, p) as i16)
}

/// `count` samples of silence.
pub open spec fn silence(count: nat) -> Seq<i16> {
    Seq::new(count, |k: int| 0i16)
}

/// Every mixed sample lies in the range of `i16`.
pub proof fn lemma_mixed_sample_in_range(frames: Seq<Option<Vec<i16>>>, p: int)
    ensures
        i16::MIN <= mixed_sample(frames, p) <= i16::MAX,
    decreases frames.len(),
{
    if frames.len() > 0 {
        lemma_mixed_sample_in_range(frames.drop_last(), p);
    }
}

/// Two frames mix to the clamped sum of their samples: where the true sum
/// leaves the 16-bit range the result is the bound it passed, never a
/// wrapped value.
pub proof fn lemma_mix_of_two(a: Vec<i16>, b: Vec<i16>, p: int)
    requires
        0 <= p < a@.len(),
        p < b@.len(),
    ensures
        mixed_sample(seq![Some(a), Some(b)], p) == saturating_sum(a@[p] as int, b@[p] as int),
        a@[p] + b@[p] > i16::MAX ==> mixed_sample(seq![Some(a), Some(b)], p) == i16::MAX,
        a@[p] + b@[p] < i16::MIN ==> mixed_sample(seq![Some(a), Some(b)], p) == i16::MIN,
{
    let both = seq![Some(a), Some(b)];
    let first = seq![Some(a)];
    assert(both.drop_last() =~= first);
    assert(first.drop_last() =~= Seq::<Option<Vec<i16>>>::empty());
    assert(mixed_sample(first.drop_last(), p) == 0);
    assert(mixed_sample(first, p) == a@[p] as int);
    assert(both.last() == Some(b));
}

/// A frame of `count` zero samples.
pub fn silent_samples(count: usize) -> (samples: Vec<i16>)
    ensures
        samples@ == silence(count as nat),
{
    let mut samples: Vec<i16> = Vec::new();
    let mut i: usize = 0;
    while i < count
        invariant
            i <= count,
            samples@ == silence(i as nat),
        decreases count - i,
    {
        samples.push(0i16);
        i += 1;
        assert(samples@ =~= silence(i as nat));
    }
    samples
}

/// Mixes one tick. A tick in which nobody has a frame yields no frame at
/// all; any other tick yields exactly one frame of [`FRAME_LEN`] samples.
pub fn mix(frames: &Vec<Option<Vec<i16>>>) -> (out: Option<Vec<i16>>)
    ensures
        out is Some <==> any_speaking(frames@),
        out is Some ==> out.unwrap()@ == mixed_frame(frames@),
{
    let mut samples = silent_samples(FRAME_LEN);
    let mut speaking = false;
    let mut i: usize = 0;
    while i < frames.len()
        invariant
            i <= frames.len(),
            samples@.len() == FRAME_LEN,
            speaking == any_speaking(frames@.subrange(0, i as int)),
            forall|p: int|
                0 <= p < FRAME_LEN ==> #[trigger] samples@[p] == mixed_sample(
                    frames@.subrange(0, i as int),
                    p,
                ),
        decreases frames.len() - i,
    {
        let ghost done = frames@.subrange(0, i as int);
        let ghost next = frames@.subrange(0, i + 1);
        assert(next.drop_last() =~= done);
        assert(next.last() == frames@[i as int]);
        match &frames[i] {
            Some(data) => {
                let n: usize = if data.len() < FRAME_LEN {
                    data.len()
                } else {
                    FRAME_LEN
                };
                let mut index: usize = 0;
                while index < n
                    invariant
                        index <= n,
                        n <= FRAME_LEN,
                        n <= data@.len(),
                        samples@.len() == FRAME_LEN,
                        next.drop_last() == done,
                        next.last() == Some(*data),
                        next.len() > 0,
                        forall|p: int|
                            0 <= p < index ==> #[trigger] samples@[p] == mixed_sample(next, p),
                        forall|p: int|
                            index <= p < FRAME_LEN ==> #[trigger] samples@[p] == mixed_sample(
                                done,
                                p,
                            ),
                    decreases n - index,
                {
                    let sum = samples[index].saturating_add(data[index]);
                    samples.set(index, sum);
                    index += 1;
                }
                speaking = true;
                assert(next[i as int] is Some);
            },
            None => {
                assert(any_speaking(next) ==> any_speaking(done)) by {
                    if any_speaking(next) {
                        let w = choose|w: int| 0 <= w < next.len() && (#[trigger] next[w]) is Some;
                        assert(done[w] is Some);
                    }
                }
                assert(any_speaking(done) ==> any_speaking(next)) by {
                    if any_speaking(done) {
                        let w = choose|w: int| 0 <= w < done.len() && (#[trigger] done[w]) is Some;
                        assert(next[w] is Some);
                    }
                }
            },
        }
        i += 1;
    }
    assert(frames@.subrange(0, i as int) =~= frames@);
    if speaking {
        proof {
            assert forall|p: int| 0 <= p < FRAME_LEN implies #[trigger] samples@[p]
                == mixed_frame(frames@)[p] by {
                lemma_mixed_sample_in_range(frames@, p);
            }
            assert(samples@ =~= mixed_frame(frames@));
        }
        Some(samples)
    } else {
        None
    }
}

} // verus!
