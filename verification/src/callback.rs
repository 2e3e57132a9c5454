//! The hardware callback: what it writes into each buffer that the hardware
//! asks for, and what it takes from the ring buffer for it.

use vstd::prelude::*;
use crate::ring::{held, occupied_len, skip, taken, try_pop, SampleConsumer};
use crate::units::min_int;
use crate::session::StreamContext;

verus! {

/// The sample that is silence.
pub const SILENCE: u32 = 0;

/// What a callback has done.
#[derive(Clone, Copy, Debug, PartialEq, Eq, Structural)]
pub struct CallbackReport {
    /// Frames that were made of samples from the ring buffer; the position
    /// moves on by them. A frame written as silence because the ring buffer
    /// was dry is not among them.
    pub frames_played: u64,
    /// Samples that were dropped from the ring buffer.
    pub discarded: usize,
}

/// The consuming side of the player: it fills the buffers that the hardware
/// asks for.
pub struct PlayerCallback {
    /// The consuming end of the ring buffer.
    pub consumer: SampleConsumer,
}

/// How many of the first `n` frames are not silence.
pub open spec fn sounding(frames: Seq<(u32, u32)>, n: int) -> int
    decreases n,
{
    if n <= 0 {
        0
    } else if frames[n - 1] == (SILENCE, SILENCE) {
        sounding(frames, n - 1)
    } else {
        sounding(frames, n - 1) + 1
    }
}

/// A buffer of silence.
pub open spec fn all_silent(frames: Seq<(u32, u32)>) -> bool {
    forall|i: int| 0 <= i < frames.len() ==> #[trigger] frames[i] == (SILENCE, SILENCE)
}

/// The frame made of two samples taken from the ring buffer, silence
/// standing in for a sample that was not there.
pub open spec fn frame_of(left: Option<u32>, right: Option<u32>) -> (u32, u32) {
    (
        match left {
            Some(l) => l,
            None => SILENCE,
        },
        match right {
            Some(r) => r,
            None => SILENCE,
        },
    )
}

/// The frame made of two samples taken from the ring buffer, silence
/// standing in for a sample that was not there.
pub fn make_frame(left: Option<u32>, right: Option<u32>) -> (frame: (u32, u32))
    ensures
        frame == frame_of(left, right),
{
    (
        match left {
            Some(l) => l,
            None => SILENCE,
        },
        match right {
            Some(r) => r,
            None => SILENCE,
        },
    )
}

/// Fills a buffer with silence.
pub fn write_silence(frames: &mut [(u32, u32)])
    ensures
        final(frames)@.len() == old(frames)@.len(),
        all_silent(final(frames)@),
{
    let n: usize = frames.len();
    let mut i: usize = 0;
    while i < n
        invariant
            i <= n,
            n == frames@.len(),
            frames@.len() == old(frames)@.len(),
            forall|j: int| 0 <= j < i ==> #[trigger] frames@[j] == (SILENCE, SILENCE),
        decreases n - i,
    {
        frames[i] = (SILENCE, SILENCE);
        i += 1;
    }
}

impl PlayerCallback {
    /// A callback that takes its samples from `consumer`.
    pub fn new(consumer: SampleConsumer) -> (c: Self)
        ensures
            c.consumer == consumer,
    {
        PlayerCallback { consumer }
    }

    /// Fills the buffer that the hardware asks for. The samples are written
    /// as they come from the ring buffer; the caller applies the volume.
    ///
    /// While playback is held, the buffer is filled with silence and nothing
    /// else happens. When a flush is asked for, everything that the ring
    /// buffer is seen to hold is taken out and dropped, the buffer is filled
    /// with silence, and the flush is done. Otherwise each frame is made of
    /// the next two samples of the ring buffer, silence standing in where it
    /// runs dry.
    ///
    /// The frames reported as played are those for which the ring buffer gave
    /// a sample. Silence that stands for a dry ring buffer, for held playback
    /// or for a flush is not played, and the position does not move on by
    /// it: where nothing was taken out of the ring buffer, no frame is played
    /// and the buffer is silence.
    pub fn on_audio_ready(
        &mut self,
        playing: bool,
        context: &mut StreamContext,
        frames: &mut [(u32, u32)],
    ) -> (report: CallbackReport)
        ensures
            final(frames)@.len() == old(frames)@.len(),
            !playing ==> {
                &&& all_silent(final(frames)@)
                &&& report == (CallbackReport { frames_played: 0, discarded: 0 })
                &&& *final(context) == *old(context)
                &&& held(final(self).consumer) == held(old(self).consumer)
                &&& taken(final(self).consumer) == taken(old(self).consumer)
            },
            playing && old(context).flush_requested ==> {
                &&& all_silent(final(frames)@)
                &&& report.frames_played == 0
                &&& report.discarded >= held(old(self).consumer).len()
                &&& taken(final(self).consumer) == taken(old(self).consumer) + report.discarded
                &&& !final(context).flush_requested
            },
            playing && !old(context).flush_requested ==> {
                &&& report.discarded == 0
                &&& *final(context) == *old(context)
                &&& forall|i: int|
                    0 <= i < final(frames)@.len() && 2 * i + 1 < held(old(self).consumer).len()
                        ==> #[trigger] final(frames)@[i] == (
                        held(old(self).consumer)[2 * i],
                        held(old(self).consumer)[2 * i + 1],
                    )
                &&& 2 * old(frames)@.len() <= held(old(self).consumer).len() ==> {
                    &&& held(final(self).consumer) == held(old(self).consumer).skip(
                        2 * (old(frames)@.len() as int),
                    )
                    &&& taken(final(self).consumer) == taken(old(self).consumer) + 2 * old(
                        frames,
                    )@.len()
                }
                &&& report.frames_played <= old(frames)@.len()
                &&& report.frames_played >= min_int(
                    old(frames)@.len() as int,
                    (held(old(self).consumer).len() as int + 1) / 2,
                )
                &&& report.frames_played <= taken(final(self).consumer) - taken(
                    old(self).consumer,
                ) <= 2 * report.frames_played
                &&& sounding(final(frames)@, final(frames)@.len() as int) <= report.frames_played
                &&& taken(final(self).consumer) == taken(old(self).consumer) ==> {
                    &&& report.frames_played == 0
                    &&& all_silent(final(frames)@)
                }
            },
    {
        if !playing {
            write_silence(frames);
            return CallbackReport { frames_played: 0, discarded: 0 };
        }
        if context.flush_requested {
            let seen: usize = occupied_len(&mut self.consumer);
            let dropped: usize = skip(&mut self.consumer, seen);
            write_silence(frames);
            context.flush_requested = false;
            return CallbackReport { frames_played: 0, discarded: dropped };
        }
        let ghost before = held(self.consumer);
        let ghost start = taken(self.consumer);
        let n: usize = frames.len();
        let mut played: usize = 0;
        let mut i: usize = 0;
        while i < n
            invariant
                i <= n,
                n == frames@.len(),
                frames@.len() == old(frames)@.len(),
                before == held(old(self).consumer),
                start == taken(old(self).consumer),
                forall|j: int|
                    0 <= j < i && 2 * j + 1 < before.len() ==> #[trigger] frames@[j] == (
                        before[2 * j],
                        before[2 * j + 1],
                    ),
                2 * i <= before.len() ==> held(self.consumer) == before.skip(2 * i),
                2 * i <= before.len() ==> taken(self.consumer) == start + 2 * i,
                played <= i,
                played >= min_int(i as int, (before.len() as int + 1) / 2),
                played <= taken(self.consumer) - start <= 2 * played,
                sounding(frames@, i as int) <= played,
            decreases n - i,
        {
            let left: Option<u32> = try_pop(&mut self.consumer);
            let right: Option<u32> = try_pop(&mut self.consumer);
            let ghost earlier = frames@;
            frames[i] = make_frame(left, right);
            if left.is_some() || right.is_some() {
                played += 1;
            }
            proof {
                lemma_sounding_keeps(earlier, frames@, i as int);
            }
            i += 1;
        }
        proof {
            if played == 0 {
                lemma_none_sounding(frames@, n as int);
            }
        }
        CallbackReport { frames_played: played as u64, discarded: 0 }
    }
}

/// Where none of the first `n` frames sounds, each of them is silence.
proof fn lemma_none_sounding(frames: Seq<(u32, u32)>, n: int)
    requires
        0 <= n <= frames.len(),
        sounding(frames, n) <= 0,
    ensures
        forall|j: int| 0 <= j < n ==> #[trigger] frames[j] == (SILENCE, SILENCE),
    decreases n,
{
    if n > 0 {
        lemma_sounding_not_negative(frames, n - 1);
        lemma_none_sounding(frames, n - 1);
    }
}

/// A count of frames is not negative.
proof fn lemma_sounding_not_negative(frames: Seq<(u32, u32)>, n: int)
    ensures
        sounding(frames, n) >= 0,
    decreases n,
{
    if n > 0 {
        lemma_sounding_not_negative(frames, n - 1);
    }
}

/// How many of the first `n` frames are not silence depends on those frames
/// alone.
proof fn lemma_sounding_keeps(a: Seq<(u32, u32)>, b: Seq<(u32, u32)>, n: int)
    requires
        0 <= n <= a.len(),
        a.len() == b.len(),
        forall|j: int| 0 <= j < n ==> a[j] == b[j],
    ensures
        sounding(a, n) == sounding(b, n),
    decreases n,
{
    if n > 0 {
        lemma_sounding_keeps(a, b, n - 1);
    }
}

} // verus!
