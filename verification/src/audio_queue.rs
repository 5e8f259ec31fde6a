//! The audio sample queue. The resample stage appends every sample it
//! produces; the audio device's callback pops exactly as many as the device
//! asks for, substituting silence when the queue runs dry (an underrun).
//! Samples are opaque 32-bit words — the bit pattern of one interleaved
//! sample in the device's negotiated format — and the all-zero word is
//! silence. Unlike video, audio is never thinned: what goes in comes out,
//! in order, exactly once.

use vstd::prelude::*;

verus! {

/// The silent sample word.
pub const SILENCE: u32 = 0;

/// Interleaved sample FIFO between the resample stage and the device
/// callback, with the device's reported output latency alongside.
pub struct AudioQueue {
    /// Interleaved channels per frame; mono or stereo in practice.
    pub channels: usize,
    /// Sample frames per second the device plays.
    pub rate: u32,
    /// Queued sample words, oldest first.
    pub data: Vec<u32>,
    /// Device buffering latency in microseconds, as last reported by the
    /// device callback; video must match it.
    pub delay: i64,
}

/// The microseconds `samples` interleaved samples last at `channels`
/// channels and `rate` frames per second, rounded down.
pub open spec fn micros_for_samples(samples: int, channels: int, rate: int) -> int {
    ((samples / channels) * 1000000) / rate
}

impl AudioQueue {
    /// At least one channel, a running rate, and a nonnegative latency.
    pub open spec fn wf(self) -> bool {
        &&& self.channels >= 1
        &&& self.rate >= 1
        &&& self.delay >= 0
    }

    /// An empty queue for a device that negotiated `channels` interleaved
    /// channels at `rate` frames per second.
    pub fn new(channels: u16, rate: u32) -> (r: AudioQueue)
        requires
            channels >= 1,
            rate >= 1,
        ensures
            r.wf(),
            r.channels == channels,
            r.rate == rate,
            r.data@ == Seq::<u32>::empty(),
            r.delay == 0,
    {
        AudioQueue { channels: channels as usize, rate, data: Vec::new(), delay: 0 }
    }

    /// The stream time the queued samples will take to play.
    pub fn duration(&self) -> (r: i64)
        requires
            self.wf(),
            micros_for_samples(self.data@.len() as int, self.channels as int, self.rate as int)
                <= i64::MAX,
        ensures
            r == micros_for_samples(
                self.data@.len() as int,
                self.channels as int,
                self.rate as int,
            ),
            r >= 0,
    {
        self.duration_for_samples(self.data.len())
    }

    /// The stream time `samples` interleaved samples take to play at this
    /// queue's channel count and rate.
    pub fn duration_for_samples(&self, samples: usize) -> (r: i64)
        requires
            self.wf(),
            micros_for_samples(samples as int, self.channels as int, self.rate as int)
                <= i64::MAX,
        ensures
            r == micros_for_samples(samples as int, self.channels as int, self.rate as int),
            r >= 0,
    {
        let frames: u128 = (samples as u128) / (self.channels as u128);
        let micros: u128 = (frames * 1000000) / (self.rate as u128);
        micros as i64
    }

    /// Appends resampled samples. Nothing is dropped, reordered, or made
    /// up: afterwards the queue holds exactly what it held before, followed
    /// by every handed-in sample.
    pub fn push_samples(&mut self, samples: &[u32])
        ensures
            final(self).data@ == old(self).data@ + samples@,
            final(self).channels == old(self).channels,
            final(self).rate == old(self).rate,
            final(self).delay == old(self).delay,
            old(self).wf() ==> final(self).wf(),
    {
        let n = samples.len();
        let mut i: usize = 0;
        proof {
            assert(self.data@ =~= old(self).data@ + samples@.take(0int));
        }
        while i < n
            invariant
                n == samples@.len(),
                0 <= i <= n,
                self.data@ == old(self).data@ + samples@.take(i as int),
                self.channels == old(self).channels,
                self.rate == old(self).rate,
                self.delay == old(self).delay,
            decreases n - i,
        {
            let s = samples[i];
            self.data.push(s);
            i = i + 1;
            proof {
                assert(self.data@ =~= old(self).data@ + samples@.take(i as int));
            }
        }
        proof {
            assert(samples@.take(n as int) =~= samples@);
        }
    }

    /// Serves one device callback that asked for `requested` samples and
    /// reported an output latency of `device_delay`. Exactly the queued
    /// samples come out, in order; every missing one is served as silence
    /// and counted as an underrun. The reported latency replaces the
    /// queue's delay.
    pub fn fill_device_buffer(&mut self, requested: usize, device_delay: i64) -> (r: (
        Vec<u32>,
        usize,
    ))
        requires
            device_delay >= 0,
        ensures
            ({
                let served = if requested <= old(self).data@.len() {
                    requested as int
                } else {
                    old(self).data@.len() as int
                };
                &&& r.0@.len() == requested
                &&& (forall|j: int| 0 <= j < served ==> r.0@[j] == old(self).data@[j])
                &&& (forall|j: int| served <= j < requested ==> r.0@[j] == SILENCE)
                &&& r.1 == requested - served
                &&& final(self).data@ == old(self).data@.skip(served)
            }),
            final(self).channels == old(self).channels,
            final(self).rate == old(self).rate,
            final(self).delay == device_delay,
            old(self).wf() ==> final(self).wf(),
    {
        let ghost orig: Seq<u32> = self.data@;
        let n = self.data.len();
        proof {
            assert(orig.len() == n as int);
        }
        self.delay = device_delay;
        let mut out: Vec<u32> = Vec::new();
        let mut underrun: usize = 0;
        let mut i: usize = 0;
        proof {
            assert(orig.skip(0int) =~= orig);
        }
        while i < requested
            invariant
                0 <= i <= requested,
                orig.len() <= usize::MAX,
                out@.len() == i,
                forall|j: int| 0 <= j < i && j < orig.len() ==> out@[j] == orig[j],
                forall|j: int| orig.len() <= j < i ==> out@[j] == SILENCE,
                underrun == if i as int > orig.len() {
                    i as int - orig.len()
                } else {
                    0
                },
                self.data@ == orig.skip(
                    if i as int <= orig.len() {
                        i as int
                    } else {
                        orig.len() as int
                    },
                ),
                self.channels == old(self).channels,
                self.rate == old(self).rate,
                self.delay == device_delay,
            decreases requested - i,
        {
            if self.data.len() > 0 {
                let s = self.data.remove(0);
                proof {
                    assert(s == orig[i as int]);
                }
                out.push(s);
                proof {
                    assert(self.data@ =~= orig.skip(i as int + 1));
                }
            } else {
                out.push(SILENCE);
                underrun = underrun + 1;
            }
            i = i + 1;
        }
        (out, underrun)
    }

    /// Drops every queued sample; channel count, rate and delay stay. A
    /// seek clears the queue this way.
    pub fn clear_samples(&mut self)
        ensures
            final(self).data@ == Seq::<u32>::empty(),
            final(self).channels == old(self).channels,
            final(self).rate == old(self).rate,
            final(self).delay == old(self).delay,
            old(self).wf() ==> final(self).wf(),
    {
        self.data.clear();
    }
}

} // verus!
