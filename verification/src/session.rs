//! The playback session and the decode driver's decisions. One session owns
//! the two queues, the synchronization clock, and the last known audio
//! position; the decode loop asks it what to do after each packet: where to
//! route it, how long to sleep, how far to delay video, and how to carry
//! out a seek.

use vstd::prelude::*;

use crate::audio_queue::AudioQueue;
use crate::audio_queue::micros_for_samples;
use crate::clock::SyncAction;
use crate::clock::SyncClock;
use crate::frame::VideoFrame;
use crate::video_queue::VideoQueue;
use crate::video_queue::due_prefix_len;
use crate::video_queue::span;

verus! {

/// Stream time, in microseconds, the driver tries to keep buffered in each
/// queue before letting the display run.
pub const BUFFER_TARGET_MICROS: i64 = 250000;

/// A playback command from the UI thread, consumed by the decode driver
/// between packet reads.
#[derive(Clone, Copy, Debug, PartialEq, Eq, Structural)]
pub enum PlayerMessage {
    /// Seek this many microseconds relative to the current audio position.
    SeekRelative(i64),
}

/// A seek the driver asks the demuxer to carry out.
#[derive(Clone, Copy, Debug, PartialEq, Eq, Structural)]
pub struct SeekRequest {
    /// Absolute target, in microseconds of stream time; never negative.
    pub target_micros: i64,
    /// Backward seeks land on the nearest keyframe at or before the
    /// target; forward seeks on the nearest at or after it.
    pub backward: bool,
}

/// One thing the demuxer reported to the decode loop.
#[derive(Clone, Copy, Debug, PartialEq, Eq, Structural)]
pub enum DemuxEvent {
    /// A packet of some stream, with its timestamp converted to
    /// microseconds where known.
    Packet { stream_index: usize, pts_micros: Option<i64> },
    /// A read failure that is not a clean end of file.
    ReadError,
    /// Clean end of the container.
    EndOfFile,
}

/// What the decode loop must do with one demux event.
#[derive(Clone, Copy, Debug, PartialEq, Eq, Structural)]
pub enum DemuxOutcome {
    /// Hand the packet to the video decode path.
    RouteVideo,
    /// Hand the packet to the audio decode path.
    RouteAudio,
    /// A packet of no selected stream: drop it and carry on.
    Discard,
    /// End of stream: flush both decoders, drain what they still hold,
    /// then stop.
    FlushAndStop,
    /// A read error: log it and stop.
    Stop,
}

/// A session could not be constructed from the device's negotiated output.
#[derive(Clone, Copy, Debug, PartialEq, Eq, Structural)]
pub enum StartupError {
    /// Only mono and stereo output layouts are supported.
    UnsupportedChannelCount { channels: u16 },
    /// The device reported a zero sample rate.
    InvalidSampleRate,
}

/// Routes one demux event: packets go to their stream's decode path (the
/// video stream wins if both indices name it), end of file flushes and
/// stops, a read error stops.
pub fn demux_step(event: &DemuxEvent, video_index: usize, audio_index: usize) -> (r: DemuxOutcome)
    ensures
        r == match event {
            DemuxEvent::Packet { stream_index, .. } => {
                if stream_index == video_index {
                    DemuxOutcome::RouteVideo
                } else if stream_index == audio_index {
                    DemuxOutcome::RouteAudio
                } else {
                    DemuxOutcome::Discard
                }
            },
            DemuxEvent::EndOfFile => DemuxOutcome::FlushAndStop,
            DemuxEvent::ReadError => DemuxOutcome::Stop,
        },
{
    match event {
        DemuxEvent::Packet { stream_index, .. } => {
            if *stream_index == video_index {
                DemuxOutcome::RouteVideo
            } else if *stream_index == audio_index {
                DemuxOutcome::RouteAudio
            } else {
                DemuxOutcome::Discard
            }
        },
        DemuxEvent::EndOfFile => DemuxOutcome::FlushAndStop,
        DemuxEvent::ReadError => DemuxOutcome::Stop,
    }
}

/// The absolute seek target for a relative seek of `delta_micros` from
/// position `current_micros`: their sum, clamped to the stream's
/// nonnegative time range. The direction follows the sign of the delta.
pub fn compute_seek_target(current_micros: i64, delta_micros: i64) -> (r: SeekRequest)
    ensures
        r.backward == (delta_micros < 0),
        r.target_micros == if current_micros + delta_micros < 0 {
            0
        } else if current_micros + delta_micros > i64::MAX {
            i64::MAX
        } else {
            (current_micros + delta_micros) as i64
        },
        r.target_micros >= 0,
{
    let sum: i128 = current_micros as i128 + delta_micros as i128;
    let target: i64 = if sum < 0 {
        0
    } else if sum > i64::MAX as i128 {
        i64::MAX
    } else {
        sum as i64
    };
    SeekRequest { target_micros: target, backward: delta_micros < 0 }
}

/// The output delay video must carry: the shortfall of buffered video
/// against the target, so the display waits rather than starves, plus the
/// audio device's own latency, which video must always match.
pub fn video_delay_for(video_buffered: i64, audio_delay: i64, target: i64) -> (r: i64)
    requires
        0 <= video_buffered,
        0 <= audio_delay,
        0 <= target,
        target + audio_delay <= i64::MAX,
    ensures
        r == (if video_buffered < target {
            target - video_buffered
        } else {
            0
        }) + audio_delay,
        r >= audio_delay,
{
    let shortfall: i64 = if video_buffered < target {
        target - video_buffered
    } else {
        0
    };
    shortfall + audio_delay
}

/// How long the decode loop may sleep: the surplus of the emptier queue
/// over the target, and nothing while either queue is at or under it.
pub fn loop_sleep(video_buffered: i64, audio_buffered: i64, target: i64) -> (r: Option<i64>)
    requires
        0 <= video_buffered,
        0 <= audio_buffered,
        0 <= target,
    ensures
        ({
            let lesser = if video_buffered < audio_buffered {
                video_buffered
            } else {
                audio_buffered
            };
            r == if lesser > target {
                Some((lesser - target) as i64)
            } else {
                None::<i64>
            }
        }),
{
    let lesser: i64 = if video_buffered < audio_buffered {
        video_buffered
    } else {
        audio_buffered
    };
    if lesser > target {
        Some(lesser - target)
    } else {
        None
    }
}

/// Everything one playback of one container owns: the frame and sample
/// queues, the synchronization clock, and the last known audio position.
/// Created when playback starts, dropped when it ends; a seek resets the
/// clock and empties the queues but the session itself persists.
pub struct PlaybackSession {
    pub video: VideoQueue,
    pub audio: AudioQueue,
    pub clock: SyncClock,
    /// Stream time, in microseconds, of the last audio packet that carried
    /// a timestamp; seeks are computed relative to it.
    pub position: Option<i64>,
    /// Buffered stream time the pacing aims for in each queue.
    pub buffer_target: i64,
}

impl PlaybackSession {
    pub open spec fn wf(self) -> bool {
        &&& self.video.wf()
        &&& self.audio.wf()
        &&& 0 <= self.buffer_target
    }

    /// Starts a session for an audio device that negotiated `channels`
    /// interleaved channels at `rate` frames per second. Succeeds exactly
    /// for mono or stereo at a running rate; anything else is a
    /// configuration error, fatal at startup.
    pub fn new(channels: u16, rate: u32) -> (r: Result<PlaybackSession, StartupError>)
        ensures
            match r {
                Ok(s) => {
                    &&& (channels == 1 || channels == 2)
                    &&& rate >= 1
                    &&& s.wf()
                    &&& s.video.frames() == Seq::<VideoFrame>::empty()
                    &&& s.audio.data@ == Seq::<u32>::empty()
                    &&& s.audio.channels == channels
                    &&& s.audio.rate == rate
                    &&& s.audio.delay == 0
                    &&& s.video.delay() == 0
                    &&& s.clock.anchor() is None
                    &&& s.position is None
                    &&& s.buffer_target == BUFFER_TARGET_MICROS
                },
                Err(StartupError::UnsupportedChannelCount { channels: c }) => {
                    &&& c == channels
                    &&& !(channels == 1 || channels == 2)
                },
                Err(StartupError::InvalidSampleRate) => {
                    &&& (channels == 1 || channels == 2)
                    &&& rate == 0
                },
            },
    {
        if !(channels == 1 || channels == 2) {
            Err(StartupError::UnsupportedChannelCount { channels })
        } else if rate == 0 {
            Err(StartupError::InvalidSampleRate)
        } else {
            Ok(
                PlaybackSession {
                    video: VideoQueue::new(),
                    audio: AudioQueue::new(channels, rate),
                    clock: SyncClock::new(),
                    position: None,
                    buffer_target: BUFFER_TARGET_MICROS,
                },
            )
        }
    }

    /// Notes the timestamp of an audio packet: the session's position, the
    /// base of relative seeks. A packet with no timestamp leaves the last
    /// known position standing.
    pub fn note_audio_packet(&mut self, pts_micros: Option<i64>)
        ensures
            final(self).position == (if pts_micros is Some {
                pts_micros
            } else {
                old(self).position
            }),
            final(self).video == old(self).video,
            final(self).audio == old(self).audio,
            final(self).clock == old(self).clock,
            final(self).buffer_target == old(self).buffer_target,
    {
        if pts_micros.is_some() {
            self.position = pts_micros;
        }
    }

    /// Takes in one fully resampled audio chunk: every sample is appended
    /// to the audio queue — audio is never thinned — and the chunk's
    /// timestamp drives the synchronization clock: the first known one
    /// anchors it, later ones only measure drift.
    pub fn on_audio_chunk(&mut self, samples: &[u32], pts_micros: Option<i64>, now: i64) -> (r:
        SyncAction)
        requires
            pts_micros is Some && old(self).clock.anchor() is None ==> i64::MIN <= now
                - pts_micros->0 <= i64::MAX,
            old(self).clock.anchor() is Some && pts_micros is Some ==> -0x7fff_ffff_ffff_ffff
                <= pts_micros->0 - (now - old(self).clock.anchor()->0) <= 0x7fff_ffff_ffff_ffff,
        ensures
            final(self).audio.data@ == old(self).audio.data@ + samples@,
            final(self).audio.channels == old(self).audio.channels,
            final(self).audio.rate == old(self).audio.rate,
            final(self).audio.delay == old(self).audio.delay,
            final(self).video == old(self).video,
            final(self).position == old(self).position,
            final(self).buffer_target == old(self).buffer_target,
            old(self).clock.anchor() is Some ==> final(self).clock.anchor() == old(
                self,
            ).clock.anchor(),
            pts_micros is None ==> final(self).clock.anchor() == old(self).clock.anchor() && r
                == SyncAction::NoTimestamp,
            pts_micros is Some && old(self).clock.anchor() is None ==> final(self).clock.anchor()
                == Some((now - pts_micros->0) as i64) && r == SyncAction::Anchored,
            old(self).clock.anchor() is Some && pts_micros is Some ==> r == (if pts_micros->0
                > now - old(self).clock.anchor()->0 {
                SyncAction::Ahead {
                    surplus: (pts_micros->0 - (now - old(self).clock.anchor()->0)) as i64,
                }
            } else {
                SyncAction::Behind {
                    deficit: ((now - old(self).clock.anchor()->0) - pts_micros->0) as i64,
                }
            }),
            old(self).wf() ==> final(self).wf(),
    {
        self.audio.push_samples(samples);
        self.clock.on_chunk(pts_micros, now)
    }

    /// Recomputes the video output delay from what both queues hold, and
    /// says how long the decode loop may sleep. Run after every packet.
    pub fn update_pacing(&mut self) -> (r: Option<i64>)
        requires
            old(self).wf(),
            span(old(self).video.frames()) matches Some(lohi) ==> lohi.1 - lohi.0 <= i64::MAX,
            micros_for_samples(
                old(self).audio.data@.len() as int,
                old(self).audio.channels as int,
                old(self).audio.rate as int,
            ) <= i64::MAX,
            old(self).buffer_target + old(self).audio.delay <= i64::MAX,
        ensures
            final(self).wf(),
            ({
                let vd = match span(old(self).video.frames()) {
                    Some(lohi) => lohi.1 - lohi.0,
                    None => 0,
                };
                let ad = micros_for_samples(
                    old(self).audio.data@.len() as int,
                    old(self).audio.channels as int,
                    old(self).audio.rate as int,
                );
                let lesser = if vd < ad {
                    vd
                } else {
                    ad
                };
                &&& final(self).video.delay() == (if vd < old(self).buffer_target {
                    old(self).buffer_target - vd
                } else {
                    0
                }) + old(self).audio.delay
                &&& r == (if lesser > old(self).buffer_target {
                    Some((lesser - old(self).buffer_target) as i64)
                } else {
                    None::<i64>
                })
            }),
            final(self).video.frames() == old(self).video.frames(),
            final(self).audio == old(self).audio,
            final(self).clock == old(self).clock,
            final(self).position == old(self).position,
            final(self).buffer_target == old(self).buffer_target,
    {
        let video_buffered = self.video.duration();
        let audio_buffered = self.audio.duration();
        let audio_delay = self.audio.delay;
        let delay = video_delay_for(video_buffered, audio_delay, self.buffer_target);
        self.video.set_delay(delay);
        loop_sleep(video_buffered, audio_buffered, self.buffer_target)
    }

    /// Carries out a relative seek command. With a known position it
    /// computes the clamped absolute target and direction, clears the
    /// synchronization anchor — always, whatever its prior state — and
    /// purges both queues. With no position yet, the command is dropped.
    pub fn on_seek_command(&mut self, delta_micros: i64) -> (r: Option<SeekRequest>)
        requires
            old(self).wf(),
        ensures
            final(self).wf(),
            old(self).position is None ==> r is None && *final(self) == *old(self),
            old(self).position matches Some(cur) ==> {
                &&& r matches Some(req)
                &&& req.backward == (delta_micros < 0)
                &&& req.target_micros == if cur + delta_micros < 0 {
                    0
                } else if cur + delta_micros > i64::MAX {
                    i64::MAX
                } else {
                    (cur + delta_micros) as i64
                }
                &&& final(self).clock.anchor() is None
                &&& final(self).video.frames() == Seq::<VideoFrame>::empty()
                &&& final(self).audio.data@ == Seq::<u32>::empty()
                &&& final(self).video.delay() == old(self).video.delay()
                &&& final(self).audio.channels == old(self).audio.channels
                &&& final(self).audio.rate == old(self).audio.rate
                &&& final(self).audio.delay == old(self).audio.delay
                &&& final(self).position == old(self).position
                &&& final(self).buffer_target == old(self).buffer_target
            },
    {
        match self.position {
            None => None,
            Some(current) => {
                let request = compute_seek_target(current, delta_micros);
                self.clock.reset();
                self.audio.clear_samples();
                self.video.clear();
                Some(request)
            },
        }
    }

    /// The display's frame poll: hands out the most recent frame already
    /// due at `now` (older due frames are superseded and counted), or
    /// nothing while the head of the queue is still in the future.
    pub fn poll_frame(&mut self, now: i64) -> (r: (Option<VideoFrame>, usize))
        requires
            old(self).wf(),
        ensures
            final(self).wf(),
            ({
                let k = due_prefix_len(old(self).video.frames(), old(self).video.delay(), now);
                &&& final(self).video.frames() == old(self).video.frames().skip(k)
                &&& (k == 0 ==> r.0 is None && r.1 == 0)
                &&& (k > 0 ==> r.0 == Some(old(self).video.frames()[k - 1]) && r.1 == k - 1)
            }),
            final(self).video.delay() == old(self).video.delay(),
            final(self).audio == old(self).audio,
            final(self).clock == old(self).clock,
            final(self).position == old(self).position,
            final(self).buffer_target == old(self).buffer_target,
    {
        self.video.pop_due(now)
    }
}

} // verus!
