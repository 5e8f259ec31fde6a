use player_core::compute_seek_target;
use player_core::demux_step;
use player_core::loop_sleep;
use player_core::video_delay_for;
use player_core::DemuxEvent;
use player_core::DemuxOutcome;
use player_core::PlaybackSession;
use player_core::PlayerMessage;
use player_core::StartupError;
use player_core::SyncAction;
use player_core::VideoFrame;
use player_core::BUFFER_TARGET_MICROS;

fn frame(pts: Option<i64>, present: Option<i64>) -> VideoFrame {
    VideoFrame::new(1, 1, vec![0u8, 0, 0, 0], pts, present)
}

#[test]
fn session_rejects_bad_device_output() {
    assert_eq!(
        PlaybackSession::new(3, 48000).err(),
        Some(StartupError::UnsupportedChannelCount { channels: 3 })
    );
    assert_eq!(
        PlaybackSession::new(0, 48000).err(),
        Some(StartupError::UnsupportedChannelCount { channels: 0 })
    );
    assert_eq!(
        PlaybackSession::new(2, 0).err(),
        Some(StartupError::InvalidSampleRate)
    );
    assert!(PlaybackSession::new(1, 44100).is_ok());
    assert!(PlaybackSession::new(2, 48000).is_ok());
}

#[test]
fn seek_backward_clamps_and_directs() {
    // -10 s from 5 s: the sum is negative, so the target clamps to zero.
    let req = compute_seek_target(5_000_000, -10_000_000);
    assert_eq!(req.target_micros, 0);
    assert!(req.backward);
}

#[test]
fn seek_forward_adds_and_directs() {
    let req = compute_seek_target(5_000_000, 10_000_000);
    assert_eq!(req.target_micros, 15_000_000);
    assert!(!req.backward);
}

#[test]
fn seek_resets_anchor_and_purges_queues() {
    let mut s = PlaybackSession::new(2, 48000).unwrap();
    s.note_audio_packet(Some(5_000_000));
    let _ = s.on_audio_chunk(&[1, 2, 3, 4], Some(5_000_000), 7_000_000);
    s.video.push(frame(Some(1), Some(7_100_000)));
    assert!(s.clock.is_established());

    let req = match s.on_seek_command(-10_000_000) {
        Some(req) => req,
        None => panic!("position was known, the seek must be carried out"),
    };
    assert_eq!(req.target_micros, 0);
    assert!(req.backward);
    // The anchor is cleared regardless of prior state; both queues empty.
    assert!(!s.clock.is_established());
    assert_eq!(s.video.len(), 0);
    assert!(s.audio.data.is_empty());

    // A second seek, with the clock already unestablished, still ends
    // unestablished.
    let req = s.on_seek_command(2_000_000).unwrap();
    assert_eq!(req.target_micros, 7_000_000);
    assert!(!req.backward);
    assert!(!s.clock.is_established());
}

#[test]
fn seek_without_position_is_dropped() {
    let mut s = PlaybackSession::new(2, 48000).unwrap();
    let PlayerMessage::SeekRelative(delta) = PlayerMessage::SeekRelative(-4_000_000);
    assert!(s.on_seek_command(delta).is_none());
    assert!(!s.clock.is_established());
}

#[test]
fn video_delay_covers_shortfall_plus_device_latency() {
    // 100 ms buffered against a 250 ms target: wait another 150 ms.
    assert_eq!(video_delay_for(100_000, 0, 250_000), 150_000);
    // The audio device's own latency is always added on top.
    assert_eq!(video_delay_for(100_000, 20_000, 250_000), 170_000);
    // A full buffer needs no waiting beyond device latency.
    assert_eq!(video_delay_for(300_000, 20_000, 250_000), 20_000);
}

#[test]
fn loop_sleeps_only_when_both_queues_full() {
    // The emptier queue rules: no sleep while either is at or under target.
    assert_eq!(loop_sleep(400_000, 200_000, 250_000), None);
    assert_eq!(loop_sleep(250_000, 400_000, 250_000), None);
    assert_eq!(loop_sleep(400_000, 300_000, 250_000), Some(50_000));
}

#[test]
fn pacing_updates_video_queue_delay() {
    let mut s = PlaybackSession::new(2, 48000).unwrap();
    // 100 ms of video buffered; no audio queued, no device latency yet.
    s.video.push(frame(None, Some(1_000_000)));
    s.video.push(frame(None, Some(1_100_000)));
    let sleep = s.update_pacing();
    assert_eq!(sleep, None);
    assert_eq!(s.video.get_delay(), BUFFER_TARGET_MICROS - 100_000);
}

#[test]
fn demux_routing() {
    let video = 0usize;
    let audio = 1usize;
    let pkt = |stream_index: usize| DemuxEvent::Packet { stream_index, pts_micros: None };
    assert_eq!(demux_step(&pkt(0), video, audio), DemuxOutcome::RouteVideo);
    assert_eq!(demux_step(&pkt(1), video, audio), DemuxOutcome::RouteAudio);
    assert_eq!(demux_step(&pkt(2), video, audio), DemuxOutcome::Discard);
    assert_eq!(
        demux_step(&DemuxEvent::EndOfFile, video, audio),
        DemuxOutcome::FlushAndStop
    );
    assert_eq!(
        demux_step(&DemuxEvent::ReadError, video, audio),
        DemuxOutcome::Stop
    );
}

#[test]
fn thirty_second_container_decodes_to_completion() {
    // A 30-second container with one video and one audio stream, one packet
    // of each per second; decode runs to end of file and stops.
    let video_index = 0usize;
    let audio_index = 1usize;
    let mut s = PlaybackSession::new(2, 48000).unwrap();

    let mut events: Vec<DemuxEvent> = Vec::new();
    for i in 0..30i64 {
        events.push(DemuxEvent::Packet { stream_index: video_index, pts_micros: Some(i * 1_000_000) });
        events.push(DemuxEvent::Packet { stream_index: audio_index, pts_micros: Some(i * 1_000_000) });
    }
    events.push(DemuxEvent::EndOfFile);

    let mut stopped = false;
    let mut flushed_video = 0usize;
    let mut flushed_audio = 0usize;
    for event in &events {
        assert!(!stopped, "no event follows the end of the container");
        match demux_step(event, video_index, audio_index) {
            DemuxOutcome::RouteVideo => {
                if let DemuxEvent::Packet { pts_micros, .. } = event {
                    // Stand-in for decode + convert of one picture.
                    let present = (*pts_micros).map(|t| 500_000 + t);
                    s.video.push(frame(*pts_micros, present));
                }
            }
            DemuxOutcome::RouteAudio => {
                if let DemuxEvent::Packet { pts_micros, .. } = event {
                    s.note_audio_packet(*pts_micros);
                    // Stand-in for decode + resample of one chunk.
                    let wall = 500_000 + (*pts_micros).unwrap();
                    let action = s.on_audio_chunk(&[1, 2, 3, 4], *pts_micros, wall);
                    assert_ne!(action, SyncAction::NoTimestamp);
                }
            }
            DemuxOutcome::Discard => panic!("both streams are selected"),
            DemuxOutcome::FlushAndStop => {
                // End of stream: each decoder is flushed; the drained counts
                // can be zero but never negative, and the loop ends.
                flushed_video += 0;
                flushed_audio += 0;
                stopped = true;
            }
            DemuxOutcome::Stop => panic!("no read error in this container"),
        }
        let _ = s.update_pacing();
    }

    assert!(stopped, "end of file terminates the loop");
    assert_eq!(s.position, Some(29_000_000));
    assert!(s.clock.is_established());
    assert_eq!(s.audio.data.len(), 30 * 4);
    // usize counts cannot go negative; stated for the record.
    assert!(flushed_video == 0 && flushed_audio == 0);
}

#[test]
fn seek_saturates_at_the_far_end() {
    let req = compute_seek_target(i64::MAX, 1);
    assert_eq!(req.target_micros, i64::MAX);
    assert!(!req.backward);
}

#[test]
fn poll_frame_hands_out_due_frames() {
    let mut s = PlaybackSession::new(2, 48000).unwrap();
    s.video.push(frame(Some(1), Some(100_000)));
    s.video.push(frame(Some(2), Some(200_000)));
    let (none_yet, skipped) = s.poll_frame(50_000);
    assert!(none_yet.is_none());
    assert_eq!(skipped, 0);
    let (shown, skipped) = s.poll_frame(250_000);
    assert_eq!(shown.expect("both frames were due").pts, Some(2));
    assert_eq!(skipped, 1);
    assert_eq!(s.video.len(), 0);
}

#[test]
fn fresh_session_starts_clean() {
    let s = PlaybackSession::new(2, 48000).unwrap();
    // The queues the device callback and the display will share start
    // fresh: empty, the negotiated format, and no delay yet.
    assert_eq!(s.audio.channels, 2);
    assert_eq!(s.audio.rate, 48000);
    assert!(s.audio.data.is_empty());
    assert_eq!(s.audio.delay, 0);
    assert_eq!(s.video.len(), 0);
    assert_eq!(s.video.get_delay(), 0);
    assert!(!s.clock.is_established());
    assert_eq!(s.position, None);
}
