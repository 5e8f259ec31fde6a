//! Core of a desktop media player: the decode-and-playback synchronization
//! pipeline. Decoded audio and video are buffered in queues, presentation
//! timing is computed from a synchronization anchor established by the audio
//! stream, and the decode driver paces itself against both queues.
//!
//! Demuxing, decoding, scaling and resampling themselves belong to the
//! multimedia framework; the audio device belongs to the platform audio
//! layer. This crate holds the data structures and decisions around them:
//! what to queue, what to discard, when to sleep, where to seek, and when
//! each frame is due on screen. All stream and wall-clock times are whole
//! microseconds.

mod audio_queue;
mod clock;
mod config;
mod frame;
mod hardware;
mod scale;
mod session;
mod timing;
mod video_queue;

pub use audio_queue::micros_for_samples;
pub use audio_queue::AudioQueue;
pub use audio_queue::SILENCE;
pub use clock::anchor_after_chunk;
pub use clock::anchor_as_int;
pub use clock::drift_skip;
pub use clock::drift_sleep;
pub use clock::lemma_anchor_established_once;
pub use clock::SyncAction;
pub use clock::SyncClock;
pub use clock::SYNC_SLACK_MICROS;
pub use config::AppTheme;
pub use config::Config;
pub use frame::VideoFrame;
pub use frame::BYTES_PER_PIXEL;
pub use hardware::DeviceType;
pub use hardware::InvalidSetting;
pub use hardware::lemma_short_names_injective;
pub use scale::presentation_instant;
pub use scale::take_latest;
pub use scale::ConverterSetup;
pub use session::compute_seek_target;
pub use session::demux_step;
pub use session::loop_sleep;
pub use session::video_delay_for;
pub use session::DemuxEvent;
pub use session::DemuxOutcome;
pub use session::PlaybackSession;
pub use session::PlayerMessage;
pub use session::SeekRequest;
pub use session::StartupError;
pub use session::BUFFER_TARGET_MICROS;
pub use timing::micros_of_pts;
pub use timing::pts_to_micros;
pub use timing::TimeBase;
pub use video_queue::due_prefix_len;
pub use video_queue::after_pushes;
pub use video_queue::frame_due;
pub use video_queue::instants_sorted;
pub use video_queue::keeps;
pub use video_queue::lemma_due_prefix_len_bounds;
pub use video_queue::lemma_presentation_order;
pub use video_queue::lemma_push_preserves_monotone;
pub use video_queue::lemma_pushes_monotone;
pub use video_queue::lemma_surviving_monotone;
pub use video_queue::pushed;
pub use video_queue::span;
pub use video_queue::surviving;
pub use video_queue::VideoQueue;
