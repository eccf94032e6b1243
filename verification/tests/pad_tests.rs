use gstplayer::bus::{DiagKind, DiagReason};
use gstplayer::manager::GstManager;
use gstplayer::node::{NodeKind, PlayState};
use gstplayer::outcome::PadOutcome;
use gstplayer::pad::Pad;

fn loaded_manager() -> GstManager {
    let mut m = GstManager::new();
    m.set_video_filename(Some("a.mpegts"));
    m
}

#[test]
fn capless_pad_draws_warning_and_mutates_nothing() {
    let mut m = loaded_manager();
    let mut pad = Pad::with_media_type(None);
    let outcome = m.handle_pad_added(&mut pad);
    assert_eq!(outcome, PadOutcome::Negotiation);
    assert!(!pad.linked);
    assert!(!m.pipeline.audio_sink_busy);
    assert!(!m.pipeline.video_sink_busy);
    assert_eq!(m.pipeline.n_sinkbin, 1);
    assert_eq!(m.pipeline.bus.len(), 1);
    let msg = m.pipeline.bus[0];
    assert_eq!(msg.kind, DiagKind::Warning);
    assert_eq!(msg.source, NodeKind::Demuxer);
    assert_eq!(msg.reason, DiagReason::Negotiation);
}

#[test]
fn unsupported_pad_draws_warning_and_stays_unwired() {
    let mut m = loaded_manager();
    let mut pad = Pad::with_media_type(Some("text/x-subtitle".to_string()));
    let outcome = m.handle_pad_added(&mut pad);
    assert_eq!(outcome, PadOutcome::Unsupported);
    assert!(!pad.linked);
    assert!(!m.pipeline.audio_sink_busy);
    assert!(!m.pipeline.video_sink_busy);
    assert_eq!(m.pipeline.n_sinkbin, 1);
    assert_eq!(m.pipeline.bus.len(), 1);
    let msg = m.pipeline.bus[0];
    assert_eq!(msg.kind, DiagKind::Warning);
    assert_eq!(msg.source, NodeKind::Demuxer);
    assert_eq!(msg.reason, DiagReason::UnsupportedType);
}

#[test]
fn unsupported_pad_warns_even_before_any_load() {
    let mut m = GstManager::new();
    let mut pad = Pad::with_media_type(Some("application/x-id3".to_string()));
    let outcome = m.handle_pad_added(&mut pad);
    assert_eq!(outcome, PadOutcome::Unsupported);
    assert!(!pad.linked);
    assert_eq!(m.pipeline.bus.len(), 1);
    assert_eq!(m.pipeline.bus[0].kind, DiagKind::Warning);
    assert_eq!(m.pipeline.bus[0].reason, DiagReason::UnsupportedType);
}

#[test]
fn diagnostic_messages_describe_themselves() {
    let mut m = loaded_manager();
    let mut capless = Pad::with_media_type(None);
    let mut subtitle = Pad::with_media_type(Some("text/x-subtitle".to_string()));
    m.handle_pad_added(&mut capless);
    m.handle_pad_added(&mut subtitle);
    assert_eq!(
        m.pipeline.bus[0].description(),
        "failed to get the media type from the pad"
    );
    assert_eq!(
        m.pipeline.bus[1].description(),
        "the pad's media type is neither audio nor video"
    );
    let mut first = Pad::with_media_type(Some("audio/mpeg".to_string()));
    let mut second = Pad::with_media_type(Some("audio/x-ac3".to_string()));
    m.handle_pad_added(&mut first);
    m.handle_pad_added(&mut second);
    assert_eq!(
        m.pipeline.bus[2].description(),
        "failed to link the pad to its sink"
    );
}

#[test]
fn handler_is_inert_before_any_load() {
    let mut m = GstManager::new();
    let mut pad = Pad::with_media_type(Some("audio/mpeg".to_string()));
    let outcome = m.handle_pad_added(&mut pad);
    assert_eq!(outcome, PadOutcome::Inactive);
    assert!(!pad.linked);
    assert!(m.pipeline.bus.is_empty());
}

#[test]
fn audio_pad_links_to_audio_branch() {
    let mut m = loaded_manager();
    let mut pad = Pad::with_media_type(Some("audio/mpeg".to_string()));
    let outcome = m.handle_pad_added(&mut pad);
    assert_eq!(outcome, PadOutcome::AudioLinked);
    assert!(pad.is_linked());
    assert!(m.pipeline.audio_sink_busy);
    assert!(m.pipeline.bus.is_empty());
}

#[test]
fn second_audio_track_fails_and_posts_error() {
    let mut m = loaded_manager();
    let mut first = Pad::with_media_type(Some("audio/mpeg".to_string()));
    let mut second = Pad::with_media_type(Some("audio/x-ac3".to_string()));
    assert_eq!(m.handle_pad_added(&mut first), PadOutcome::AudioLinked);
    let outcome = m.handle_pad_added(&mut second);
    assert_eq!(outcome, PadOutcome::LinkFailed);
    assert!(!second.linked);
    assert_eq!(m.pipeline.bus.len(), 1);
    let msg = m.pipeline.bus[0];
    assert_eq!(msg.kind, DiagKind::Error);
    assert_eq!(msg.source, NodeKind::Demuxer);
    assert_eq!(msg.reason, DiagReason::LinkFailed);
}

#[test]
fn repeated_event_for_same_pad_links_once() {
    let mut m = loaded_manager();
    let mut audio = Pad::with_media_type(Some("audio/mpeg".to_string()));
    assert_eq!(m.handle_pad_added(&mut audio), PadOutcome::AudioLinked);
    assert_eq!(m.handle_pad_added(&mut audio), PadOutcome::AlreadyLinked);
    assert!(m.pipeline.bus.is_empty());
    let mut video = Pad::with_media_type(Some("video/x-raw".to_string()));
    assert_eq!(m.handle_pad_added(&mut video), PadOutcome::VideoLinked);
    let before = m.pipeline.binsink_state;
    assert_eq!(m.handle_pad_added(&mut video), PadOutcome::AlreadyLinked);
    assert_eq!(m.pipeline.binsink_state, before);
    assert_eq!(m.pipeline.n_sinkbin, 1);
}

#[test]
fn video_pad_resyncs_sink_bin_before_link() {
    let mut m = loaded_manager();
    m.set_play_stream();
    // The sink bin was added while idle and never synchronized: force
    // the stale state a fresh insertion leaves behind.
    assert_eq!(m.pipeline.binsink_state, PlayState::Playing);
    m.pipeline.binsink_state = PlayState::Null;
    let mut video = Pad::with_media_type(Some("video/x-raw".to_string()));
    let outcome = m.handle_pad_added(&mut video);
    assert_eq!(outcome, PadOutcome::VideoLinked);
    assert_eq!(m.pipeline.binsink_state, PlayState::Playing);
    assert!(video.linked);
    assert!(m.pipeline.video_sink_busy);
    assert_eq!(m.pipeline.n_sinkbin, 1);
}

#[test]
fn reload_rewires_to_the_new_streams() {
    let mut m = GstManager::new();
    m.set_video_filename(Some("a.mpegts"));
    let mut a_audio = Pad::with_media_type(Some("audio/mpeg".to_string()));
    let mut a_video = Pad::with_media_type(Some("video/x-raw".to_string()));
    assert_eq!(m.handle_pad_added(&mut a_audio), PadOutcome::AudioLinked);
    assert_eq!(m.handle_pad_added(&mut a_video), PadOutcome::VideoLinked);

    m.set_video_filename(Some("b.mpegts"));
    // File A's wiring fell with its chain.
    assert!(!m.pipeline.audio_sink_busy);
    assert!(!m.pipeline.video_sink_busy);

    let mut b_audio = Pad::with_media_type(Some("audio/x-ac3".to_string()));
    let mut b_video = Pad::with_media_type(Some("video/mpeg".to_string()));
    assert_eq!(m.handle_pad_added(&mut b_audio), PadOutcome::AudioLinked);
    assert_eq!(m.handle_pad_added(&mut b_video), PadOutcome::VideoLinked);

    // Exactly one of each unit remains, wired to B's outputs.
    assert_eq!(m.pipeline.n_source, 1);
    assert_eq!(m.pipeline.n_demux, 1);
    assert_eq!(m.pipeline.n_sinkbin, 1);
    assert_eq!(m.pipeline.n_audio, 1);
    assert!(m.pipeline.audio_sink_busy);
    assert!(m.pipeline.video_sink_busy);
    assert!(b_audio.linked && b_video.linked);
    assert!(m.pipeline.bus.is_empty());
    assert_eq!(m.location.as_deref(), Some("b.mpegts"));
}

#[test]
fn pad_constructors_report_their_state() {
    let pad = Pad::with_media_type(Some("audio/mpeg".to_string()));
    assert!(!pad.is_linked());
    assert_eq!(pad.media_type.as_deref(), Some("audio/mpeg"));
    let bare = Pad::with_media_type(None);
    assert!(bare.media_type.is_none());
}
