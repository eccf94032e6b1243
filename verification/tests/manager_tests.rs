use gstplayer::manager::GstManager;
use gstplayer::node::{NodeKind, PlayState};

#[test]
fn fresh_manager_is_empty() {
    let m = GstManager::new();
    let p = m.get_pipeline();
    assert_eq!(p.state, PlayState::Null);
    assert_eq!(p.n_source, 0);
    assert_eq!(p.n_demux, 0);
    assert_eq!(p.n_sinkbin, 0);
    assert_eq!(p.n_audio, 0);
    assert!(!p.src_demux_linked);
    assert!(p.bus.is_empty());
    assert!(m.location.is_none());
}

#[test]
fn paintable_sink_is_owned_by_the_sink_bin() {
    let m = GstManager::new();
    assert_eq!(m.get_paintable_sink().owner, NodeKind::SinkBin);
}

#[test]
fn build_pipeline_attaches_synchronized_audio_branch() {
    let mut m = GstManager::new();
    m.build_pipeline();
    assert!(m.built);
    assert_eq!(m.pipeline.n_audio, 1);
    assert_eq!(m.pipeline.audio_state, m.pipeline.state);
    // The source chain is not inserted by building alone.
    assert!(!m.added);
    assert_eq!(m.pipeline.n_source, 0);
}

#[test]
fn load_inserts_and_links_one_chain() {
    let mut m = GstManager::new();
    m.set_video_filename(Some("a.mpegts"));
    assert!(m.added && m.built);
    assert_eq!(m.pipeline.n_source, 1);
    assert_eq!(m.pipeline.n_demux, 1);
    assert_eq!(m.pipeline.n_sinkbin, 1);
    assert_eq!(m.pipeline.n_audio, 1);
    assert!(m.pipeline.src_demux_linked);
    assert!(!m.pipeline.audio_sink_busy);
    assert!(!m.pipeline.video_sink_busy);
    assert_eq!(m.location.as_deref(), Some("a.mpegts"));
    // Loading alone does not start playback.
    assert_eq!(m.pipeline.state, PlayState::Null);
}

#[test]
fn second_load_leaves_no_duplicates() {
    let mut m = GstManager::new();
    m.set_video_filename(Some("a.mpegts"));
    m.set_video_filename(Some("b.mpegts"));
    assert_eq!(m.pipeline.n_source, 1);
    assert_eq!(m.pipeline.n_demux, 1);
    assert_eq!(m.pipeline.n_sinkbin, 1);
    assert_eq!(m.pipeline.n_audio, 1);
    assert!(m.pipeline.src_demux_linked);
    assert_eq!(m.location.as_deref(), Some("b.mpegts"));
}

#[test]
fn reset_on_fresh_manager_is_noop() {
    let mut m = GstManager::new();
    m.reset();
    assert!(!m.added);
    assert_eq!(m.pipeline.n_source, 0);
    assert_eq!(m.pipeline.n_audio, 0);
    assert!(m.pipeline.bus.is_empty());
    // A second reset changes nothing either.
    m.reset();
    assert!(!m.added);
}

#[test]
fn reset_detaches_chain_but_keeps_audio_branch() {
    let mut m = GstManager::new();
    m.set_video_filename(Some("a.mpegts"));
    m.reset();
    assert!(!m.added);
    assert_eq!(m.pipeline.n_source, 0);
    assert_eq!(m.pipeline.n_demux, 0);
    assert_eq!(m.pipeline.n_sinkbin, 0);
    assert!(!m.pipeline.src_demux_linked);
    assert_eq!(m.pipeline.n_audio, 1);
    assert!(m.built);
}

#[test]
fn state_requests_propagate_to_members() {
    let mut m = GstManager::new();
    m.set_video_filename(Some("a.mpegts"));
    m.set_play_stream();
    assert_eq!(m.pipeline.state, PlayState::Playing);
    assert_eq!(m.pipeline.binsink_state, PlayState::Playing);
    assert_eq!(m.pipeline.audio_state, PlayState::Playing);
    m.set_pause_stream();
    assert_eq!(m.pipeline.state, PlayState::Paused);
    assert_eq!(m.pipeline.binsink_state, PlayState::Paused);
    m.set_stop_stream();
    assert_eq!(m.pipeline.state, PlayState::Null);
    assert_eq!(m.pipeline.audio_state, PlayState::Null);
}

#[test]
fn state_request_leaves_outside_units_alone() {
    let mut m = GstManager::new();
    // Nothing is a member yet, so nothing follows the pipeline.
    m.set_play_stream();
    assert_eq!(m.pipeline.state, PlayState::Playing);
    assert_eq!(m.pipeline.binsink_state, PlayState::Null);
    assert_eq!(m.pipeline.audio_state, PlayState::Null);
}
