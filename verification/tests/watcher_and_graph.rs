use shortwave::actions::PipelineAction;
use shortwave::events::Notification;
use shortwave::graph::{PipelineRunState, PlaybackCommand, StreamGraph};
use shortwave::playback_state::PlaybackState;
use shortwave::watcher::MetadataWatcher;

#[test]
fn watcher_reports_each_distinct_title_once() {
    let mut w = MetadataWatcher::new();
    assert_eq!(w.current_title(), "");
    assert!(w.on_tag("Song A"));
    assert!(!w.on_tag("Song A"));
    assert_eq!(w.current_title(), "Song A");
    assert!(w.on_tag("Song B"));
    assert!(!w.on_tag("Song B"));
    assert!(w.on_tag("Song A"));
    assert_eq!(w.current_title(), "Song A");
}

#[test]
fn watcher_compares_case_sensitively() {
    let mut w = MetadataWatcher::new();
    assert!(w.on_tag("song"));
    assert!(w.on_tag("Song"));
}

#[test]
fn fresh_graph_is_stopped_at_full_volume() {
    let g = StreamGraph::new();
    assert!(matches!(g.playback_state(), PlaybackState::Stopped));
    assert!(!g.has_session());
    assert!(!g.decode_linked());
    assert_eq!(g.volume(), 100);
}

#[test]
fn pipeline_states_translate_and_deduplicate() {
    let mut g = StreamGraph::new();
    let n = g.apply_pipeline_state(PipelineRunState::Ready);
    assert!(matches!(
        n,
        Some(Notification::PlaybackStateChanged(PlaybackState::Loading))
    ));
    // Paused also reads as Loading, so nothing new is announced.
    assert!(g.apply_pipeline_state(PipelineRunState::Paused).is_none());
    let n = g.apply_pipeline_state(PipelineRunState::Playing);
    assert!(matches!(
        n,
        Some(Notification::PlaybackStateChanged(PlaybackState::Playing))
    ));
    assert!(g.apply_pipeline_state(PipelineRunState::Playing).is_none());
    let n = g.apply_pipeline_state(PipelineRunState::Null);
    assert!(matches!(
        n,
        Some(Notification::PlaybackStateChanged(PlaybackState::Stopped))
    ));
}

#[test]
fn stopping_twice_announces_once() {
    let mut g = StreamGraph::new();
    g.apply_pipeline_state(PipelineRunState::Playing);
    let (acts, note) = g.set_playback_state(PlaybackCommand::Stop);
    assert!(matches!(acts[0], PipelineAction::StopPipeline));
    assert!(matches!(
        note,
        Some(Notification::PlaybackStateChanged(PlaybackState::Stopped))
    ));
    let (_, note) = g.set_playback_state(PlaybackCommand::Stop);
    assert!(note.is_none());
    assert!(matches!(g.playback_state(), PlaybackState::Stopped));
}

#[test]
fn play_command_only_starts_the_pipeline() {
    let mut g = StreamGraph::new();
    let (acts, note) = g.set_playback_state(PlaybackCommand::Play);
    assert!(matches!(acts[0], PipelineAction::StartPipeline));
    assert!(note.is_none());
    // The state changes only once the pipeline reports it.
    assert!(matches!(g.playback_state(), PlaybackState::Stopped));
}

#[test]
fn only_the_first_audio_pad_is_linked() {
    let mut g = StreamGraph::new();
    assert!(!g.on_pad_added(false)); // a video output is ignored
    assert!(g.on_pad_added(true));
    assert!(!g.on_pad_added(true)); // a second audio output is ignored
    assert!(g.decode_linked());
}

#[test]
fn open_resets_the_pad_latch_and_loads() {
    let mut g = StreamGraph::new();
    assert!(g.on_pad_added(true));
    let acts = g.open("http://example.org/stream");
    assert_eq!(acts.len(), 3);
    assert!(matches!(acts[0], PipelineAction::StopPipeline));
    match &acts[1] {
        PipelineAction::SetSourceUri(u) => assert_eq!(u, "http://example.org/stream"),
        other => panic!("expected SetSourceUri, got {other:?}"),
    }
    assert!(matches!(acts[2], PipelineAction::StartPipeline));
    assert!(matches!(g.playback_state(), PlaybackState::Loading));
    assert!(g.has_session());
    assert!(!g.decode_linked());
}

#[test]
fn same_failure_is_not_announced_twice() {
    let mut g = StreamGraph::new();
    let n = g.report_error("decoder choked".to_string());
    match n {
        Some(Notification::PlaybackStateChanged(PlaybackState::Failure(reason))) => {
            assert_eq!(reason, "decoder choked");
        }
        other => panic!("expected a failure notification, got {other:?}"),
    }
    assert!(g.report_error("decoder choked".to_string()).is_none());
    // A different failure is news again.
    assert!(g.report_error("sink gone".to_string()).is_some());
}

#[test]
fn volume_applies_to_playback_only() {
    let mut g = StreamGraph::new();
    let act = g.set_volume(40);
    assert!(matches!(act, PipelineAction::SetVolume(40)));
    assert_eq!(g.volume(), 40);
}
