use shortwave::actions::PipelineAction;
use shortwave::controller::CapturePhase;
use shortwave::events::Notification;
use shortwave::graph::{PipelineRunState, PlaybackCommand};
use shortwave::player::{BusMessage, GstreamerMessage, Player};
use shortwave::playback_state::PlaybackState;

fn fresh() -> Player {
    Player::new("/cap".to_string())
}

fn drain(p: &mut Player) -> Vec<Notification> {
    let mut out = Vec::new();
    while let Some(n) = p.take_notification() {
        out.push(n);
    }
    out
}

/// Feeds one raw message through translation and orchestration.
fn feed(p: &mut Player, raw: BusMessage, now_ms: u64) -> Vec<PipelineAction> {
    match p.parse_bus_message(raw) {
        Some(msg) => p.process_gst_message(msg, now_ms),
        None => Vec::new(),
    }
}

#[test]
fn title_then_title_completes_the_first_segment_before_the_second_writer() {
    let mut p = fresh();
    let acts = feed(&mut p, BusMessage::Tag("Song A".to_string()), 0);
    assert!(matches!(&acts[0], PipelineAction::CreateWriterChain(path) if path == "/cap/Song A.ogg"));
    assert!(p.is_recording());

    let acts = feed(&mut p, BusMessage::Tag("Song B".to_string()), 60_000);
    assert!(matches!(acts[0], PipelineAction::BlockCaptureGate));
    assert!(matches!(acts[1], PipelineAction::InjectWriterEos));
    assert!(matches!(p.capture_phase(), CapturePhase::Swapping));

    let acts = feed(&mut p, BusMessage::WriterEos, 60_200);
    assert!(matches!(acts[0], PipelineAction::TeardownWriterChain));
    assert!(matches!(&acts[1], PipelineAction::CreateWriterChain(path) if path == "/cap/Song B.ogg"));
    assert!(matches!(acts[2], PipelineAction::ReleaseCaptureGate));
    assert!(matches!(p.capture_phase(), CapturePhase::Writing));
    assert!(p.is_recording());

    let notes = drain(&mut p);
    assert_eq!(notes.len(), 3);
    assert!(matches!(&notes[0], Notification::TitleChanged(t) if t == "Song A"));
    match &notes[1] {
        Notification::SegmentCompleted(s) => {
            assert_eq!(s.title, "Song A");
            assert_eq!(s.path, "/cap/Song A.ogg");
            assert_eq!(s.duration_ms, 60_200);
        }
        other => panic!("expected SegmentCompleted before the next title, got {other:?}"),
    }
    assert!(matches!(&notes[2], Notification::TitleChanged(t) if t == "Song B"));
    assert_eq!(p.history().len(), 1);
}

#[test]
fn stop_before_the_next_title_discards_without_a_segment() {
    let mut p = fresh();
    feed(&mut p, BusMessage::StateChanged(PipelineRunState::Playing), 0);
    feed(&mut p, BusMessage::Tag("Song A".to_string()), 0);
    drain(&mut p);

    let acts = p.set_playback(PlaybackCommand::Stop);
    assert!(matches!(acts[0], PipelineAction::StopPipeline));
    assert!(matches!(&acts[1], PipelineAction::DeleteFile(path) if path == "/cap/Song A.ogg"));
    assert!(matches!(acts[2], PipelineAction::TeardownWriterChain));
    assert!(!p.is_recording());
    assert_eq!(p.history().len(), 0);

    let notes = drain(&mut p);
    assert_eq!(notes.len(), 1);
    assert!(matches!(
        &notes[0],
        Notification::PlaybackStateChanged(PlaybackState::Stopped)
    ));
    assert!(!notes
        .iter()
        .any(|n| matches!(n, Notification::SegmentCompleted(_))));
}

#[test]
fn a_repeated_title_is_suppressed_entirely() {
    let mut p = fresh();
    feed(&mut p, BusMessage::Tag("Song A".to_string()), 0);
    drain(&mut p);

    assert!(p
        .parse_bus_message(BusMessage::Tag("Song A".to_string()))
        .is_none());
    assert!(matches!(p.capture_phase(), CapturePhase::Writing));
    assert!(drain(&mut p).is_empty());
}

#[test]
fn stopping_twice_notifies_stopped_once() {
    let mut p = fresh();
    feed(&mut p, BusMessage::StateChanged(PipelineRunState::Playing), 0);
    drain(&mut p);

    p.set_playback(PlaybackCommand::Stop);
    p.set_playback(PlaybackCommand::Stop);
    let stops = drain(&mut p)
        .iter()
        .filter(|n| matches!(n, Notification::PlaybackStateChanged(PlaybackState::Stopped)))
        .count();
    assert_eq!(stops, 1);
    assert!(!p.is_recording());
}

#[test]
fn confirmed_title_run_completes_all_but_the_last() {
    let mut p = fresh();
    for (i, title) in ["Song A", "Song B", "Song C", "Song D"].iter().enumerate() {
        let now = (i as u64) * 1000;
        feed(&mut p, BusMessage::Tag(title.to_string()), now);
        feed(&mut p, BusMessage::WriterEos, now + 10);
    }
    let completed = drain(&mut p)
        .iter()
        .filter(|n| matches!(n, Notification::SegmentCompleted(_)))
        .count();
    assert_eq!(completed, 3);
    assert!(p.is_recording());
    assert_eq!(p.history().len(), 3);
}

#[test]
fn a_hostile_title_still_yields_a_clean_file_name() {
    let mut p = fresh();
    let acts = feed(&mut p, BusMessage::Tag("A/B:C".to_string()), 0);
    match &acts[0] {
        PipelineAction::CreateWriterChain(path) => {
            assert_eq!(path, "/cap/ABC.ogg");
            let name = path.strip_prefix("/cap/").unwrap();
            for c in ['/', '\\', ':', '<', '>', '"', '|', '?', '*'] {
                assert!(!name.contains(c));
            }
        }
        other => panic!("expected CreateWriterChain, got {other:?}"),
    }
}

#[test]
fn a_pipeline_error_fails_the_session_and_discards() {
    let mut p = fresh();
    feed(&mut p, BusMessage::Tag("Song A".to_string()), 0);
    drain(&mut p);

    let acts = feed(&mut p, BusMessage::Error("decoder choked".to_string()), 100);
    assert!(matches!(&acts[0], PipelineAction::DeleteFile(path) if path == "/cap/Song A.ogg"));
    assert!(!p.is_recording());
    match p.playback_state() {
        PlaybackState::Failure(reason) => assert_eq!(reason, "decoder choked"),
        other => panic!("expected Failure, got {other:?}"),
    }
    let notes = drain(&mut p);
    assert!(matches!(
        &notes[0],
        Notification::PlaybackStateChanged(PlaybackState::Failure(_))
    ));
    // The same error again is not announced a second time.
    assert!(p
        .parse_bus_message(BusMessage::Error("decoder choked".to_string()))
        .is_none());
}

#[test]
fn resolver_failure_surfaces_as_failure() {
    let mut p = fresh();
    let acts = p.on_resolve_failed("no playable url".to_string());
    assert!(acts.is_empty());
    match p.playback_state() {
        PlaybackState::Failure(reason) => assert_eq!(reason, "no playable url"),
        other => panic!("expected Failure, got {other:?}"),
    }
}

#[test]
fn open_session_stops_discards_and_loads() {
    let mut p = fresh();
    feed(&mut p, BusMessage::StateChanged(PipelineRunState::Playing), 0);
    feed(&mut p, BusMessage::Tag("Song A".to_string()), 0);
    drain(&mut p);

    let acts = p.open_session("http://radio.example/stream");
    assert!(matches!(acts[0], PipelineAction::StopPipeline));
    assert!(matches!(&acts[1], PipelineAction::DeleteFile(path) if path == "/cap/Song A.ogg"));
    let n = acts.len();
    assert!(matches!(acts[n - 3], PipelineAction::StopPipeline));
    assert!(matches!(&acts[n - 2], PipelineAction::SetSourceUri(u) if u == "http://radio.example/stream"));
    assert!(matches!(acts[n - 1], PipelineAction::StartPipeline));
    assert!(matches!(p.playback_state(), PlaybackState::Loading));
    assert!(!p.is_recording());
}

#[test]
fn stuck_swap_times_out_into_failure() {
    let mut p = fresh();
    feed(&mut p, BusMessage::Tag("Song A".to_string()), 0);
    feed(&mut p, BusMessage::Tag("Song B".to_string()), 100);
    drain(&mut p);

    assert!(p.on_tick(5_000).is_empty());
    assert!(matches!(p.capture_phase(), CapturePhase::Swapping));

    let acts = p.on_tick(100_000);
    assert!(matches!(&acts[0], PipelineAction::DeleteFile(path) if path == "/cap/Song A.ogg"));
    assert!(matches!(p.capture_phase(), CapturePhase::Idle));
    let notes = drain(&mut p);
    match &notes[0] {
        Notification::PlaybackStateChanged(PlaybackState::Failure(reason)) => {
            assert_eq!(reason, "segment swap timed out");
        }
        other => panic!("expected a timeout failure, got {other:?}"),
    }
}

#[test]
fn writer_start_failure_returns_to_idle() {
    let mut p = fresh();
    feed(&mut p, BusMessage::Tag("Song A".to_string()), 0);
    p.on_writer_start_failed();
    assert!(matches!(p.capture_phase(), CapturePhase::Idle));
    assert!(!p.is_recording());
}

#[test]
fn shutdown_stops_and_deletes_the_whole_history() {
    let mut p = fresh();
    for (i, title) in ["Song A", "Song B", "Song C"].iter().enumerate() {
        let now = (i as u64) * 1000;
        feed(&mut p, BusMessage::Tag(title.to_string()), now);
        feed(&mut p, BusMessage::WriterEos, now + 10);
    }
    drain(&mut p);
    assert_eq!(p.history().len(), 2);

    let acts = p.shutdown();
    assert!(matches!(acts[0], PipelineAction::StopPipeline));
    // The active writer's file goes, then both kept files, newest first.
    assert!(matches!(&acts[1], PipelineAction::DeleteFile(path) if path == "/cap/Song C.ogg"));
    assert!(matches!(acts[2], PipelineAction::TeardownWriterChain));
    assert!(matches!(&acts[3], PipelineAction::DeleteFile(path) if path == "/cap/Song B.ogg"));
    assert!(matches!(&acts[4], PipelineAction::DeleteFile(path) if path == "/cap/Song A.ogg"));
    assert_eq!(p.history().len(), 0);
    assert!(!p.is_recording());
}

#[test]
fn notifications_come_out_in_the_order_they_were_raised() {
    let mut p = fresh();
    feed(&mut p, BusMessage::StateChanged(PipelineRunState::Ready), 0);
    feed(&mut p, BusMessage::StateChanged(PipelineRunState::Playing), 0);
    feed(&mut p, BusMessage::Tag("Song A".to_string()), 0);
    let notes = drain(&mut p);
    assert!(matches!(
        &notes[0],
        Notification::PlaybackStateChanged(PlaybackState::Loading)
    ));
    assert!(matches!(
        &notes[1],
        Notification::PlaybackStateChanged(PlaybackState::Playing)
    ));
    assert!(matches!(&notes[2], Notification::TitleChanged(t) if t == "Song A"));
}

#[test]
fn history_eviction_deletes_the_oldest_file() {
    let mut p = fresh();
    // Seven confirmed titles finish six segments; the history keeps five.
    for (i, title) in ["S1", "S2", "S3", "S4", "S5", "S6", "S7"].iter().enumerate() {
        let now = (i as u64) * 1000;
        feed(&mut p, BusMessage::Tag(title.to_string()), now);
        let acts = feed(&mut p, BusMessage::WriterEos, now + 10);
        if *title == "S7" {
            // Completing S6 overflows the history: S1's file is deleted.
            assert!(matches!(&acts[acts.len() - 1], PipelineAction::DeleteFile(path) if path == "/cap/S1.ogg"));
        }
    }
    assert_eq!(p.history().len(), 5);
    assert_eq!(p.history().get_song(0).title, "S6");
    assert_eq!(p.history().get_song(4).title, "S2");
}

#[test]
fn pad_discovery_and_volume_pass_through() {
    let mut p = fresh();
    assert!(p.on_pad_added(true));
    assert!(!p.on_pad_added(true));
    let act = p.set_volume(30);
    assert!(matches!(act, PipelineAction::SetVolume(30)));
}

#[test]
fn translated_messages_carry_the_expected_payloads() {
    let mut p = fresh();
    match p.parse_bus_message(BusMessage::Tag("Song A".to_string())) {
        Some(GstreamerMessage::SongTitleChanged(t)) => assert_eq!(t, "Song A"),
        other => panic!("expected SongTitleChanged, got {other:?}"),
    }
    match p.parse_bus_message(BusMessage::WriterEos) {
        Some(GstreamerMessage::RecordingStopped) => {}
        other => panic!("expected RecordingStopped, got {other:?}"),
    }
    match p.parse_bus_message(BusMessage::StateChanged(PipelineRunState::Playing)) {
        Some(GstreamerMessage::PlaybackStateChanged(PlaybackState::Playing)) => {}
        other => panic!("expected PlaybackStateChanged, got {other:?}"),
    }
    assert_eq!(p.current_title(), "Song A");
}
