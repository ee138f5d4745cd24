use now_playing::bridge::{EventBridge, SessionSnapshot};
use now_playing::media_status::{
    format_now_playing, MediaDuration, MediaEvent, PlayStatus, TrackInfo,
};
use now_playing::ui::Ui;

fn sample_track() -> TrackInfo {
    TrackInfo {
        artist: "A".to_string(),
        album: "Alb".to_string(),
        album_artist: "AA".to_string(),
        track_num: 1,
        title: "T".to_string(),
    }
}

fn sample_snapshot() -> SessionSnapshot {
    SessionSnapshot {
        source_id: "com.example.app".to_string(),
        status_code: 4,
        track: sample_track(),
        position_ticks: 300_000_000,
        length_ticks: 1_200_000_000,
    }
}

const PREFIX: &str = "\u{1B}[u\u{1B}[2K";
const LINE_BREAK: &str = "\u{1B}[1B\u{1B}[2K";
const NO_SESSION: &str = "no active session\n\u{1B}[2K";

#[test]
fn status_code_mapping() {
    assert_eq!(PlayStatus::from_code(0), PlayStatus::Closed);
    assert_eq!(PlayStatus::from_code(1), PlayStatus::Opened);
    assert_eq!(PlayStatus::from_code(2), PlayStatus::Changing);
    assert_eq!(PlayStatus::from_code(3), PlayStatus::Stopped);
    assert_eq!(PlayStatus::from_code(4), PlayStatus::Playing);
    assert_eq!(PlayStatus::from_code(5), PlayStatus::Paused);
    assert_eq!(PlayStatus::from_code(6), PlayStatus::Unknown);
    assert_eq!(PlayStatus::from_code(-1), PlayStatus::Unknown);
}

#[test]
fn duration_from_ticks() {
    assert_eq!(MediaDuration::from_ticks(-5).nanos, 0);
    assert_eq!(MediaDuration::from_ticks(0).nanos, 0);
    assert_eq!(MediaDuration::from_ticks(10).nanos, 1000);
    assert_eq!(MediaDuration::from_ticks(i64::MAX).nanos, u64::MAX);
    assert_eq!(MediaDuration::from_secs(2).as_secs(), 2);
}

#[test]
fn now_playing_line() {
    let line = format_now_playing(&sample_track());
    assert_eq!(line, "A - T [Alb]");
}

#[test]
fn mm_ss_split() {
    assert_eq!(Ui::to_mm_ss(&MediaDuration::from_secs(125)), (2, 5));
    assert_eq!(Ui::to_mm_ss(&MediaDuration::from_secs(3600)), (60, 0));
    assert_eq!(Ui::to_mm_ss(&MediaDuration::from_secs(0)), (0, 0));
}

#[test]
fn status_glyphs() {
    assert_eq!(Ui::to_status_char(&Some(PlayStatus::Playing)), '>');
    assert_eq!(Ui::to_status_char(&Some(PlayStatus::Paused)), '|');
    assert_eq!(Ui::to_status_char(&Some(PlayStatus::Stopped)), '_');
    assert_eq!(Ui::to_status_char(&Some(PlayStatus::Changing)), '?');
    assert_eq!(Ui::to_status_char(&None), '?');
}

#[test]
fn bootstrap_sequence_order() {
    let mut bridge = EventBridge::new(Some(sample_snapshot()));
    assert_eq!(bridge.pending(), 4);
    match bridge.next_event() {
        Some(MediaEvent::SourceAppChanged(Some(id))) => assert_eq!(id, "com.example.app"),
        other => panic!("expected SourceAppChanged(Some(_)), got {:?}", other),
    }
    match bridge.next_event() {
        Some(MediaEvent::PlayStatusChanged(status)) => assert_eq!(status, PlayStatus::Playing),
        other => panic!("expected PlayStatusChanged, got {:?}", other),
    }
    match bridge.next_event() {
        Some(MediaEvent::InfoChanged(track)) => assert_eq!(track, sample_track()),
        other => panic!("expected InfoChanged, got {:?}", other),
    }
    match bridge.next_event() {
        Some(MediaEvent::PositionChanged { current, length }) => {
            assert_eq!(current.nanos, 30_000_000_000);
            assert_eq!(length.nanos, 120_000_000_000);
        }
        other => panic!("expected PositionChanged, got {:?}", other),
    }
    assert!(bridge.next_event().is_none());
}

#[test]
fn open_without_session_emits_nothing() {
    let mut bridge = EventBridge::new(None);
    assert_eq!(bridge.pending(), 0);
    assert!(bridge.next_event().is_none());
}

#[test]
fn session_change_to_none_emits_single_marker() {
    let mut bridge = EventBridge::new(None);
    bridge.on_session_changed(None);
    assert_eq!(bridge.pending(), 1);
    assert!(matches!(
        bridge.next_event(),
        Some(MediaEvent::SourceAppChanged(None))
    ));
    assert!(bridge.next_event().is_none());
}

#[test]
fn session_change_to_new_session_repeats_bootstrap() {
    let mut bridge = EventBridge::new(None);
    bridge.on_session_changed(Some(sample_snapshot()));
    assert_eq!(bridge.pending(), 4);
    assert!(matches!(
        bridge.next_event(),
        Some(MediaEvent::SourceAppChanged(Some(_)))
    ));
    assert!(matches!(
        bridge.next_event(),
        Some(MediaEvent::PlayStatusChanged(PlayStatus::Playing))
    ));
    assert!(matches!(bridge.next_event(), Some(MediaEvent::InfoChanged(_))));
    assert!(matches!(
        bridge.next_event(),
        Some(MediaEvent::PositionChanged { .. })
    ));
}

#[test]
fn failed_fetch_is_skipped_silently() {
    let mut bridge = EventBridge::new(None);
    bridge.on_media_properties(None);
    bridge.on_timeline_properties(None);
    bridge.on_playback_info(None);
    assert_eq!(bridge.pending(), 0);
}

#[test]
fn adapters_enqueue_one_event_each() {
    let mut bridge = EventBridge::new(None);
    bridge.on_media_properties(Some(sample_track()));
    bridge.on_timeline_properties(Some((10, 20)));
    bridge.on_playback_info(Some(5));
    assert_eq!(bridge.pending(), 3);
    assert!(matches!(bridge.next_event(), Some(MediaEvent::InfoChanged(_))));
    match bridge.next_event() {
        Some(MediaEvent::PositionChanged { current, length }) => {
            assert_eq!(current.nanos, 1000);
            assert_eq!(length.nanos, 2000);
        }
        other => panic!("expected PositionChanged, got {:?}", other),
    }
    assert!(matches!(
        bridge.next_event(),
        Some(MediaEvent::PlayStatusChanged(PlayStatus::Paused))
    ));
}

#[test]
fn overflow_drops_oldest_and_keeps_order() {
    let mut bridge = EventBridge::new(None);
    for i in 0..25 {
        bridge.on_timeline_properties(Some((i, i)));
    }
    assert_eq!(bridge.pending(), 20);
    for i in 5..25 {
        match bridge.next_event() {
            Some(MediaEvent::PositionChanged { current, .. }) => {
                assert_eq!(current.nanos, (i as u64) * 100);
            }
            other => panic!("expected PositionChanged, got {:?}", other),
        }
    }
    assert!(bridge.next_event().is_none());
}

#[test]
fn closed_bridge_forwards_nothing() {
    let mut bridge = EventBridge::new(None);
    bridge.on_playback_info(Some(4));
    bridge.close();
    assert!(!bridge.live());
    bridge.on_playback_info(Some(5));
    bridge.on_session_changed(Some(sample_snapshot()));
    bridge.on_media_properties(Some(sample_track()));
    bridge.on_timeline_properties(Some((1, 2)));
    assert_eq!(bridge.pending(), 1);
    assert!(matches!(
        bridge.next_event(),
        Some(MediaEvent::PlayStatusChanged(PlayStatus::Playing))
    ));
    assert!(bridge.next_event().is_none());
}

#[test]
fn fresh_ui_renders_no_session() {
    let ui = Ui::new();
    let expected = format!("{}{}", PREFIX, NO_SESSION);
    assert_eq!(ui.render(), expected);
}

#[test]
fn session_vanishing_clears_both_lines() {
    let mut ui = Ui::new();
    ui.update_source(Some("com.example.app".to_string()));
    ui.update_track(Some(sample_track()));
    ui.update_status(Some(PlayStatus::Playing));
    ui.update_timeline(
        Some(MediaDuration::from_secs(30)),
        Some(MediaDuration::from_secs(120)),
    );
    let out = ui.update_source(None);
    let expected = format!("{}{}", PREFIX, NO_SESSION);
    assert_eq!(out, expected);
}

#[test]
fn end_to_end_scenario_frame() {
    let mut ui = Ui::new();
    ui.update_source(Some("com.example.app".to_string()));
    ui.update_status(Some(PlayStatus::Playing));
    ui.update_track(Some(sample_track()));
    let out = ui.update_timeline(
        Some(MediaDuration::from_secs(30)),
        Some(MediaDuration::from_secs(120)),
    );
    let expected = format!(
        "{}[com.example.app] A - T [Alb]\r{}> 00:30 ( 25 %) [{}>{}] 02:00\r",
        PREFIX,
        LINE_BREAK,
        "=".repeat(12),
        " ".repeat(37),
    );
    assert_eq!(out, expected);
}

#[test]
fn metadata_not_yet_arrived_blanks_track_fields() {
    let mut ui = Ui::new();
    let out = ui.update_source(Some("com.example.app".to_string()));
    let expected = format!(
        "{}[com.example.app]  -  []\r{}? No position/length info",
        PREFIX, LINE_BREAK,
    );
    assert_eq!(out, expected);
}

#[test]
fn progress_bar_at_fraction_zero() {
    let mut ui = Ui::new();
    ui.update_source(Some("com.example.app".to_string()));
    ui.update_track(Some(sample_track()));
    ui.update_status(Some(PlayStatus::Paused));
    let out = ui.update_timeline(
        Some(MediaDuration::from_secs(0)),
        Some(MediaDuration::from_secs(120)),
    );
    let expected = format!(
        "{}[com.example.app] A - T [Alb]\r{}| 00:00 (  0 %) [>{}] 02:00\r",
        PREFIX,
        LINE_BREAK,
        " ".repeat(49),
    );
    assert_eq!(out, expected);
}

#[test]
fn progress_bar_at_fraction_one() {
    let mut ui = Ui::new();
    ui.update_source(Some("com.example.app".to_string()));
    ui.update_track(Some(sample_track()));
    ui.update_status(Some(PlayStatus::Stopped));
    let out = ui.update_timeline(
        Some(MediaDuration::from_secs(120)),
        Some(MediaDuration::from_secs(120)),
    );
    let expected = format!(
        "{}[com.example.app] A - T [Alb]\r{}_ 02:00 (100 %) [{}>] 02:00\r",
        PREFIX,
        LINE_BREAK,
        "=".repeat(49),
    );
    assert_eq!(out, expected);
}

#[test]
fn zero_length_counts_as_fraction_zero() {
    let mut ui = Ui::new();
    ui.update_source(Some("com.example.app".to_string()));
    let out = ui.update_timeline(
        Some(MediaDuration::from_secs(30)),
        Some(MediaDuration::from_secs(0)),
    );
    let expected = format!(
        "{}[com.example.app]  -  []\r{}? 00:30 (  0 %) [>{}] 00:00\r",
        PREFIX,
        LINE_BREAK,
        " ".repeat(49),
    );
    assert_eq!(out, expected);
}

#[test]
fn duration_formatting_unbounded_minutes() {
    let mut ui = Ui::new();
    ui.update_source(Some("com.example.app".to_string()));
    let out = ui.update_timeline(
        Some(MediaDuration::from_secs(125)),
        Some(MediaDuration::from_secs(3600)),
    );
    let expected = format!(
        "{}[com.example.app]  -  []\r{}? 02:05 (  3 %) [=>{}] 60:00\r",
        PREFIX,
        LINE_BREAK,
        " ".repeat(48),
    );
    assert_eq!(out, expected);
}

#[test]
fn repaint_with_unchanged_state_is_identical() {
    let mut ui = Ui::new();
    ui.update_source(Some("com.example.app".to_string()));
    ui.update_track(Some(sample_track()));
    ui.update_status(Some(PlayStatus::Playing));
    let first = ui.update_timeline(
        Some(MediaDuration::from_secs(30)),
        Some(MediaDuration::from_secs(120)),
    );
    let again_status = ui.update_status(Some(PlayStatus::Playing));
    let again_track = ui.update_track(Some(sample_track()));
    let again_source = ui.update_source(Some("com.example.app".to_string()));
    let again_timeline = ui.update_timeline(
        Some(MediaDuration::from_secs(30)),
        Some(MediaDuration::from_secs(120)),
    );
    assert_eq!(first, again_status);
    assert_eq!(first, again_track);
    assert_eq!(first, again_source);
    assert_eq!(first, again_timeline);
    assert_eq!(first, ui.render());
}

#[test]
fn position_beyond_length_keeps_marker_inside_bar() {
    let mut ui = Ui::new();
    ui.update_source(Some("com.example.app".to_string()));
    let out = ui.update_timeline(
        Some(MediaDuration::from_secs(240)),
        Some(MediaDuration::from_secs(120)),
    );
    let expected = format!(
        "{}[com.example.app]  -  []\r{}? 04:00 (200 %) [{}>] 02:00\r",
        PREFIX,
        LINE_BREAK,
        "=".repeat(49),
    );
    assert_eq!(out, expected);
}
