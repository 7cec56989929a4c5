use jorik_cli::json::Json;
use jorik_cli::session::{
    ConnectionStatus, InputMode, LoopMode, Moment, Playback, Screen, SessionState, TrackSummary,
    LOG_CAPACITY,
};

fn session_fresh(token: Option<&str>, guild: Option<&str>) -> SessionState {
    SessionState::new(
        "https://host".to_string(),
        200,
        token.map(|t| t.to_string()),
        guild.map(|g| g.to_string()),
        Some("u1".to_string()),
        1_000,
    )
}

fn session_text(s: &str) -> Json {
    Json::Text(s.to_string())
}

fn session_object(members: Vec<(&str, Json)>) -> Json {
    Json::Object(members.into_iter().map(|(k, v)| (k.to_string(), v)).collect())
}

fn session_track(title: &str, author: &str) -> Json {
    session_object(vec![("title", session_text(title)), ("author", session_text(author))])
}

fn session_titles(state: &SessionState) -> Vec<String> {
    state.queue.iter().map(|t| t.display()).collect()
}

#[test]
fn new_session_starts_paused_and_silent() {
    let s = session_fresh(Some("tok"), None);
    assert_eq!(s.screen, Screen::Main);
    assert_eq!(s.input_mode, InputMode::Normal);
    assert_eq!(s.loop_mode, LoopMode::Off);
    assert_eq!(s.connection, ConnectionStatus::Disconnected);
    assert_eq!(s.playback, Playback { elapsed_ms: 0, duration_ms: 0, paused: true, anchor_ms: 1_000 });
    assert_eq!(s.smoothed_bars, vec![0u32; 64]);
    assert!(s.queue.is_empty() && s.current_track.is_none() && s.debug_logs.is_empty());
    assert_eq!(s.settings_input, "https://host");
    assert_eq!(s.offset_input, "200");
    assert_eq!(s.visualizer_offset, 200);
    assert!(s.spectrogram.is_none() && !s.is_loading && !s.needs_reconnect);
    assert_eq!(session_fresh(None, None).screen, Screen::LoginRequired);
    let negative = SessionState::new(String::new(), -15, None, None, None, 0);
    assert_eq!(negative.offset_input, "-15");
}

#[test]
fn log_keeps_the_newest_hundred_lines() {
    let mut s = session_fresh(Some("tok"), None);
    for i in 0..100 {
        s.log(&format!("line {}", i));
    }
    assert_eq!(s.debug_logs.len(), 100);
    assert!(s.debug_logs[0].ends_with("] line 0"));
    s.log("one more");
    assert_eq!(s.debug_logs.len(), LOG_CAPACITY);
    assert!(s.debug_logs[0].ends_with("] line 1"));
    assert!(s.debug_logs[98].ends_with("] line 99"));
    assert!(s.debug_logs[99].ends_with("] one more"));
}

#[test]
fn log_line_carries_the_time_of_day() {
    let mut s = session_fresh(Some("tok"), None);
    s.log_at("12:34:56", "hello");
    assert_eq!(s.debug_logs, vec!["[12:34:56] hello".to_string()]);
    s.log("now");
    let line = &s.debug_logs[1];
    assert_eq!(line.len(), "[00:00:00] now".len());
    assert!(line.starts_with('[') && line.ends_with("] now"));
    let m = Moment::at(77);
    assert_eq!(m.now_ms, 77);
    assert_eq!(m.stamp.len(), 8);
}

#[test]
fn log_at_evicts_the_oldest_line_of_a_full_log() {
    let mut s = session_fresh(Some("tok"), None);
    for i in 0..250 {
        s.log_at("t", &i.to_string());
        assert!(s.debug_logs.len() <= 100);
    }
    assert_eq!(s.debug_logs.len(), 100);
    assert_eq!(s.debug_logs[0], "[t] 150");
    assert_eq!(s.debug_logs[99], "[t] 249");
}

#[test]
fn queue_answer_replaces_track_and_queue() {
    let mut s = session_fresh(Some("tok"), None);
    let answer = session_object(vec![
        ("guild_id", session_text("g1")),
        ("current", session_track("Song", "Band")),
        ("upcoming", Json::Array(vec![
            session_track("A", "X"),
            session_object(vec![("title", session_text("B"))]),
            session_object(vec![("author", session_text("Y"))]),
            Json::Null,
            session_object(vec![("title", Json::Unsigned(3)), ("author", session_text("Z"))]),
        ])),
    ]);
    s.parse_queue_response(&answer, "10:00:00");
    assert_eq!(s.guild_id.as_deref(), Some("g1"));
    assert_eq!(s.current_track.as_ref().map(|t| t.display()), Some("Song - Band".to_string()));
    assert_eq!(session_titles(&s), vec!["A - X", "B - ", "Unknown - Y", "Unknown - ", "Unknown - Z"]);
    assert_eq!(s.debug_logs, vec!["[10:00:00] Discovered Guild ID: g1".to_string()]);
}

#[test]
fn queue_answer_applied_twice_changes_nothing_more() {
    let mut s = session_fresh(Some("tok"), None);
    let answer = session_object(vec![
        ("guildId", session_text("g2")),
        ("current", session_track("Song", "Band")),
        ("upcoming", Json::Array(vec![session_track("A", "X"), session_track("B", "Y")])),
    ]);
    s.parse_queue_response(&answer, "10:00:00");
    let queue = session_titles(&s);
    let logs = s.debug_logs.clone();
    s.parse_queue_response(&answer, "10:00:05");
    assert_eq!(session_titles(&s), queue);
    assert_eq!(queue, vec!["A - X", "B - Y"]);
    assert_eq!(s.debug_logs, logs);
    assert_eq!(s.guild_id.as_deref(), Some("g2"));
    assert_eq!(s.current_track.as_ref().map(|t| t.display()), Some("Song - Band".to_string()));
}

#[test]
fn queue_answer_without_members_clears_track_and_queue() {
    let mut s = session_fresh(Some("tok"), Some("g0"));
    s.current_track = Some(TrackSummary { title: "T".to_string(), author: "A".to_string() });
    s.queue.push(TrackSummary { title: "Q".to_string(), author: "B".to_string() });
    s.parse_queue_response(&session_object(vec![("current", session_text("not an object"))]), "t");
    assert!(s.current_track.is_none());
    assert!(s.queue.is_empty());
    assert_eq!(s.guild_id.as_deref(), Some("g0"));
    assert!(s.debug_logs.is_empty());
    // `guild_id` wins over `guildId`, and a known guild is replaced without a note
    s.parse_queue_response(&session_object(vec![("guildId", session_text("b")), ("guild_id", session_text("a"))]), "t");
    assert_eq!(s.guild_id.as_deref(), Some("a"));
    assert!(s.debug_logs.is_empty());
    s.parse_queue_response(&Json::Array(vec![]), "t");
    assert_eq!(s.guild_id.as_deref(), Some("a"));
}

#[test]
fn extrapolation_clamps_to_the_duration() {
    let mut s = session_fresh(Some("tok"), Some("g"));
    s.current_track = Some(TrackSummary { title: "T".to_string(), author: "A".to_string() });
    s.playback = Playback { elapsed_ms: 199_500, duration_ms: 200_000, paused: false, anchor_ms: 5_000 };
    s.update_realtime(6_000);
    assert_eq!(s.playback.elapsed_ms, 200_000);
    assert_eq!(s.playback.anchor_ms, 6_000);
    s.update_realtime(9_000);
    assert_eq!(s.playback.elapsed_ms, 200_000);
}

#[test]
fn extrapolation_advances_by_the_time_since_the_anchor() {
    let mut s = session_fresh(Some("tok"), Some("g"));
    s.current_track = Some(TrackSummary { title: "T".to_string(), author: "A".to_string() });
    s.playback = Playback { elapsed_ms: 1_000, duration_ms: 200_000, paused: false, anchor_ms: 5_000 };
    s.update_realtime(5_016);
    assert_eq!(s.playback.elapsed_ms, 1_016);
    s.update_realtime(5_033);
    assert_eq!(s.playback.elapsed_ms, 1_033);
    // a clock reading before the anchor advances nothing
    s.update_realtime(5_000);
    assert_eq!(s.playback.elapsed_ms, 1_033);
    assert_eq!(s.playback.anchor_ms, 5_000);
    // an unknown length does not clamp
    s.playback = Playback { elapsed_ms: 10, duration_ms: 0, paused: false, anchor_ms: 0 };
    s.update_realtime(500);
    assert_eq!(s.playback.elapsed_ms, 510);
    s.playback = Playback { elapsed_ms: u64::MAX - 1, duration_ms: 0, paused: false, anchor_ms: 0 };
    s.update_realtime(500);
    assert_eq!(s.playback.elapsed_ms, u64::MAX);
}

#[test]
fn paused_or_idle_ticks_only_move_the_anchor_and_fade_the_bars() {
    let mut s = session_fresh(Some("tok"), Some("g"));
    s.current_track = Some(TrackSummary { title: "T".to_string(), author: "A".to_string() });
    s.playback = Playback { elapsed_ms: 1_000, duration_ms: 200_000, paused: true, anchor_ms: 5_000 };
    s.smoothed_bars = vec![100_000_000; 64];
    s.update_realtime(65_000);
    assert_eq!(s.playback, Playback { elapsed_ms: 1_000, duration_ms: 200_000, paused: true, anchor_ms: 65_000 });
    assert_eq!(s.smoothed_bars, vec![95_000_000; 64]);
    // resuming does not jump by the time spent paused
    s.playback.paused = false;
    s.update_realtime(65_016);
    assert_eq!(s.playback.elapsed_ms, 1_016);
    // no current track: the same, even when not paused
    s.current_track = None;
    s.update_realtime(70_000);
    assert_eq!(s.playback.elapsed_ms, 1_016);
    assert_eq!(s.playback.anchor_ms, 70_000);
}

#[test]
fn idle_ticks_follow_the_decay_factor() {
    for start in [80.0f64, 1.0, 0.002] {
        let mut s = session_fresh(Some("tok"), Some("g"));
        s.smoothed_bars = vec![(start * 1_000_000.0).round() as u32; 64];
        for n in 1..=40 {
            s.update_realtime(1_000 + n as u64 * 16);
            let expected = start * 0.95f64.powi(n);
            for band in [0usize, 17, 63] {
                let shown = s.smoothed_bars[band] as f64 / 1_000_000.0;
                assert!(
                    (shown - expected).abs() <= 1e-3 * start.max(1.0),
                    "start {} tick {}: {} vs {}",
                    start,
                    n,
                    shown,
                    expected
                );
            }
        }
    }
}

#[test]
fn invariant_holds_the_position_within_the_track() {
    let mut s = session_fresh(Some("tok"), Some("g"));
    assert!(s.is_well_formed());
    s.playback = Playback { elapsed_ms: 300, duration_ms: 200, paused: true, anchor_ms: 0 };
    assert!(!s.is_well_formed());
    s.playback = Playback { elapsed_ms: 200, duration_ms: 200, paused: true, anchor_ms: 0 };
    assert!(s.is_well_formed());
    s.playback = Playback { elapsed_ms: 300, duration_ms: 0, paused: true, anchor_ms: 0 };
    assert!(s.is_well_formed());
    s.smoothed_bars[3] = 100_000_001;
    assert!(!s.is_well_formed());
    s.smoothed_bars[3] = 100_000_000;
    assert!(s.is_well_formed());
    s.smoothed_bars.pop();
    assert!(!s.is_well_formed());
}

#[test]
fn playing_ticks_follow_the_snapshot_for_the_position() {
    let mut s = session_fresh(Some("tok"), Some("g"));
    s.visualizer_offset = 0;
    s.current_track = Some(TrackSummary { title: "T".to_string(), author: "A".to_string() });
    s.spectrogram = Some((0..100u8).map(|k| vec![100 + k; 64]).collect());
    s.playback = Playback { elapsed_ms: 1_000, duration_ms: 200_000, paused: false, anchor_ms: 0 };
    s.update_realtime(280);
    assert_eq!(s.playback.elapsed_ms, 1_280);
    // snapshot 30 holds the magnitude 130: band 5 aims at 60.0 and rises by 40 %
    assert_eq!(s.smoothed_bars[5], 24_000_000);
    // past the last snapshot the bars stay
    s.playback.elapsed_ms = 100_000;
    s.update_realtime(281);
    assert_eq!(s.smoothed_bars[5], 24_000_000);
    // the offset shifts the position
    s.visualizer_offset = -100_000;
    s.update_realtime(281);
    assert_eq!(s.smoothed_bars[5], 24_000_000 + (42_000_000 - 24_000_000) * 2 / 5);
}
