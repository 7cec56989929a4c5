use jorik_cli::dispatch::{
    context_unknown, filter_style, lyrics_text, parse_switch, Command, CommandRequest,
    FilterStyle, LyricsFetch, QueueFetch, AUDIO_ENDPOINT, COMMAND_REFRESH_DELAY_MS,
    PLAY_REFRESH_DELAY_MS, POLL_PERIOD_MS,
};
use jorik_cli::json::Json;
use jorik_cli::session::{LoopMode, Screen, SessionState, TrackSummary};

fn dispatch_session() -> SessionState {
    SessionState::new(
        "https://host/".to_string(),
        0,
        Some("tok".to_string()),
        Some("g".to_string()),
        Some("u".to_string()),
        0,
    )
}

fn dispatch_object(members: Vec<(&str, Json)>) -> Json {
    Json::Object(members.into_iter().map(|(k, v)| (k.to_string(), v)).collect())
}

fn dispatch_text(s: &str) -> Json {
    Json::Text(s.to_string())
}

#[test]
fn requests_carry_guild_and_user() {
    let s = dispatch_session();
    assert_eq!(s.audio_url(), "https://host/webhook/audio");
    assert_eq!(AUDIO_ENDPOINT, "/webhook/audio");
    let q = s.queue_payload();
    assert_eq!((q.action, q.guild_id.as_deref(), q.user_id.as_deref(), q.limit, q.offset), ("queue", Some("g"), Some("u"), 20, 0));
    let p = s.play_payload("https://youtu.be/abc?si=xyz");
    assert_eq!(p.action, "play");
    assert_eq!(p.query, "https://youtu.be/abc");
    assert_eq!((p.guild_id.as_deref(), p.user_id.as_deref()), (Some("g"), Some("u")));
    assert!(p.channel_id.is_none() && p.requested_by.is_none() && p.avatar_url.is_none());
    assert_eq!(s.play_payload("some song").query, "some song");
    let l = s.lyrics_payload();
    assert_eq!((l.action.as_str(), l.guild_id.as_deref(), l.user_id.as_deref()), ("lyrics", Some("g"), Some("u")));
}

#[test]
fn each_command_has_its_request() {
    let s = dispatch_session();
    for (command, action) in [
        (Command::Skip, "skip"),
        (Command::Pause, "pause"),
        (Command::Stop, "stop"),
        (Command::Shuffle, "shuffle"),
        (Command::Clear, "clear"),
    ] {
        match s.command_request(command) {
            CommandRequest::Simple(p) => {
                assert_eq!(p.action, action);
                assert_eq!((p.guild_id.as_deref(), p.user_id.as_deref()), (Some("g"), Some("u")));
            }
            other => panic!("unexpected {:?}", other),
        }
    }
    for (mode, name) in [(LoopMode::Off, "off"), (LoopMode::Track, "track"), (LoopMode::Queue, "queue")] {
        match s.command_request(Command::Loop(mode)) {
            CommandRequest::Loop(p) => {
                assert_eq!((p.action, p.loop_mode.as_str()), ("loop", name));
                assert_eq!(mode.name(), name);
            }
            other => panic!("unexpected {:?}", other),
        }
    }
    match s.command_request(Command::TwentyFourSeven) {
        CommandRequest::TwentyFourSeven(p) => assert_eq!((p.action, p.enabled), ("247", None)),
        other => panic!("unexpected {:?}", other),
    }
    match s.command_request(Command::Filter(FilterStyle::EightD)) {
        CommandRequest::Filter(p) => {
            assert_eq!((p.action, p.style), ("filter", FilterStyle::EightD));
            assert_eq!(p.guild_id.as_deref(), Some("g"));
        }
        other => panic!("unexpected {:?}", other),
    }
    assert_eq!(LoopMode::Off.next(), LoopMode::Track);
    assert_eq!(LoopMode::Track.next(), LoopMode::Queue);
    assert_eq!(LoopMode::Queue.next(), LoopMode::Off);
}

#[test]
fn refresh_follows_after_a_short_fixed_delay() {
    assert_eq!(COMMAND_REFRESH_DELAY_MS, 200);
    assert_eq!(PLAY_REFRESH_DELAY_MS, 500);
    assert_eq!(POLL_PERIOD_MS, 20_000);
}

#[test]
fn filter_names_and_switch_words() {
    assert_eq!(filter_style("clear"), Some(FilterStyle::Clear));
    assert_eq!(filter_style("bassboost"), Some(FilterStyle::Bassboost));
    assert_eq!(filter_style("nightcore"), Some(FilterStyle::Nightcore));
    assert_eq!(filter_style("vaporwave"), Some(FilterStyle::Vaporwave));
    assert_eq!(filter_style("8d"), Some(FilterStyle::EightD));
    assert_eq!(filter_style("soft"), Some(FilterStyle::Soft));
    assert_eq!(filter_style("tremolo"), Some(FilterStyle::Tremolo));
    assert_eq!(filter_style("vibrato"), Some(FilterStyle::Vibrato));
    assert_eq!(filter_style("karaoke"), Some(FilterStyle::Karaoke));
    assert_eq!(filter_style("8D"), None);
    assert_eq!(filter_style(""), None);
    assert_eq!(parse_switch(Some("on")), Some(true));
    assert_eq!(parse_switch(Some("true")), Some(true));
    assert_eq!(parse_switch(Some("off")), Some(false));
    assert_eq!(parse_switch(Some("false")), Some(false));
    assert_eq!(parse_switch(Some("ON")), None);
    assert_eq!(parse_switch(None), None);
}

#[test]
fn good_answer_replaces_the_queue_and_clears_the_error() {
    let mut s = dispatch_session();
    s.begin_request();
    assert!(s.is_loading);
    s.error_message = Some("old".to_string());
    let answer = dispatch_object(vec![
        ("current", dispatch_object(vec![("title", dispatch_text("Now")), ("author", dispatch_text("Me"))])),
        ("upcoming", Json::Array(vec![dispatch_object(vec![("title", dispatch_text("Next"))])])),
    ]);
    s.apply_queue_result(QueueFetch::Answer(Some(answer)), "t");
    assert!(!s.is_loading);
    assert!(s.error_message.is_none());
    assert_eq!(s.current_track, Some(TrackSummary { title: "Now".to_string(), author: "Me".to_string() }));
    assert_eq!(s.queue, vec![TrackSummary { title: "Next".to_string(), author: String::new() }]);
    // a good status with a body that is no JSON changes nothing but the busy flag
    s.error_message = Some("kept".to_string());
    s.begin_request();
    s.apply_queue_result(QueueFetch::Answer(None), "t");
    assert!(!s.is_loading);
    assert_eq!(s.error_message.as_deref(), Some("kept"));
    assert_eq!(s.queue.len(), 1);
}

#[test]
fn context_unknown_is_fatal_and_other_failures_are_messages() {
    let fatal = || {
        dispatch_object(vec![
            ("error", dispatch_text("bad_request")),
            ("message", dispatch_text("user_not_in_voice_channel_or_guild_unknown")),
        ])
    };
    assert!(context_unknown(&Some(fatal())));
    assert!(!context_unknown(&None));
    assert!(!context_unknown(&Some(dispatch_object(vec![("error", dispatch_text("bad_request"))]))));
    assert!(!context_unknown(&Some(dispatch_object(vec![
        ("error", dispatch_text("unauthorized")),
        ("message", dispatch_text("user_not_in_voice_channel_or_guild_unknown")),
    ]))));

    let mut s = dispatch_session();
    s.queue.push(TrackSummary { title: "Q".to_string(), author: "A".to_string() });
    s.begin_request();
    s.apply_queue_result(QueueFetch::Refused { body: "{...}".to_string(), json: Some(fatal()) }, "t");
    assert_eq!(
        s.fatal_error.as_deref(),
        Some("User not in voice channel or guild unknown.\n\nPress 'r' to reload.")
    );
    assert!(s.error_message.is_none() && !s.is_loading);
    assert_eq!(s.queue.len(), 1);

    let mut s = dispatch_session();
    s.apply_queue_result(
        QueueFetch::Refused { body: "{\"error\":\"guild_id is required\"}".to_string(), json: None },
        "t",
    );
    assert_eq!(s.error_message.as_deref(), Some("Not connected to a voice channel or Guild ID missing."));
    assert!(s.fatal_error.is_none());

    let mut s = dispatch_session();
    s.apply_queue_result(QueueFetch::Refused { body: "boom".to_string(), json: None }, "t");
    assert_eq!(s.error_message.as_deref(), Some("Error: boom"));

    let mut s = dispatch_session();
    s.apply_queue_result(QueueFetch::Unreachable("timed out".to_string()), "t");
    assert_eq!(s.error_message.as_deref(), Some("Network error: timed out"));
    assert!(s.fatal_error.is_none() && !s.is_loading);
}

#[test]
fn lyrics_are_taken_from_text_or_lines() {
    let with_text = dispatch_object(vec![("data", dispatch_object(vec![
        ("text", dispatch_text("la la")),
        ("lines", Json::Array(vec![dispatch_object(vec![("line", dispatch_text("ignored"))])])),
    ]))]);
    assert_eq!(lyrics_text(&LyricsFetch::Answer(Some(with_text))), "la la");
    let with_lines = dispatch_object(vec![("data", dispatch_object(vec![("lines", Json::Array(vec![
        dispatch_object(vec![("line", dispatch_text("one")), ("timestamp", Json::Unsigned(5))]),
        dispatch_object(vec![("timestamp", Json::Unsigned(6))]),
        dispatch_object(vec![("line", dispatch_text("three"))]),
    ]))]))]);
    assert_eq!(lyrics_text(&LyricsFetch::Answer(Some(with_lines))), "one\n\nthree\n");
    let blank = dispatch_object(vec![("data", dispatch_object(vec![("text", dispatch_text("  \n"))]))]);
    assert_eq!(lyrics_text(&LyricsFetch::Answer(Some(blank))), "No lyrics found.");
    let empty = dispatch_object(vec![("data", dispatch_object(vec![]))]);
    assert_eq!(lyrics_text(&LyricsFetch::Answer(Some(empty))), "No lyrics found.");
    let no_data = dispatch_object(vec![("data", dispatch_text("x"))]);
    assert_eq!(lyrics_text(&LyricsFetch::Answer(Some(no_data))), "No lyrics found.");
    assert_eq!(lyrics_text(&LyricsFetch::Answer(None)), "Failed to parse lyrics.");
    assert_eq!(
        lyrics_text(&LyricsFetch::Unreachable("dns".to_string())),
        "Failed to fetch lyrics: dns"
    );
}

#[test]
fn lyrics_answer_opens_the_lyrics_screen_at_the_top() {
    let mut s = dispatch_session();
    s.begin_request();
    s.lyrics_scroll = 9;
    s.apply_lyrics_result(LyricsFetch::Unreachable("dns".to_string()));
    assert_eq!(s.screen, Screen::Lyrics);
    assert_eq!(s.lyrics_scroll, 0);
    assert!(!s.is_loading);
    assert_eq!(s.lyrics_text.as_deref(), Some("Failed to fetch lyrics: dns"));
}
