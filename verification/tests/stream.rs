use jorik_cli::api::WsEvent;
use jorik_cli::session::{ConnectionStatus, SessionState};
use jorik_cli::stream::{
    ws_scheme, ws_url, ReconnectState, StreamAction, StreamClient, StreamInput, COOL_DOWN_MS,
    CREDENTIAL_POLL_MS, IDLE_CHECK_MS, WAITING_NOTE_PERIOD_MS,
};

fn stream_session(base: &str, token: Option<&str>, guild: Option<&str>) -> SessionState {
    SessionState::new(
        base.to_string(),
        0,
        token.map(|t| t.to_string()),
        guild.map(|g| g.to_string()),
        None,
        0,
    )
}

fn stream_connected(now: u64) -> (StreamClient, SessionState) {
    let mut session = stream_session("https://host", Some("tok"), Some("g"));
    let mut client = StreamClient::new(0);
    let action = client.step(&mut session, StreamInput::Wake, now, "t");
    assert_eq!(action, StreamAction::Connect("wss://host/ws?token=tok".to_string()));
    let action = client.step(&mut session, StreamInput::HandshakeOk, now, "t");
    assert_eq!(action, StreamAction::Subscribe("g".to_string()));
    (client, session)
}

#[test]
fn stream_address_is_built_from_the_server_address() {
    assert_eq!(ws_url("https://host", "abc"), Ok("wss://host/ws?token=abc".to_string()));
    assert_eq!(ws_url("http://localhost:3000", "abc"), Ok("ws://localhost:3000/ws?token=abc".to_string()));
    assert_eq!(ws_url("https://host/some/path?x=1", "a b&c"), Ok("wss://host/ws?x=1&token=a+b%26c".to_string()));
    assert_eq!(ws_url("HTTPS://Host/", "t"), Ok("wss://host/ws?token=t".to_string()));
    assert!(ws_url("not a url", "abc").is_err());
    assert_eq!(ws_url("", "abc"), Err("relative URL without a base".to_string()));
    assert_eq!(ws_scheme("https"), "wss");
    assert_eq!(ws_scheme("http"), "ws");
    assert_eq!(ws_scheme("ftp"), "ws");
}

#[test]
fn timing_constants() {
    assert_eq!(COOL_DOWN_MS, 5_000);
    assert_eq!(WAITING_NOTE_PERIOD_MS, 10_000);
    assert_eq!(CREDENTIAL_POLL_MS, 1_000);
    assert_eq!(IDLE_CHECK_MS, 500);
}

#[test]
fn client_waits_for_credentials_and_notes_it_at_most_every_ten_seconds() {
    let mut session = stream_session("https://host", None, None);
    let mut client = StreamClient::new(0);
    for now in [1_000u64, 2_000, 9_000, 10_000] {
        assert_eq!(client.step(&mut session, StreamInput::Wake, now, "t"), StreamAction::Wait(1_000));
        assert_eq!(client.state, ReconnectState::Idle);
        assert!(session.debug_logs.is_empty());
    }
    assert_eq!(client.step(&mut session, StreamInput::Wake, 10_001, "t"), StreamAction::Wait(1_000));
    assert_eq!(session.debug_logs, vec!["[t] WS waiting for token..."]);
    assert_eq!(client.last_waiting_note_ms, 10_001);
    assert_eq!(client.step(&mut session, StreamInput::Wake, 20_001, "t"), StreamAction::Wait(1_000));
    assert_eq!(session.debug_logs.len(), 1);
    session.token = Some("tok".to_string());
    assert_eq!(client.step(&mut session, StreamInput::Wake, 20_002, "t"), StreamAction::Wait(1_000));
    assert_eq!(
        session.debug_logs[1],
        "[t] WS waiting for Guild ID (join a voice channel or specify --guild-id)..."
    );
    assert_eq!(session.connection, ConnectionStatus::Disconnected);
}

#[test]
fn client_connects_subscribes_and_listens() {
    let (mut client, mut session) = stream_connected(100);
    assert_eq!(client.state, ReconnectState::Connected);
    assert_eq!(session.connection, ConnectionStatus::Connected);
    assert_eq!(
        session.debug_logs,
        vec!["[t] WS Connecting to wss://host/ws?token=tok", "[t] WS Connected"]
    );
    let event = WsEvent {
        event_type: "track_start".to_string(),
        guild_id: Some("g".to_string()),
        data: None,
        playback: None,
    };
    assert_eq!(client.step(&mut session, StreamInput::Event(event), 200, "t"), StreamAction::Refetch);
    let other = WsEvent {
        event_type: "track_start".to_string(),
        guild_id: Some("x".to_string()),
        data: None,
        playback: None,
    };
    assert_eq!(client.step(&mut session, StreamInput::Event(other), 200, "t"), StreamAction::Await);
    assert_eq!(
        client.step(&mut session, StreamInput::Undecodable("{oops".to_string()), 300, "t"),
        StreamAction::Await
    );
    assert_eq!(session.debug_logs.last().unwrap(), "[t] WS Unparsed Message: {oops");
    assert_eq!(client.step(&mut session, StreamInput::OtherFrame, 300, "t"), StreamAction::Await);
    assert_eq!(client.step(&mut session, StreamInput::IdleCheck, 800, "t"), StreamAction::Await);
    assert_eq!(client.step(&mut session, StreamInput::Wake, 800, "t"), StreamAction::Await);
    assert_eq!(client.state, ReconnectState::Connected);
    assert_eq!(session.connection, ConnectionStatus::Connected);
}

#[test]
fn transport_close_starts_the_cool_down_and_no_attempt_is_made_before_it_ends() {
    let (mut client, mut session) = stream_connected(100);
    assert_eq!(client.step(&mut session, StreamInput::TransportClosed, 10_000, "t"), StreamAction::Wait(5_000));
    assert_eq!(client.state, ReconnectState::BackoffWait { since_ms: 10_000 });
    assert_eq!(session.connection, ConnectionStatus::Disconnected);
    assert_eq!(session.debug_logs.last().unwrap(), "[t] WS Closed");
    let logs = session.debug_logs.len();
    for now in [10_000u64, 10_001, 12_500, 14_999] {
        let action = client.step(&mut session, StreamInput::Wake, now, "t");
        assert_eq!(action, StreamAction::Wait(15_000 - now));
        let action = client.step(&mut session, StreamInput::HandshakeOk, now, "t");
        assert_eq!(action, StreamAction::Wait(15_000 - now));
        assert_eq!(client.state, ReconnectState::BackoffWait { since_ms: 10_000 });
        assert_eq!(session.connection, ConnectionStatus::Disconnected);
        assert_eq!(session.debug_logs.len(), logs);
    }
    // once the transport is healthy again the connected state is re-entered
    let action = client.step(&mut session, StreamInput::Wake, 15_000, "t");
    assert_eq!(action, StreamAction::Connect("wss://host/ws?token=tok".to_string()));
    assert_eq!(client.state, ReconnectState::Connecting);
    assert_eq!(session.connection, ConnectionStatus::Connecting);
    let action = client.step(&mut session, StreamInput::HandshakeOk, 15_200, "t");
    assert_eq!(action, StreamAction::Subscribe("g".to_string()));
    assert_eq!(client.state, ReconnectState::Connected);
    assert_eq!(session.connection, ConnectionStatus::Connected);
}

#[test]
fn errors_lead_to_the_cool_down_and_are_logged() {
    let (mut client, mut session) = stream_connected(100);
    let action = client.step(&mut session, StreamInput::TransportError("reset".to_string()), 1_000, "t");
    assert_eq!(action, StreamAction::Wait(5_000));
    assert_eq!(client.state, ReconnectState::BackoffWait { since_ms: 1_000 });
    assert_eq!(session.debug_logs.last().unwrap(), "[t] WS Error: reset");
    assert!(session.fatal_error.is_none() && session.error_message.is_none());
    let action = client.step(&mut session, StreamInput::Wake, 6_000, "t");
    assert_eq!(action, StreamAction::Connect("wss://host/ws?token=tok".to_string()));
    let action = client.step(&mut session, StreamInput::HandshakeFailed("refused".to_string()), 6_100, "t");
    assert_eq!(action, StreamAction::Wait(5_000));
    assert_eq!(client.state, ReconnectState::BackoffWait { since_ms: 6_100 });
    assert_eq!(session.connection, ConnectionStatus::Disconnected);
    assert_eq!(session.debug_logs.last().unwrap(), "[t] WS Connection Failed: refused");
    // near the end of the clock's range the cool-down still holds
    let (mut client, mut session) = stream_connected(100);
    client.step(&mut session, StreamInput::TransportClosed, u64::MAX - 1, "t");
    assert_eq!(client.state, ReconnectState::BackoffWait { since_ms: u64::MAX - 1 });
    assert_eq!(client.step(&mut session, StreamInput::Wake, u64::MAX, "t"), StreamAction::Wait(4_999));
    assert_eq!(client.state, ReconnectState::BackoffWait { since_ms: u64::MAX - 1 });
    // a clock reading before the close counts as no time spent
    assert_eq!(client.step(&mut session, StreamInput::Wake, 5, "t"), StreamAction::Wait(5_000));
}

#[test]
fn reconnect_flag_is_honoured_at_the_idle_check() {
    let (mut client, mut session) = stream_connected(100);
    session.needs_reconnect = true;
    assert_eq!(client.step(&mut session, StreamInput::OtherFrame, 400, "t"), StreamAction::Await);
    assert!(session.needs_reconnect);
    assert_eq!(client.step(&mut session, StreamInput::IdleCheck, 600, "t"), StreamAction::Wait(5_000));
    assert!(!session.needs_reconnect);
    assert_eq!(client.state, ReconnectState::BackoffWait { since_ms: 600 });
    assert_eq!(session.connection, ConnectionStatus::Disconnected);
    assert_eq!(
        session.debug_logs.last().unwrap(),
        "[t] WS Forcing reconnect due to settings change"
    );
}

#[test]
fn server_address_that_is_no_url_is_logged_and_tried_again_later() {
    let mut session = stream_session("not a url", Some("tok"), Some("g"));
    let mut client = StreamClient::new(0);
    assert_eq!(client.step(&mut session, StreamInput::Wake, 50, "t"), StreamAction::Wait(5_000));
    assert_eq!(client.state, ReconnectState::BackoffWait { since_ms: 50 });
    assert_eq!(session.debug_logs, vec!["[t] WS URL Parse Error: relative URL without a base"]);
    assert_eq!(session.connection, ConnectionStatus::Disconnected);
    session.base_url = "http://host:8080".to_string();
    assert_eq!(
        client.step(&mut session, StreamInput::Wake, 5_050, "t"),
        StreamAction::Connect("ws://host:8080/ws?token=tok".to_string())
    );
}

#[test]
fn inputs_that_do_not_fit_the_state_are_ignored() {
    let mut session = stream_session("https://host", Some("tok"), Some("g"));
    let mut client = StreamClient::new(0);
    assert_eq!(client.step(&mut session, StreamInput::HandshakeOk, 5, "t"), StreamAction::Wait(0));
    assert_eq!(client.step(&mut session, StreamInput::TransportClosed, 5, "t"), StreamAction::Wait(0));
    assert_eq!(client.state, ReconnectState::Idle);
    assert!(session.debug_logs.is_empty());
    client.step(&mut session, StreamInput::Wake, 5, "t");
    assert_eq!(client.state, ReconnectState::Connecting);
    assert_eq!(client.step(&mut session, StreamInput::TransportClosed, 6, "t"), StreamAction::Await);
    assert_eq!(client.step(&mut session, StreamInput::IdleCheck, 6, "t"), StreamAction::Await);
    assert_eq!(client.state, ReconnectState::Connecting);
}
