//! The client of the push stream: a state machine that connects, listens,
//! and after every failure waits before it connects again.
//!
//! The machine decides; the program around it performs. [`StreamClient::step`]
//! takes what happened on the transport and answers with the next thing to
//! do. It never blocks and never fails: every transport error leads back to
//! a new attempt after the cool-down.

use vstd::prelude::*;
use crate::api::WsEvent;
use crate::events::spec_event_applied;
use crate::session::{spec_log, ConnectionStatus, SessionState, SessionView};
use crate::text::{concat2, opt_text, str_eq};
use crate::urls::{
    before_first, is_plain_path, parse_url, url_append_pair, url_parse_text, url_scheme, url_set_path,
    url_set_scheme, url_string, url_with_pair, url_with_path, url_with_scheme,
};

verus! {

/// Milliseconds to wait after a failure before the next attempt.
pub const COOL_DOWN_MS: u64 = 5000;

/// Milliseconds between two notes that the client waits for credentials.
pub const WAITING_NOTE_PERIOD_MS: u64 = 10000;

/// Milliseconds between two looks for credentials.
pub const CREDENTIAL_POLL_MS: u64 = 1000;

/// Longest time, in milliseconds, to wait for a message before the
/// reconnect flag is looked at.
pub const IDLE_CHECK_MS: u64 = 500;

/// Where the stream client stands.
#[derive(Clone, Copy, PartialEq, Eq, Structural, Debug)]
pub enum ReconnectState {
    /// Not connected, free to connect.
    Idle,
    /// The handshake is under way.
    Connecting,
    /// Subscribed and listening.
    Connected,
    /// Not connected since `since_ms`, and no attempt before the cool-down
    /// has passed.
    BackoffWait { since_ms: u64 },
}

/// The stream client.
#[derive(Clone, Debug, PartialEq, Eq)]
pub struct StreamClient {
    pub state: ReconnectState,
    /// When the client last noted that it waits for credentials.
    pub last_waiting_note_ms: u64,
    /// The guild that the connection under way is for.
    pub guild: Option<String>,
}

/// The value of a [`StreamClient`].
pub struct StreamClientView {
    pub state: ReconnectState,
    pub last_waiting_note_ms: u64,
    pub guild: Option<Seq<char>>,
}

impl View for StreamClient {
    type V = StreamClientView;

    open spec fn view(&self) -> StreamClientView {
        StreamClientView {
            state: self.state,
            last_waiting_note_ms: self.last_waiting_note_ms,
            guild: opt_text(self.guild),
        }
    }
}

impl StreamClientView {
    /// A handshake is only ever under way for a known guild.
    pub open spec fn wf(self) -> bool {
        self.state == ReconnectState::Connecting ==> self.guild is Some
    }
}

/// What happened on the transport, or on the clock.
#[derive(Debug, PartialEq, Eq)]
pub enum StreamInput {
    /// The time to wait is over.
    Wake,
    /// The handshake succeeded.
    HandshakeOk,
    /// The handshake failed, with the reason.
    HandshakeFailed(String),
    /// A message arrived and was decoded.
    Event(WsEvent),
    /// A text message arrived that is no event.
    Undecodable(String),
    /// A message arrived that is no text.
    OtherFrame,
    /// The transport failed, with the reason.
    TransportError(String),
    /// The transport was closed.
    TransportClosed,
    /// No message arrived for [`IDLE_CHECK_MS`].
    IdleCheck,
}

/// What the program around the machine is to do next.
#[derive(Clone, Debug, PartialEq, Eq)]
pub enum StreamAction {
    /// Wait this many milliseconds, then hand in [`StreamInput::Wake`].
    Wait(u64),
    /// Open a connection to this address and hand in the outcome of the
    /// handshake.
    Connect(String),
    /// Send the subscription for this guild, then listen.
    Subscribe(String),
    /// Go on waiting for the transport.
    Await,
    /// Start a fetch of the queue, and go on listening.
    Refetch,
}

/// The value of a [`StreamAction`].
pub enum StreamActionView {
    Wait(u64),
    Connect(Seq<char>),
    Subscribe(Seq<char>),
    Await,
    Refetch,
}

impl View for StreamAction {
    type V = StreamActionView;

    open spec fn view(&self) -> StreamActionView {
        match self {
            StreamAction::Wait(ms) => StreamActionView::Wait(*ms),
            StreamAction::Connect(url) => StreamActionView::Connect(url@),
            StreamAction::Subscribe(guild) => StreamActionView::Subscribe(guild@),
            StreamAction::Await => StreamActionView::Await,
            StreamAction::Refetch => StreamActionView::Refetch,
        }
    }
}

/// The scheme of the stream for the scheme of the server: secure for
/// `https`, plain for anything else.
pub open spec fn spec_ws_scheme(scheme: Seq<char>) -> Seq<char> {
    if scheme == "https"@ {
        "wss"@
    } else {
        "ws"@
    }
}

/// The scheme of the stream for the scheme of the server.
pub fn ws_scheme(scheme: &str) -> (r: &'static str)
    ensures
        r@ == spec_ws_scheme(scheme@),
{
    if str_eq(scheme, "https") {
        "wss"
    } else {
        "ws"
    }
}

/// The address of the stream on the server at `base`: the server's URL with
/// the scheme of the stream, the path `/ws`, and the token appended to the
/// query. A base that is no URL gives the message of the parse error.
pub open spec fn spec_ws_url(base: Seq<char>, token: Seq<char>) -> Result<Seq<char>, Seq<char>> {
    match url_parse_text(base) {
        Ok(text) => Ok(
            url_with_pair(
                url_with_path(
                    url_with_scheme(text, spec_ws_scheme(before_first(text, ':'))),
                    "/ws"@,
                ),
                "token"@,
                token,
            ),
        ),
        Err(message) => Err(message),
    }
}

/// The value of the outcome of [`ws_url`].
pub open spec fn url_result_view(r: Result<String, String>) -> Result<Seq<char>, Seq<char>> {
    match r {
        Ok(url) => Ok(url@),
        Err(message) => Err(message@),
    }
}

/// The address of the stream on the server at `base_url` for `token`.
pub fn ws_url(base_url: &str, token: &str) -> (r: Result<String, String>)
    ensures
        url_result_view(r) == spec_ws_url(base_url@, token@),
{
    match parse_url(base_url) {
        Ok(url) => {
            let mut url = url;
            let scheme = url_scheme(&url);
            url_set_scheme(&mut url, ws_scheme(scheme.as_str()));
            proof {
                reveal_strlit("/ws");
            }
            assert(is_plain_path("/ws"@));
            url_set_path(&mut url, "/ws");
            url_append_pair(&mut url, "token", token);
            Ok(url_string(&url))
        },
        Err(message) => Err(message),
    }
}

/// The time spent waiting since `since_ms`; none if the clock reads less.
pub open spec fn waited(since_ms: u64, now_ms: u64) -> u64 {
    if now_ms > since_ms {
        (now_ms - since_ms) as u64
    } else {
        0
    }
}

/// Whether the cool-down that started at `since_ms` has passed.
pub open spec fn cooled(since_ms: u64, now_ms: u64) -> bool {
    waited(since_ms, now_ms) >= COOL_DOWN_MS
}

/// What is left of the cool-down that started at `since_ms`.
pub open spec fn remaining(since_ms: u64, now_ms: u64) -> u64 {
    if cooled(since_ms, now_ms) {
        0
    } else {
        (COOL_DOWN_MS - waited(since_ms, now_ms)) as u64
    }
}

/// The machine after a failure: the note is logged, the session shows no
/// connection, and the cool-down starts.
pub open spec fn spec_dropped(
    c: StreamClientView,
    s: SessionView,
    now_ms: u64,
    stamp: Seq<char>,
    note: Seq<char>,
) -> (StreamClientView, SessionView, StreamActionView) {
    (
        StreamClientView { state: ReconnectState::BackoffWait { since_ms: now_ms }, ..c },
        SessionView { connection: ConnectionStatus::Disconnected, ..spec_log(s, stamp, note) },
        StreamActionView::Wait(COOL_DOWN_MS),
    )
}

/// The note that the client waits for a credential.
pub open spec fn waiting_note(s: SessionView) -> Seq<char> {
    if s.token is None {
        "WS waiting for token..."@
    } else {
        "WS waiting for Guild ID (join a voice channel or specify --guild-id)..."@
    }
}

/// The machine after it looked whether it can connect. Without token or
/// guild it stays idle and looks again in a second, noting that it waits at
/// most once per ten seconds. With both it connects, or starts the
/// cool-down if the server's address is no URL.
pub open spec fn spec_attempt(c: StreamClientView, s: SessionView, now_ms: u64, stamp: Seq<char>) -> (
    StreamClientView,
    SessionView,
    StreamActionView,
) {
    if s.token is None || s.guild_id is None {
        let due = now_ms - c.last_waiting_note_ms > WAITING_NOTE_PERIOD_MS;
        (
            StreamClientView {
                state: ReconnectState::Idle,
                last_waiting_note_ms: if due {
                    now_ms
                } else {
                    c.last_waiting_note_ms
                },
                ..c
            },
            if due {
                spec_log(s, stamp, waiting_note(s))
            } else {
                s
            },
            StreamActionView::Wait(CREDENTIAL_POLL_MS),
        )
    } else {
        match spec_ws_url(s.base_url, s.token->0) {
            Err(message) => (
                StreamClientView {
                    state: ReconnectState::BackoffWait { since_ms: now_ms },
                    ..c
                },
                spec_log(s, stamp, "WS URL Parse Error: "@ + message),
                StreamActionView::Wait(COOL_DOWN_MS),
            ),
            Ok(url) => (
                StreamClientView { state: ReconnectState::Connecting, guild: s.guild_id, ..c },
                SessionView {
                    connection: ConnectionStatus::Connecting,
                    ..spec_log(s, stamp, "WS Connecting to "@ + url)
                },
                StreamActionView::Connect(url),
            ),
        }
    }
}

/// One step of the machine: the client and the session after `input`
/// arrived at `now_ms`, and the next thing to do.
pub open spec fn spec_step(
    c: StreamClientView,
    s: SessionView,
    input: StreamInput,
    now_ms: u64,
    stamp: Seq<char>,
) -> (StreamClientView, SessionView, StreamActionView) {
    match c.state {
        ReconnectState::Idle => match input {
            StreamInput::Wake => spec_attempt(c, s, now_ms, stamp),
            _ => (c, s, StreamActionView::Wait(0)),
        },
        ReconnectState::BackoffWait { since_ms } => match input {
            StreamInput::Wake => if cooled(since_ms, now_ms) {
                spec_attempt(c, s, now_ms, stamp)
            } else {
                (c, s, StreamActionView::Wait(remaining(since_ms, now_ms)))
            },
            _ => (c, s, StreamActionView::Wait(remaining(since_ms, now_ms))),
        },
        ReconnectState::Connecting => match input {
            StreamInput::HandshakeOk => (
                StreamClientView { state: ReconnectState::Connected, ..c },
                SessionView {
                    connection: ConnectionStatus::Connected,
                    ..spec_log(s, stamp, "WS Connected"@)
                },
                StreamActionView::Subscribe(c.guild->0),
            ),
            StreamInput::HandshakeFailed(reason) => spec_dropped(
                c,
                s,
                now_ms,
                stamp,
                "WS Connection Failed: "@ + reason@,
            ),
            _ => (c, s, StreamActionView::Await),
        },
        ReconnectState::Connected => match input {
            StreamInput::Event(event) => {
                let applied = spec_event_applied(s, event, now_ms, stamp);
                (
                    c,
                    applied.0,
                    if applied.1 {
                        StreamActionView::Refetch
                    } else {
                        StreamActionView::Await
                    },
                )
            },
            StreamInput::Undecodable(text) => (
                c,
                spec_log(s, stamp, "WS Unparsed Message: "@ + text@),
                StreamActionView::Await,
            ),
            StreamInput::TransportError(reason) => spec_dropped(
                c,
                s,
                now_ms,
                stamp,
                "WS Error: "@ + reason@,
            ),
            StreamInput::TransportClosed => spec_dropped(c, s, now_ms, stamp, "WS Closed"@),
            StreamInput::IdleCheck => if s.needs_reconnect {
                spec_dropped(
                    c,
                    SessionView { needs_reconnect: false, ..s },
                    now_ms,
                    stamp,
                    "WS Forcing reconnect due to settings change"@,
                )
            } else {
                (c, s, StreamActionView::Await)
            },
            _ => (c, s, StreamActionView::Await),
        },
    }
}

/// A transport error or close while connected starts the cool-down: the
/// session shows no connection and the machine waits, from that moment,
/// for the length of the cool-down.
pub proof fn lemma_close_starts_cool_down(
    c: StreamClientView,
    s: SessionView,
    input: StreamInput,
    now_ms: u64,
    stamp: Seq<char>,
)
    requires
        c.state == ReconnectState::Connected,
        input is TransportClosed || input is TransportError,
    ensures
        spec_step(c, s, input, now_ms, stamp).0.state == (ReconnectState::BackoffWait {
            since_ms: now_ms,
        }),
        spec_step(c, s, input, now_ms, stamp).1.connection == ConnectionStatus::Disconnected,
        spec_step(c, s, input, now_ms, stamp).2 == StreamActionView::Wait(COOL_DOWN_MS),
{
}

/// Before the cool-down has passed nothing makes the machine connect:
/// whatever arrives, it stays in its wait, leaves the session alone and
/// answers with the rest of the wait, which is not zero.
pub proof fn lemma_no_attempt_during_cool_down(
    c: StreamClientView,
    s: SessionView,
    input: StreamInput,
    now_ms: u64,
    stamp: Seq<char>,
    since_ms: u64,
)
    requires
        c.state == (ReconnectState::BackoffWait { since_ms }),
        now_ms < since_ms + COOL_DOWN_MS,
    ensures
        spec_step(c, s, input, now_ms, stamp).0 == c,
        spec_step(c, s, input, now_ms, stamp).1 == s,
        spec_step(c, s, input, now_ms, stamp).2 == StreamActionView::Wait(
            remaining(since_ms, now_ms),
        ),
        0 < remaining(since_ms, now_ms) <= COOL_DOWN_MS,
        now_ms >= since_ms ==> remaining(since_ms, now_ms) == since_ms + COOL_DOWN_MS - now_ms,
{
}

/// After the transport closed or failed at `closed_ms`, whatever arrives
/// before the cool-down has passed starts no connection: the machine still
/// waits, the session shows no connection, and the answer is a wait. This
/// holds for every reading of the clock, up to the last one it can show.
pub proof fn lemma_no_attempt_after_close(
    c: StreamClientView,
    s: SessionView,
    closing: StreamInput,
    closed_ms: u64,
    stamp: Seq<char>,
    input: StreamInput,
    now_ms: u64,
    later: Seq<char>,
)
    requires
        c.state == ReconnectState::Connected,
        closing is TransportClosed || closing is TransportError,
        now_ms < closed_ms + COOL_DOWN_MS,
    ensures
        ({
            let closed = spec_step(c, s, closing, closed_ms, stamp);
            let next = spec_step(closed.0, closed.1, input, now_ms, later);
            &&& next.0 == closed.0
            &&& next.0.state == (ReconnectState::BackoffWait { since_ms: closed_ms })
            &&& next.1 == closed.1
            &&& next.1.connection == ConnectionStatus::Disconnected
            &&& next.2 is Wait
        }),
{
    let closed = spec_step(c, s, closing, closed_ms, stamp);
    lemma_close_starts_cool_down(c, s, closing, closed_ms, stamp);
    lemma_no_attempt_during_cool_down(closed.0, closed.1, input, now_ms, later, closed_ms);
}

/// Once the cool-down has passed, a wake-up with token and guild known and
/// a server address that parses starts a connection, and a handshake that
/// succeeds then leads to the connected state and the subscription for the
/// guild.
pub proof fn lemma_reconnects_after_cool_down(
    c: StreamClientView,
    s: SessionView,
    now_ms: u64,
    stamp: Seq<char>,
    later_ms: u64,
    later: Seq<char>,
)
    requires
        c.state matches ReconnectState::BackoffWait { since_ms } && cooled(since_ms, now_ms),
        s.token is Some,
        s.guild_id is Some,
        spec_ws_url(s.base_url, s.token->0) is Ok,
    ensures
        ({
            let woken = spec_step(c, s, StreamInput::Wake, now_ms, stamp);
            let shaken = spec_step(woken.0, woken.1, StreamInput::HandshakeOk, later_ms, later);
            &&& woken.0.state == ReconnectState::Connecting
            &&& woken.0.wf()
            &&& woken.1.connection == ConnectionStatus::Connecting
            &&& woken.2 == StreamActionView::Connect(spec_ws_url(s.base_url, s.token->0)->Ok_0)
            &&& shaken.0.state == ReconnectState::Connected
            &&& shaken.1.connection == ConnectionStatus::Connected
            &&& shaken.2 == StreamActionView::Subscribe(s.guild_id->0)
        }),
{
}

/// Without a token or without a guild no connection is attempted: a
/// wake-up leaves the machine idle, the session without a connection
/// status of its making, and asks to look again in a second. The wait is
/// noted in the log only if the last note is more than ten seconds old.
pub proof fn lemma_no_attempt_without_credentials(
    c: StreamClientView,
    s: SessionView,
    now_ms: u64,
    stamp: Seq<char>,
)
    requires
        c.state == ReconnectState::Idle || (c.state matches ReconnectState::BackoffWait {
            since_ms,
        } && cooled(since_ms, now_ms)),
        s.token is None || s.guild_id is None,
    ensures
        spec_step(c, s, StreamInput::Wake, now_ms, stamp).0.state == ReconnectState::Idle,
        spec_step(c, s, StreamInput::Wake, now_ms, stamp).1.connection == s.connection,
        spec_step(c, s, StreamInput::Wake, now_ms, stamp).2 == StreamActionView::Wait(
            CREDENTIAL_POLL_MS,
        ),
        now_ms - c.last_waiting_note_ms <= WAITING_NOTE_PERIOD_MS ==> spec_step(
            c,
            s,
            StreamInput::Wake,
            now_ms,
            stamp,
        ).1 == s,
{
}

/// A step keeps both invariants, and outside the connected state it leaves
/// everything of the session but the log, the connection status and the
/// reconnect flag as it was.
pub proof fn lemma_step_keeps_invariants(
    c: StreamClientView,
    s: SessionView,
    input: StreamInput,
    now_ms: u64,
    stamp: Seq<char>,
)
    requires
        c.wf(),
        s.wf(),
    ensures
        spec_step(c, s, input, now_ms, stamp).0.wf(),
        spec_step(c, s, input, now_ms, stamp).1.wf(),
        c.state != ReconnectState::Connected ==> spec_step(c, s, input, now_ms, stamp).1 == (
            SessionView {
                logs: spec_step(c, s, input, now_ms, stamp).1.logs,
                connection: spec_step(c, s, input, now_ms, stamp).1.connection,
                ..s
            }
        ),
        spec_step(c, s, input, now_ms, stamp).1.fatal_error == s.fatal_error,
        spec_step(c, s, input, now_ms, stamp).1.error_message == s.error_message,
{
    if c.state == ReconnectState::Connected {
        if let StreamInput::Event(event) = input {
            crate::events::lemma_event_keeps_invariant(s, event, now_ms, stamp);
        }
    }
}

impl StreamClient {
    /// The client at start: idle, with the time of the last waiting note
    /// set to `now_ms`.
    pub fn new(now_ms: u64) -> (client: StreamClient)
        ensures
            client@.wf(),
            client@ == (StreamClientView {
                state: ReconnectState::Idle,
                last_waiting_note_ms: now_ms,
                guild: None,
            }),
    {
        StreamClient { state: ReconnectState::Idle, last_waiting_note_ms: now_ms, guild: None }
    }

    /// Whether the invariant of the client holds.
    pub fn is_well_formed(&self) -> (ok: bool)
        ensures
            ok == self@.wf(),
    {
        match self.state {
            ReconnectState::Connecting => self.guild.is_some(),
            _ => true,
        }
    }

    /// Logs `note`, marks the session as not connected and starts the
    /// cool-down.
    fn drop_connection(
        &mut self,
        session: &mut SessionState,
        now_ms: u64,
        stamp: &str,
        note: &str,
    ) -> (action: StreamAction)
        requires
            old(session)@.wf(),
        ensures
            final(session)@.wf(),
            (final(self)@, final(session)@, action@) == spec_dropped(
                old(self)@,
                old(session)@,
                now_ms,
                stamp@,
                note@,
            ),
    {
        session.log_at(stamp, note);
        session.connection = ConnectionStatus::Disconnected;
        self.state = ReconnectState::BackoffWait { since_ms: now_ms };
        StreamAction::Wait(COOL_DOWN_MS)
    }

    /// Looks whether a connection can be made, and starts one if so.
    fn attempt(&mut self, session: &mut SessionState, now_ms: u64, stamp: &str) -> (action:
        StreamAction)
        requires
            old(session)@.wf(),
        ensures
            final(session)@.wf(),
            final(self)@.wf(),
            (final(self)@, final(session)@, action@) == spec_attempt(
                old(self)@,
                old(session)@,
                now_ms,
                stamp@,
            ),
    {
        if session.token.is_none() || session.guild_id.is_none() {
            let due = now_ms > self.last_waiting_note_ms && now_ms - self.last_waiting_note_ms
                > WAITING_NOTE_PERIOD_MS;
            self.state = ReconnectState::Idle;
            if due {
                if session.token.is_none() {
                    session.log_at(stamp, "WS waiting for token...");
                } else {
                    session.log_at(
                        stamp,
                        "WS waiting for Guild ID (join a voice channel or specify --guild-id)...",
                    );
                }
                self.last_waiting_note_ms = now_ms;
            }
            return StreamAction::Wait(CREDENTIAL_POLL_MS);
        }
        let outcome = match &session.token {
            Some(token) => ws_url(session.base_url.as_str(), token.as_str()),
            None => Err(String::new()),
        };
        match outcome {
            Err(message) => {
                let note = concat2("WS URL Parse Error: ", message.as_str());
                session.log_at(stamp, note.as_str());
                self.state = ReconnectState::BackoffWait { since_ms: now_ms };
                StreamAction::Wait(COOL_DOWN_MS)
            },
            Ok(url) => {
                let note = concat2("WS Connecting to ", url.as_str());
                session.log_at(stamp, note.as_str());
                session.connection = ConnectionStatus::Connecting;
                self.state = ReconnectState::Connecting;
                self.guild = session.guild_id.clone();
                StreamAction::Connect(url)
            },
        }
    }

    /// One step of the stream client: takes what happened at `now_ms` and
    /// answers with what to do next. The session is changed only under the
    /// rules of the state the client is in: idle and waiting states touch
    /// nothing but the log and the connection status, and events are applied
    /// only while connected.
    pub fn step(
        &mut self,
        session: &mut SessionState,
        input: StreamInput,
        now_ms: u64,
        stamp: &str,
    ) -> (action: StreamAction)
        requires
            old(self)@.wf(),
            old(session)@.wf(),
        ensures
            final(self)@.wf(),
            final(session)@.wf(),
            (final(self)@, final(session)@, action@) == spec_step(
                old(self)@,
                old(session)@,
                input,
                now_ms,
                stamp@,
            ),
    {
        match self.state {
            ReconnectState::Idle => match input {
                StreamInput::Wake => self.attempt(session, now_ms, stamp),
                _ => StreamAction::Wait(0),
            },
            ReconnectState::BackoffWait { since_ms } => {
                let spent: u64 = if now_ms > since_ms {
                    now_ms - since_ms
                } else {
                    0
                };
                let left: u64 = if spent >= COOL_DOWN_MS {
                    0
                } else {
                    COOL_DOWN_MS - spent
                };
                match input {
                    StreamInput::Wake => {
                        if spent >= COOL_DOWN_MS {
                            self.attempt(session, now_ms, stamp)
                        } else {
                            StreamAction::Wait(left)
                        }
                    },
                    _ => StreamAction::Wait(left),
                }
            },
            ReconnectState::Connecting => match input {
                StreamInput::HandshakeOk => {
                    session.log_at(stamp, "WS Connected");
                    session.connection = ConnectionStatus::Connected;
                    self.state = ReconnectState::Connected;
                    match &self.guild {
                        Some(guild) => StreamAction::Subscribe(guild.clone()),
                        None => StreamAction::Await,
                    }
                },
                StreamInput::HandshakeFailed(reason) => {
                    let note = concat2("WS Connection Failed: ", reason.as_str());
                    self.drop_connection(session, now_ms, stamp, note.as_str())
                },
                _ => StreamAction::Await,
            },
            ReconnectState::Connected => match input {
                StreamInput::Event(event) => {
                    if session.apply_event(event, now_ms, stamp) {
                        StreamAction::Refetch
                    } else {
                        StreamAction::Await
                    }
                },
                StreamInput::Undecodable(text) => {
                    let note = concat2("WS Unparsed Message: ", text.as_str());
                    session.log_at(stamp, note.as_str());
                    StreamAction::Await
                },
                StreamInput::TransportError(reason) => {
                    let note = concat2("WS Error: ", reason.as_str());
                    self.drop_connection(session, now_ms, stamp, note.as_str())
                },
                StreamInput::TransportClosed => self.drop_connection(
                    session,
                    now_ms,
                    stamp,
                    "WS Closed",
                ),
                StreamInput::IdleCheck => {
                    if session.needs_reconnect {
                        session.needs_reconnect = false;
                        self.drop_connection(
                            session,
                            now_ms,
                            stamp,
                            "WS Forcing reconnect due to settings change",
                        )
                    } else {
                        StreamAction::Await
                    }
                },
                _ => StreamAction::Await,
            },
        }
    }
}

} // verus!
