//! The command dispatcher: the requests that the client sends, and how the
//! answers are folded back into the session.
//!
//! A command is one request. The program around the library sends it, waits
//! [`COMMAND_REFRESH_DELAY_MS`] (after a play request
//! [`PLAY_REFRESH_DELAY_MS`]), fetches the queue and hands the answer to
//! [`SessionState::apply_queue_result`]. Nothing is retried.

use vstd::prelude::*;
use crate::api::{
    build_url, clean_query, spec_build_url, spec_clean_query, LoopPayload, LyricsPayload,
    PlayPayload, QueuePayload, SimplePayload, TwentyFourSevenPayload,
};
use crate::json::Json;
use crate::session::{
    spec_queue_applied, LoopMode, Screen, SessionState, SessionView,
};
use crate::text::{concat2, contains, has_substring, str_eq, trim, trimmed};

verus! {

/// Path of the endpoint that takes every command.
pub const AUDIO_ENDPOINT: &'static str = "/webhook/audio";

/// Milliseconds between a command and the fetch that follows it.
pub const COMMAND_REFRESH_DELAY_MS: u64 = 200;

/// Milliseconds between a play request and the fetch that follows it.
pub const PLAY_REFRESH_DELAY_MS: u64 = 500;

/// Milliseconds between two fetches of the fallback poll.
pub const POLL_PERIOD_MS: u64 = 20000;

/// Tracks asked for in one fetch of the queue.
pub const QUEUE_PAGE: usize = 20;

/// An audio filter preset.
#[derive(Clone, Copy, PartialEq, Eq, Structural, Debug)]
pub enum FilterStyle {
    Clear,
    Bassboost,
    Nightcore,
    Vaporwave,
    EightD,
    Soft,
    Tremolo,
    Vibrato,
    Karaoke,
}

/// A command without a text of its own.
#[derive(Clone, Copy, PartialEq, Eq, Structural, Debug)]
pub enum Command {
    Skip,
    Pause,
    Stop,
    Shuffle,
    Clear,
    Loop(LoopMode),
    /// Toggle round-the-clock mode.
    TwentyFourSeven,
    Filter(FilterStyle),
}

/// The request that applies a filter preset.
#[derive(Clone, Debug, PartialEq, Eq)]
pub struct FilterRequest {
    pub action: &'static str,
    pub guild_id: Option<String>,
    pub user_id: Option<String>,
    pub style: FilterStyle,
}

/// The body of the request for a [`Command`].
#[derive(Clone, Debug, PartialEq, Eq)]
pub enum CommandRequest {
    Simple(SimplePayload),
    Loop(LoopPayload),
    TwentyFourSeven(TwentyFourSevenPayload),
    Filter(FilterRequest),
}

/// The name of a loop mode on the wire.
pub open spec fn loop_mode_name(mode: LoopMode) -> Seq<char> {
    match mode {
        LoopMode::Off => "off"@,
        LoopMode::Track => "track"@,
        LoopMode::Queue => "queue"@,
    }
}

/// The loop mode that follows `mode` when the modes are cycled through.
pub open spec fn spec_next_loop_mode(mode: LoopMode) -> LoopMode {
    match mode {
        LoopMode::Off => LoopMode::Track,
        LoopMode::Track => LoopMode::Queue,
        LoopMode::Queue => LoopMode::Off,
    }
}

impl LoopMode {
    /// The name of this mode on the wire.
    pub fn name(self) -> (r: &'static str)
        ensures
            r@ == loop_mode_name(self),
    {
        match self {
            LoopMode::Off => "off",
            LoopMode::Track => "track",
            LoopMode::Queue => "queue",
        }
    }

    /// The mode after this one: off, track, queue, and off again.
    pub fn next(self) -> (r: LoopMode)
        ensures
            r == spec_next_loop_mode(self),
    {
        match self {
            LoopMode::Off => LoopMode::Track,
            LoopMode::Track => LoopMode::Queue,
            LoopMode::Queue => LoopMode::Off,
        }
    }
}

/// The action name of a command that has no argument.
pub open spec fn simple_action_name(command: Command) -> Seq<char> {
    match command {
        Command::Skip => "skip"@,
        Command::Pause => "pause"@,
        Command::Stop => "stop"@,
        Command::Shuffle => "shuffle"@,
        _ => "clear"@,
    }
}

/// The preset that a name stands for, written in lower case.
pub open spec fn spec_filter_style(name: Seq<char>) -> Option<FilterStyle> {
    if name == "clear"@ {
        Some(FilterStyle::Clear)
    } else if name == "bassboost"@ {
        Some(FilterStyle::Bassboost)
    } else if name == "nightcore"@ {
        Some(FilterStyle::Nightcore)
    } else if name == "vaporwave"@ {
        Some(FilterStyle::Vaporwave)
    } else if name == "8d"@ {
        Some(FilterStyle::EightD)
    } else if name == "soft"@ {
        Some(FilterStyle::Soft)
    } else if name == "tremolo"@ {
        Some(FilterStyle::Tremolo)
    } else if name == "vibrato"@ {
        Some(FilterStyle::Vibrato)
    } else if name == "karaoke"@ {
        Some(FilterStyle::Karaoke)
    } else {
        None
    }
}

/// The preset called `name`, which is given in lower case; `None` for a
/// name that stands for no preset.
pub fn filter_style(name: &str) -> (style: Option<FilterStyle>)
    ensures
        style == spec_filter_style(name@),
{
    if str_eq(name, "clear") {
        Some(FilterStyle::Clear)
    } else if str_eq(name, "bassboost") {
        Some(FilterStyle::Bassboost)
    } else if str_eq(name, "nightcore") {
        Some(FilterStyle::Nightcore)
    } else if str_eq(name, "vaporwave") {
        Some(FilterStyle::Vaporwave)
    } else if str_eq(name, "8d") {
        Some(FilterStyle::EightD)
    } else if str_eq(name, "soft") {
        Some(FilterStyle::Soft)
    } else if str_eq(name, "tremolo") {
        Some(FilterStyle::Tremolo)
    } else if str_eq(name, "vibrato") {
        Some(FilterStyle::Vibrato)
    } else if str_eq(name, "karaoke") {
        Some(FilterStyle::Karaoke)
    } else {
        None
    }
}

/// What a word switches round-the-clock mode to: on for `on` and `true`,
/// off for `off` and `false`, a toggle for anything else or nothing.
pub open spec fn spec_switch(word: Option<Seq<char>>) -> Option<bool> {
    match word {
        Some(w) => if w == "on"@ || w == "true"@ {
            Some(true)
        } else if w == "off"@ || w == "false"@ {
            Some(false)
        } else {
            None
        },
        None => None,
    }
}

/// Reads the word that switches round-the-clock mode.
pub fn parse_switch(word: Option<&str>) -> (enabled: Option<bool>)
    ensures
        enabled == spec_switch(
            match word {
                Some(w) => Some(w@),
                None => None,
            },
        ),
{
    match word {
        Some(w) => if str_eq(w, "on") || str_eq(w, "true") {
            Some(true)
        } else if str_eq(w, "off") || str_eq(w, "false") {
            Some(false)
        } else {
            None
        },
        None => None,
    }
}

/// What came back for a fetch of the queue.
#[derive(Debug, PartialEq, Eq)]
pub enum QueueFetch {
    /// The service answered with success; the body, where it is JSON.
    Answer(Option<Json>),
    /// The service answered with an error status; the body as text and,
    /// where it is JSON, decoded.
    Refused { body: String, json: Option<Json> },
    /// The request did not get through; the message of the error.
    Unreachable(String),
}

/// What came back for a fetch of the lyrics.
#[derive(Debug, PartialEq, Eq)]
pub enum LyricsFetch {
    /// The service answered; the body, where it is JSON.
    Answer(Option<Json>),
    /// The request did not get through; the message of the error.
    Unreachable(String),
}

/// Whether an error answer says that the service does not know where the
/// user is: the fatal class of errors.
pub open spec fn spec_context_unknown(json: Option<Json>) -> bool {
    match json {
        Some(j) => j.spec_get_text("error"@) == Some("bad_request"@) && j.spec_get_text(
            "message"@,
        ) == Some("user_not_in_voice_channel_or_guild_unknown"@),
        None => false,
    }
}

/// Whether an error answer is of the fatal class.
pub fn context_unknown(json: &Option<Json>) -> (r: bool)
    ensures
        r == spec_context_unknown(*json),
{
    match json {
        Some(j) => {
            let error_matches = match j.get_str("error") {
                Some(e) => str_eq(e, "bad_request"),
                None => false,
            };
            let message_matches = match j.get_str("message") {
                Some(m) => str_eq(m, "user_not_in_voice_channel_or_guild_unknown"),
                None => false,
            };
            error_matches && message_matches
        },
        None => false,
    }
}

/// The session after the answer to a fetch of the queue was folded in.
pub open spec fn spec_queue_result(s: SessionView, result: QueueFetch, stamp: Seq<char>) -> SessionView {
    let idle = SessionView { is_loading: false, ..s };
    match result {
        QueueFetch::Answer(Some(json)) => SessionView {
            error_message: None,
            ..spec_queue_applied(idle, json, stamp)
        },
        QueueFetch::Answer(None) => idle,
        QueueFetch::Refused { body, json } => if spec_context_unknown(json) {
            SessionView {
                fatal_error: Some(
                    "User not in voice channel or guild unknown.\n\nPress 'r' to reload."@,
                ),
                ..idle
            }
        } else if has_substring(body@, "guild_id is required"@) {
            SessionView {
                error_message: Some("Not connected to a voice channel or Guild ID missing."@),
                ..idle
            }
        } else {
            SessionView { error_message: Some("Error: "@ + body@), ..idle }
        },
        QueueFetch::Unreachable(message) => SessionView {
            error_message: Some("Network error: "@ + message@),
            ..idle
        },
    }
}

/// The text of one line of timed lyrics, with its line break.
pub open spec fn lyric_line(line: Json) -> Seq<char> {
    match line.spec_get_text("line"@) {
        Some(text) => text + "\n"@,
        None => "\n"@,
    }
}

/// The lines of timed lyrics, one after the other.
pub open spec fn lyric_lines(lines: Seq<Json>) -> Seq<char>
    decreases lines.len(),
{
    if lines.len() == 0 {
        Seq::empty()
    } else {
        lyric_lines(lines.drop_last()) + lyric_line(lines.last())
    }
}

/// The lyrics that an answer holds under `data`: its `text`, or else its
/// `lines` joined.
pub open spec fn lyrics_body(data: Json) -> Seq<char> {
    match data.spec_get_text("text"@) {
        Some(text) => text,
        None => match data.spec_get_items("lines"@) {
            Some(lines) => lyric_lines(lines),
            None => Seq::empty(),
        },
    }
}

/// The text that the lyrics screen shows for an answer.
pub open spec fn spec_lyrics_text(result: LyricsFetch) -> Seq<char> {
    match result {
        LyricsFetch::Answer(Some(json)) => match json.spec_get_object("data"@) {
            Some(data) => if trimmed(lyrics_body(data)).len() == 0 {
                "No lyrics found."@
            } else {
                lyrics_body(data)
            },
            None => "No lyrics found."@,
        },
        LyricsFetch::Answer(None) => "Failed to parse lyrics."@,
        LyricsFetch::Unreachable(message) => "Failed to fetch lyrics: "@ + message@,
    }
}

/// The session after the answer to a fetch of the lyrics was folded in.
pub open spec fn spec_lyrics_result(s: SessionView, result: LyricsFetch) -> SessionView {
    SessionView {
        screen: Screen::Lyrics,
        lyrics_scroll: 0,
        is_loading: false,
        lyrics_text: Some(spec_lyrics_text(result)),
        ..s
    }
}

/// Joins the lines of timed lyrics.
fn join_lyric_lines(lines: &Vec<Json>) -> (text: String)
    ensures
        text@ == lyric_lines(lines@),
{
    let mut text = String::new();
    let mut i: usize = 0;
    assert(lines@.take(0) =~= Seq::empty());
    while i < lines.len()
        invariant
            i <= lines.len(),
            text@ == lyric_lines(lines@.take(i as int)),
        decreases lines.len() - i,
    {
        assert(lines@.take(i + 1).drop_last() == lines@.take(i as int));
        assert(lines@.take(i + 1).last() == lines@[i as int]);
        match lines[i].get_str("line") {
            Some(line) => {
                text.append(line);
            },
            None => {},
        }
        text.append("\n");
        i = i + 1;
    }
    assert(lines@.take(lines@.len() as int) == lines@);
    text
}

/// The text that the lyrics screen shows for an answer.
pub fn lyrics_text(result: &LyricsFetch) -> (text: String)
    ensures
        text@ == spec_lyrics_text(*result),
{
    match result {
        LyricsFetch::Answer(Some(json)) => match json.get_object("data") {
            Some(data) => {
                let body = match data.get_str("text") {
                    Some(text) => text.to_string(),
                    None => match data.get_array("lines") {
                        Some(lines) => join_lyric_lines(lines),
                        None => String::new(),
                    },
                };
                if trim(body.as_str()).as_str().unicode_len() == 0 {
                    "No lyrics found.".to_string()
                } else {
                    body
                }
            },
            None => "No lyrics found.".to_string(),
        },
        LyricsFetch::Answer(None) => "Failed to parse lyrics.".to_string(),
        LyricsFetch::Unreachable(message) => concat2("Failed to fetch lyrics: ", message.as_str()),
    }
}

impl SessionState {
    /// The address that commands are posted to.
    pub fn audio_url(&self) -> (url: String)
        ensures
            url@ == spec_build_url(self@.base_url, AUDIO_ENDPOINT@),
    {
        build_url(self.base_url.as_str(), AUDIO_ENDPOINT)
    }

    /// Marks that a request is under way.
    pub fn begin_request(&mut self)
        ensures
            final(self)@ == (SessionView { is_loading: true, ..old(self)@ }),
    {
        self.is_loading = true;
    }

    /// The request for the first page of the queue.
    pub fn queue_payload(&self) -> (p: QueuePayload)
        ensures
            p.action@ == "queue"@,
            p.guild_id == self.guild_id,
            p.user_id == self.user_id,
            p.limit == QUEUE_PAGE,
            p.offset == 0,
    {
        QueuePayload {
            action: "queue",
            guild_id: self.guild_id.clone(),
            user_id: self.user_id.clone(),
            limit: QUEUE_PAGE,
            offset: 0,
        }
    }

    /// The request that plays what `query` names, with the share marker
    /// removed from it.
    pub fn play_payload(&self, query: &str) -> (p: PlayPayload)
        ensures
            p.action@ == "play"@,
            p.guild_id == self.guild_id,
            p.channel_id is None,
            p.query@ == spec_clean_query(query@),
            p.user_id == self.user_id,
            p.requested_by is None,
            p.avatar_url is None,
    {
        PlayPayload {
            action: "play",
            guild_id: self.guild_id.clone(),
            channel_id: None,
            query: clean_query(query),
            user_id: self.user_id.clone(),
            requested_by: None,
            avatar_url: None,
        }
    }

    /// The request for the lyrics of the current track.
    pub fn lyrics_payload(&self) -> (p: LyricsPayload)
        ensures
            p.action@ == "lyrics"@,
            p.guild_id == self.guild_id,
            p.user_id == self.user_id,
    {
        LyricsPayload {
            action: "lyrics".to_string(),
            guild_id: self.guild_id.clone(),
            user_id: self.user_id.clone(),
        }
    }

    /// The body of the request for `command`, for the guild and user of this
    /// session.
    pub fn command_request(&self, command: Command) -> (request: CommandRequest)
        ensures
            match command {
                Command::Loop(mode) => request matches CommandRequest::Loop(p) && p.action@
                    == "loop"@ && p.guild_id == self.guild_id && p.user_id == self.user_id
                    && p.loop_mode@ == loop_mode_name(mode),
                Command::TwentyFourSeven => request matches CommandRequest::TwentyFourSeven(p)
                    && p.action@ == "247"@ && p.guild_id == self.guild_id && p.user_id
                    == self.user_id && p.enabled is None,
                Command::Filter(style) => request matches CommandRequest::Filter(p) && p.action@
                    == "filter"@ && p.guild_id == self.guild_id && p.user_id == self.user_id
                    && p.style == style,
                _ => request matches CommandRequest::Simple(p) && p.action@ == simple_action_name(
                    command,
                ) && p.guild_id == self.guild_id && p.user_id == self.user_id,
            },
    {
        let guild_id = self.guild_id.clone();
        let user_id = self.user_id.clone();
        match command {
            Command::Skip => CommandRequest::Simple(
                SimplePayload { action: "skip", guild_id, user_id },
            ),
            Command::Pause => CommandRequest::Simple(
                SimplePayload { action: "pause", guild_id, user_id },
            ),
            Command::Stop => CommandRequest::Simple(
                SimplePayload { action: "stop", guild_id, user_id },
            ),
            Command::Shuffle => CommandRequest::Simple(
                SimplePayload { action: "shuffle", guild_id, user_id },
            ),
            Command::Clear => CommandRequest::Simple(
                SimplePayload { action: "clear", guild_id, user_id },
            ),
            Command::Loop(mode) => CommandRequest::Loop(
                LoopPayload {
                    action: "loop",
                    guild_id,
                    user_id,
                    loop_mode: mode.name().to_string(),
                },
            ),
            Command::TwentyFourSeven => CommandRequest::TwentyFourSeven(
                TwentyFourSevenPayload { action: "247", guild_id, user_id, enabled: None },
            ),
            Command::Filter(style) => CommandRequest::Filter(
                FilterRequest { action: "filter", guild_id, user_id, style },
            ),
        }
    }

    /// Folds the answer to a fetch of the queue into the session. A good
    /// answer replaces queue and current track and clears the error
    /// message. An error answer of the fatal class sets the fatal error,
    /// which only a reload clears; any other failure sets the error message.
    pub fn apply_queue_result(&mut self, result: QueueFetch, stamp: &str)
        requires
            old(self)@.wf(),
        ensures
            final(self)@.wf(),
            final(self)@ == spec_queue_result(old(self)@, result, stamp@),
    {
        self.is_loading = false;
        match result {
            QueueFetch::Answer(Some(json)) => {
                self.parse_queue_response(&json, stamp);
                self.error_message = None;
            },
            QueueFetch::Answer(None) => {},
            QueueFetch::Refused { body, json } => {
                if context_unknown(&json) {
                    self.fatal_error = Some(
                        "User not in voice channel or guild unknown.\n\nPress 'r' to reload.".to_string(),
                    );
                } else if contains(body.as_str(), "guild_id is required") {
                    self.error_message = Some(
                        "Not connected to a voice channel or Guild ID missing.".to_string(),
                    );
                } else {
                    self.error_message = Some(concat2("Error: ", body.as_str()));
                }
            },
            QueueFetch::Unreachable(message) => {
                self.error_message = Some(concat2("Network error: ", message.as_str()));
            },
        }
    }

    /// Folds the answer to a fetch of the lyrics into the session and shows
    /// the lyrics screen from its top.
    pub fn apply_lyrics_result(&mut self, result: LyricsFetch)
        ensures
            final(self)@ == spec_lyrics_result(old(self)@, result),
    {
        self.screen = Screen::Lyrics;
        self.lyrics_scroll = 0;
        self.is_loading = false;
        self.lyrics_text = Some(lyrics_text(&result));
    }
}

/// Folding an answer into the session never touches the playback position,
/// the spectrogram or the bars, keeps the invariant, and never clears a
/// fatal error.
pub proof fn lemma_queue_result_frame(s: SessionView, result: QueueFetch, stamp: Seq<char>)
    requires
        s.wf(),
    ensures
        spec_queue_result(s, result, stamp).wf(),
        spec_queue_result(s, result, stamp).playback == s.playback,
        spec_queue_result(s, result, stamp).spectrogram == s.spectrogram,
        spec_queue_result(s, result, stamp).bars == s.bars,
        !spec_queue_result(s, result, stamp).is_loading,
        s.fatal_error is Some ==> spec_queue_result(s, result, stamp).fatal_error is Some,
{
}

/// A failed fetch leaves queue and current track as they were; only a
/// fatal answer sets the fatal error, and no answer clears it.
pub proof fn lemma_failed_fetch_keeps_queue(s: SessionView, result: QueueFetch, stamp: Seq<char>)
    requires
        !(result matches QueueFetch::Answer(Some(_))),
    ensures
        spec_queue_result(s, result, stamp).queue == s.queue,
        spec_queue_result(s, result, stamp).current_track == s.current_track,
        spec_queue_result(s, result, stamp).guild_id == s.guild_id,
        spec_queue_result(s, result, stamp).logs == s.logs,
        spec_queue_result(s, result, stamp).fatal_error != s.fatal_error ==> (result matches QueueFetch::Refused {
            json,
            ..
        } && spec_context_unknown(json)),
{
}

} // verus!
