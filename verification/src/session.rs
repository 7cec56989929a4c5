//! The session state: everything the client shows, in one record that every
//! task changes only while it holds the record exclusively.
//!
//! Each operation is specified over [`SessionView`], the mathematical value
//! of a [`SessionState`], by a spec function from the value before to the
//! value after.

use vstd::prelude::*;
use crate::json::Json;
use crate::text::{opt_text, signed_decimal, signed_decimal_string, texts};
use crate::visualizer::{
    bars_ok, decayed, fade_bars, faded, faded_by, lemma_faded_by, lemma_faded_ok,
    lemma_idle_decay, lemma_smoothed_ok, power, select_frame, silent_bars, smooth_frame,
    smoothed, spec_select_frame, BANDS, LEVEL_MAX, LEVEL_UNIT,
};

verus! {

/// Most lines that the diagnostic log keeps.
pub const LOG_CAPACITY: usize = 100;

/// What is repeated when the queue runs out.
#[derive(Clone, Copy, PartialEq, Eq, Structural, Debug)]
pub enum LoopMode {
    Off,
    Track,
    Queue,
}

/// Where the event stream stands.
#[derive(Clone, Copy, PartialEq, Eq, Structural, Debug)]
pub enum ConnectionStatus {
    Disconnected,
    Connecting,
    Connected,
}

/// Whether keys are typed into the search line.
#[derive(Clone, Copy, PartialEq, Eq, Structural, Debug)]
pub enum InputMode {
    Normal,
    Editing,
}

/// The screen that takes the keys.
#[derive(Clone, Copy, PartialEq, Eq, Structural, Debug)]
pub enum Screen {
    Main,
    Menu,
    Lyrics,
    FilterMenu,
    AuthMenu,
    AuthResult,
    LoginRequired,
    Settings,
    Debug,
}

/// The line of the settings screen that is edited.
#[derive(Clone, Copy, PartialEq, Eq, Structural, Debug)]
pub enum SettingsField {
    Host,
    Offset,
}

/// Title and author of a track.
#[derive(Clone, Debug, PartialEq, Eq)]
pub struct TrackSummary {
    pub title: String,
    pub author: String,
}

/// The value of a [`TrackSummary`].
pub struct TrackView {
    pub title: Seq<char>,
    pub author: Seq<char>,
}

impl View for TrackSummary {
    type V = TrackView;

    open spec fn view(&self) -> TrackView {
        TrackView { title: self.title@, author: self.author@ }
    }
}

/// The values of the tracks of a list.
pub open spec fn tracks(v: Seq<TrackSummary>) -> Seq<TrackView> {
    v.map_values(|t: TrackSummary| t@)
}

/// The value of an optional track.
pub open spec fn opt_track(o: Option<TrackSummary>) -> Option<TrackView> {
    match o {
        Some(t) => Some(t@),
        None => None,
    }
}

/// The snapshots of a spectrogram as sequences of magnitudes.
pub open spec fn frames(v: Seq<Vec<u8>>) -> Seq<Seq<u8>> {
    v.map_values(|f: Vec<u8>| f@)
}

/// The value of an optional spectrogram.
pub open spec fn opt_frames(o: Option<Vec<Vec<u8>>>) -> Option<Seq<Seq<u8>>> {
    match o {
        Some(v) => Some(frames(v@)),
        None => None,
    }
}

/// How a track is shown in one line: title, a dash, author.
pub open spec fn track_line(t: TrackView) -> Seq<char> {
    t.title + " - "@ + t.author
}

impl TrackSummary {
    /// The line that shows this track.
    pub fn display(&self) -> (line: String)
        ensures
            line@ == track_line(self@),
    {
        let mut line = self.title.clone();
        line.append(" - ");
        line.append(self.author.as_str());
        line
    }
}

/// The playback position and the point on the monotonic clock, in
/// milliseconds, from which it is carried forward.
#[derive(Clone, Copy, PartialEq, Eq, Structural, Debug)]
pub struct Playback {
    pub elapsed_ms: u64,
    pub duration_ms: u64,
    pub paused: bool,
    pub anchor_ms: u64,
}

impl Playback {
    /// Whether the position lies within the track, where the track's length
    /// is known.
    pub open spec fn in_range(self) -> bool {
        self.duration_ms > 0 ==> self.elapsed_ms <= self.duration_ms
    }
}

/// A reading of the clocks: milliseconds on a monotonic clock, and the time
/// of day as a log line shows it.
#[derive(Clone, Debug)]
pub struct Moment {
    pub now_ms: u64,
    pub stamp: String,
}

/// The time of day from `chrono::Local::now`, formatted as hours, minutes
/// and seconds. Nothing is claimed of the text: it depends on the clock and
/// the time zone.
#[verifier::external_body]
fn time_of_day() -> (stamp: String) {
    chrono::Local::now().format("%H:%M:%S").to_string()
}

impl Moment {
    /// The moment at `now_ms` on the monotonic clock, with the time of day
    /// read from the system.
    pub fn at(now_ms: u64) -> (m: Moment)
        ensures
            m.now_ms == now_ms,
    {
        Moment { now_ms, stamp: time_of_day() }
    }
}

/// Everything the client shows and the tasks share.
#[derive(Clone, Debug)]
pub struct SessionState {
    pub base_url: String,
    pub token: Option<String>,
    pub guild_id: Option<String>,
    pub user_id: Option<String>,
    pub queue: Vec<TrackSummary>,
    pub current_track: Option<TrackSummary>,
    pub error_message: Option<String>,
    pub fatal_error: Option<String>,
    pub loop_mode: LoopMode,
    pub is_loading: bool,
    pub input: String,
    pub input_mode: InputMode,
    pub screen: Screen,
    pub menu_selected: usize,
    pub filter_selected: usize,
    pub auth_selected: usize,
    pub lyrics_text: Option<String>,
    pub lyrics_scroll: u16,
    pub auth_info_text: Option<String>,
    pub spectrogram: Option<Vec<Vec<u8>>>,
    pub playback: Playback,
    pub settings_input: String,
    pub offset_input: String,
    pub settings_field: SettingsField,
    pub needs_reconnect: bool,
    pub visualizer_offset: i64,
    pub debug_logs: Vec<String>,
    pub connection: ConnectionStatus,
    pub smoothed_bars: Vec<u32>,
}

/// The value of a [`SessionState`].
#[verifier::ext_equal]
pub struct SessionView {
    pub base_url: Seq<char>,
    pub token: Option<Seq<char>>,
    pub guild_id: Option<Seq<char>>,
    pub user_id: Option<Seq<char>>,
    pub queue: Seq<TrackView>,
    pub current_track: Option<TrackView>,
    pub error_message: Option<Seq<char>>,
    pub fatal_error: Option<Seq<char>>,
    pub loop_mode: LoopMode,
    pub is_loading: bool,
    pub input: Seq<char>,
    pub input_mode: InputMode,
    pub screen: Screen,
    pub menu_selected: usize,
    pub filter_selected: usize,
    pub auth_selected: usize,
    pub lyrics_text: Option<Seq<char>>,
    pub lyrics_scroll: u16,
    pub auth_info_text: Option<Seq<char>>,
    pub spectrogram: Option<Seq<Seq<u8>>>,
    pub playback: Playback,
    pub settings_input: Seq<char>,
    pub offset_input: Seq<char>,
    pub settings_field: SettingsField,
    pub needs_reconnect: bool,
    pub visualizer_offset: i64,
    pub logs: Seq<Seq<char>>,
    pub connection: ConnectionStatus,
    pub bars: Seq<u32>,
}

impl View for SessionState {
    type V = SessionView;

    open spec fn view(&self) -> SessionView {
        SessionView {
            base_url: self.base_url@,
            token: opt_text(self.token),
            guild_id: opt_text(self.guild_id),
            user_id: opt_text(self.user_id),
            queue: tracks(self.queue@),
            current_track: opt_track(self.current_track),
            error_message: opt_text(self.error_message),
            fatal_error: opt_text(self.fatal_error),
            loop_mode: self.loop_mode,
            is_loading: self.is_loading,
            input: self.input@,
            input_mode: self.input_mode,
            screen: self.screen,
            menu_selected: self.menu_selected,
            filter_selected: self.filter_selected,
            auth_selected: self.auth_selected,
            lyrics_text: opt_text(self.lyrics_text),
            lyrics_scroll: self.lyrics_scroll,
            auth_info_text: opt_text(self.auth_info_text),
            spectrogram: opt_frames(self.spectrogram),
            playback: self.playback,
            settings_input: self.settings_input@,
            offset_input: self.offset_input@,
            settings_field: self.settings_field,
            needs_reconnect: self.needs_reconnect,
            visualizer_offset: self.visualizer_offset,
            logs: texts(self.debug_logs@),
            connection: self.connection,
            bars: self.smoothed_bars@,
        }
    }
}

/// Number of entries of the main menu.
pub const MENU_ITEMS: usize = 15;

/// Number of entries of the filter menu.
pub const FILTER_ITEMS: usize = 9;

/// Number of entries of the account menu.
pub const AUTH_ITEMS: usize = 3;

impl SessionView {
    /// The invariant of the session state: a position within the track
    /// where the length of the track is known, 64 bars in range, a log
    /// within its capacity, and menu selections that point at an entry.
    pub open spec fn wf(self) -> bool {
        &&& self.playback.in_range()
        &&& bars_ok(self.bars)
        &&& self.logs.len() <= LOG_CAPACITY
        &&& self.menu_selected < MENU_ITEMS
        &&& self.filter_selected < FILTER_ITEMS
        &&& self.auth_selected < AUTH_ITEMS
    }

    /// Whether a track is current and not paused.
    pub open spec fn playing(self) -> bool {
        self.current_track is Some && !self.playback.paused
    }
}

/// The line that the log keeps for `message` at the time of day `stamp`.
pub open spec fn log_line(stamp: Seq<char>, message: Seq<char>) -> Seq<char> {
    "["@ + stamp + "] "@ + message
}

/// The log after `line` was added: the line stands last, and the oldest
/// line has left if the log was full.
pub open spec fn logged(logs: Seq<Seq<char>>, line: Seq<char>) -> Seq<Seq<char>> {
    if logs.len() >= LOG_CAPACITY {
        logs.drop_first().push(line)
    } else {
        logs.push(line)
    }
}

/// The session after `message` was logged at `stamp`.
pub open spec fn spec_log(s: SessionView, stamp: Seq<char>, message: Seq<char>) -> SessionView {
    SessionView { logs: logged(s.logs, log_line(stamp, message)), ..s }
}

/// A reported position as it is kept: within the track where the length of
/// the track is known, else as reported.
pub open spec fn spec_within_track(elapsed_ms: u64, duration_ms: u64) -> u64 {
    if duration_ms > 0 && elapsed_ms > duration_ms {
        duration_ms
    } else {
        elapsed_ms
    }
}

/// Keeps a reported position within the track.
pub fn within_track(elapsed_ms: u64, duration_ms: u64) -> (kept: u64)
    ensures
        kept == spec_within_track(elapsed_ms, duration_ms),
{
    if duration_ms > 0 && elapsed_ms > duration_ms {
        duration_ms
    } else {
        elapsed_ms
    }
}

/// The position after the clock moved on to `now_ms`: advanced by the time
/// since the anchor, kept within `u64` and, where the length of the track is
/// known, within the track.
pub open spec fn spec_extrapolated(p: Playback, now_ms: u64) -> Playback {
    let delta = if now_ms > p.anchor_ms {
        now_ms - p.anchor_ms
    } else {
        0
    };
    let advanced = if p.elapsed_ms + delta > u64::MAX {
        u64::MAX as int
    } else {
        p.elapsed_ms + delta
    };
    let clamped = if p.duration_ms > 0 && advanced > p.duration_ms {
        p.duration_ms as int
    } else {
        advanced
    };
    Playback { elapsed_ms: clamped as u64, anchor_ms: now_ms, ..p }
}

/// The bars after one tick of playback at position `elapsed_ms`.
pub open spec fn spec_followed(
    bars: Seq<u32>,
    spectrogram: Option<Seq<Seq<u8>>>,
    elapsed_ms: u64,
    offset_ms: i64,
) -> Seq<u32> {
    match spectrogram {
        Some(snapshots) => match spec_select_frame(snapshots.len(), elapsed_ms, offset_ms) {
            Some(index) => smoothed(bars, snapshots[index as int]),
            None => bars,
        },
        None => bars,
    }
}

/// The session after one render tick at `now_ms`.
pub open spec fn spec_tick(s: SessionView, now_ms: u64) -> SessionView {
    if s.playing() {
        let playback = spec_extrapolated(s.playback, now_ms);
        SessionView {
            playback,
            bars: spec_followed(s.bars, s.spectrogram, playback.elapsed_ms, s.visualizer_offset),
            ..s
        }
    } else {
        SessionView {
            playback: Playback { anchor_ms: now_ms, ..s.playback },
            bars: faded(s.bars),
            ..s
        }
    }
}

/// The track that an item of a queue answer describes: its members `title`
/// and `author`, where they are texts.
pub open spec fn track_of(item: Json) -> TrackView {
    TrackView {
        title: match item.spec_get_text("title"@) {
            Some(title) => title,
            None => "Unknown"@,
        },
        author: match item.spec_get_text("author"@) {
            Some(author) => author,
            None => ""@,
        },
    }
}

/// The tracks that the items of a queue answer describe.
pub open spec fn tracks_of(items: Seq<Json>) -> Seq<TrackView> {
    items.map_values(|item: Json| track_of(item))
}

/// The guild that a queue answer names, under `guild_id` or else `guildId`.
pub open spec fn spec_reported_guild(json: Json) -> Option<Seq<char>> {
    match json.spec_get_text("guild_id"@) {
        Some(guild) => Some(guild),
        None => json.spec_get_text("guildId"@),
    }
}

/// The session after the queue answer `json` was taken over at `stamp`.
pub open spec fn spec_queue_applied(s: SessionView, json: Json, stamp: Seq<char>) -> SessionView {
    let guild = spec_reported_guild(json);
    SessionView {
        guild_id: if guild is Some {
            guild
        } else {
            s.guild_id
        },
        logs: if guild is Some && s.guild_id is None {
            logged(s.logs, log_line(stamp, "Discovered Guild ID: "@ + guild->0))
        } else {
            s.logs
        },
        current_track: match json.spec_get_object("current"@) {
            Some(current) => Some(track_of(current)),
            None => None,
        },
        queue: match json.spec_get_items("upcoming"@) {
            Some(items) => tracks_of(items),
            None => Seq::empty(),
        },
        ..s
    }
}

/// Taking the same queue answer over twice gives what taking it over once
/// gives: the same queue, current track, guild and log.
pub proof fn lemma_queue_applied_twice(
    s: SessionView,
    json: Json,
    first: Seq<char>,
    second: Seq<char>,
)
    ensures
        spec_queue_applied(spec_queue_applied(s, json, first), json, second) == spec_queue_applied(
            s,
            json,
            first,
        ),
{
}

/// After a tick the position lies within the track, whatever the session
/// was: while a track plays the position is clamped, and otherwise it stays
/// where the invariant had it. Every operation on the session keeps the
/// invariant, so this holds after any sequence of events.
pub proof fn lemma_tick_in_range(s: SessionView, now_ms: u64)
    requires
        s.wf(),
    ensures
        spec_tick(s, now_ms).playback.in_range(),
        s.playing() ==> spec_tick(s, now_ms).playback.elapsed_ms >= s.playback.elapsed_ms,
        !s.playing() ==> spec_tick(s, now_ms).playback.elapsed_ms == s.playback.elapsed_ms,
{
}

/// A tick keeps the invariant, and changes nothing but the position, its
/// anchor and the bars.
pub proof fn lemma_tick_frame(s: SessionView, now_ms: u64)
    requires
        s.wf(),
    ensures
        spec_tick(s, now_ms).wf(),
        spec_tick(s, now_ms).playback.anchor_ms == now_ms,
        spec_tick(s, now_ms) == (SessionView {
            playback: spec_tick(s, now_ms).playback,
            bars: spec_tick(s, now_ms).bars,
            ..s
        }),
{
    lemma_faded_ok(s.bars);
    if s.playing() {
        let playback = spec_extrapolated(s.playback, now_ms);
        match s.spectrogram {
            Some(snapshots) => {
                match spec_select_frame(
                    snapshots.len(),
                    playback.elapsed_ms,
                    s.visualizer_offset,
                ) {
                    Some(index) => {
                        lemma_smoothed_ok(s.bars, snapshots[index as int]);
                    },
                    None => {},
                }
            },
            None => {},
        }
    }
}

/// The session after one tick at each of the clock readings `times`, in
/// order.
pub open spec fn spec_ticks(s: SessionView, times: Seq<u64>) -> SessionView
    decreases times.len(),
{
    if times.len() == 0 {
        s
    } else {
        spec_tick(spec_ticks(s, times.drop_last()), times.last())
    }
}

/// While nothing plays, every tick is an idle step: after any number of
/// ticks each bar holds nineteen twentieths of its level to the power of
/// that number, less at most 19 millionths lost to rounding, which is
/// less than a thousandth of a display unit. The bounds are stated without
/// fractions, multiplied by `20` to that power. The position does not move.
pub proof fn lemma_idle_ticks_decay(s: SessionView, times: Seq<u64>, band: int)
    requires
        s.wf(),
        !s.playing(),
        0 <= band < BANDS,
    ensures
        spec_ticks(s, times).wf(),
        !spec_ticks(s, times).playing(),
        spec_ticks(s, times).playback.elapsed_ms == s.playback.elapsed_ms,
        spec_ticks(s, times).bars == faded_by(s.bars, times.len()),
        spec_ticks(s, times).bars[band] == decayed(s.bars[band] as int, times.len()),
        spec_ticks(s, times).bars[band] * power(20, times.len()) <= s.bars[band] * power(
            19,
            times.len(),
        ),
        s.bars[band] * power(19, times.len()) - spec_ticks(s, times).bars[band] * power(
            20,
            times.len(),
        ) <= 19 * (power(20, times.len()) - power(19, times.len())),
        1000 * (s.bars[band] * power(19, times.len()) - spec_ticks(s, times).bars[band] * power(
            20,
            times.len(),
        )) <= LEVEL_UNIT * power(20, times.len()),
    decreases times.len(),
{
    if times.len() > 0 {
        lemma_idle_ticks_decay(s, times.drop_last(), band);
        lemma_tick_frame(spec_ticks(s, times.drop_last()), times.last());
    }
    lemma_faded_by(s.bars, times.len(), band);
    lemma_idle_decay(s.bars[band] as int, times.len());
}

/// The track that `item` describes.
pub fn track_from_json(item: &Json) -> (track: TrackSummary)
    ensures
        track@ == track_of(*item),
{
    let title = match item.get_str("title") {
        Some(title) => title.to_string(),
        None => "Unknown".to_string(),
    };
    let author = match item.get_str("author") {
        Some(author) => author.to_string(),
        None => "".to_string(),
    };
    TrackSummary { title, author }
}

/// Adds `line` to `logs`, dropping the oldest line of a full log.
fn push_log_line(logs: &mut Vec<String>, line: String)
    requires
        old(logs)@.len() <= LOG_CAPACITY,
    ensures
        texts(final(logs)@) == logged(texts(old(logs)@), line@),
        final(logs)@.len() <= LOG_CAPACITY,
{
    if logs.len() >= LOG_CAPACITY {
        logs.remove(0);
    }
    logs.push(line);
    assert(texts(logs@) =~= logged(texts(old(logs)@), line@));
}

/// The log line for `message` at `stamp`.
fn make_log_line(stamp: &str, message: &str) -> (line: String)
    ensures
        line@ == log_line(stamp@, message@),
{
    let mut line = "[".to_string();
    line.append(stamp);
    line.append("] ");
    line.append(message);
    line
}

impl SessionState {
    /// The state at start: nothing playing, paused at zero, an empty queue,
    /// silent bars, an empty log, no connection. Without a token the login
    /// screen is shown, else the main screen.
    pub fn new(
        base_url: String,
        visualizer_offset: i64,
        token: Option<String>,
        guild_id: Option<String>,
        user_id: Option<String>,
        now_ms: u64,
    ) -> (state: SessionState)
        ensures
            state@.wf(),
            state@ == (SessionView {
                base_url: base_url@,
                token: opt_text(token),
                guild_id: opt_text(guild_id),
                user_id: opt_text(user_id),
                queue: Seq::empty(),
                current_track: None,
                error_message: None,
                fatal_error: None,
                loop_mode: LoopMode::Off,
                is_loading: false,
                input: Seq::empty(),
                input_mode: InputMode::Normal,
                screen: if token is Some {
                    Screen::Main
                } else {
                    Screen::LoginRequired
                },
                menu_selected: 0,
                filter_selected: 0,
                auth_selected: 0,
                lyrics_text: None,
                lyrics_scroll: 0,
                auth_info_text: None,
                spectrogram: None,
                playback: Playback { elapsed_ms: 0, duration_ms: 0, paused: true, anchor_ms: now_ms },
                settings_input: base_url@,
                offset_input: signed_decimal(visualizer_offset as int),
                settings_field: SettingsField::Host,
                needs_reconnect: false,
                visualizer_offset,
                logs: Seq::empty(),
                connection: ConnectionStatus::Disconnected,
                bars: Seq::new(64, |i: int| 0u32),
            }),
    {
        let screen = if token.is_some() {
            Screen::Main
        } else {
            Screen::LoginRequired
        };
        let settings_input = base_url.clone();
        let offset_input = signed_decimal_string(visualizer_offset);
        let state = SessionState {
            base_url,
            token,
            guild_id,
            user_id,
            queue: Vec::new(),
            current_track: None,
            error_message: None,
            fatal_error: None,
            loop_mode: LoopMode::Off,
            is_loading: false,
            input: String::new(),
            input_mode: InputMode::Normal,
            screen,
            menu_selected: 0,
            filter_selected: 0,
            auth_selected: 0,
            lyrics_text: None,
            lyrics_scroll: 0,
            auth_info_text: None,
            spectrogram: None,
            playback: Playback { elapsed_ms: 0, duration_ms: 0, paused: true, anchor_ms: now_ms },
            settings_input,
            offset_input,
            settings_field: SettingsField::Host,
            needs_reconnect: false,
            visualizer_offset,
            debug_logs: Vec::new(),
            connection: ConnectionStatus::Disconnected,
            smoothed_bars: silent_bars(),
        };
        assert(state@.queue =~= Seq::empty());
        assert(state@.logs =~= Seq::empty());
        assert(state@.bars =~= Seq::new(64, |i: int| 0u32));
        state
    }

    /// Whether the invariant of the session state holds.
    pub fn is_well_formed(&self) -> (ok: bool)
        ensures
            ok == self@.wf(),
    {
        if self.smoothed_bars.len() != BANDS || self.debug_logs.len() > LOG_CAPACITY
            || self.menu_selected >= MENU_ITEMS || self.filter_selected >= FILTER_ITEMS
            || self.auth_selected >= AUTH_ITEMS {
            return false;
        }
        if self.playback.duration_ms > 0 && self.playback.elapsed_ms > self.playback.duration_ms {
            return false;
        }
        let mut i: usize = 0;
        while i < BANDS
            invariant
                i <= BANDS,
                self.smoothed_bars@.len() == BANDS,
                forall|k: int| 0 <= k < i ==> #[trigger] self.smoothed_bars@[k] <= LEVEL_MAX,
            decreases BANDS - i,
        {
            if self.smoothed_bars[i] > LEVEL_MAX {
                return false;
            }
            i = i + 1;
        }
        true
    }

    /// Adds the line for `message` at the time of day `stamp` to the log. A
    /// full log loses its oldest line.
    pub fn log_at(&mut self, stamp: &str, message: &str)
        requires
            old(self)@.wf(),
        ensures
            final(self)@.wf(),
            final(self)@ == spec_log(old(self)@, stamp@, message@),
    {
        let line = make_log_line(stamp, message);
        push_log_line(&mut self.debug_logs, line);
    }

    /// Adds the line for `message` to the log, with the time of day read
    /// from the system. Whatever the clock said, the log holds the line for
    /// `message` at some time of day, as [`SessionState::log_at`] adds it.
    pub fn log(&mut self, message: &str)
        requires
            old(self)@.wf(),
        ensures
            final(self)@.wf(),
            exists|stamp: Seq<char>| final(self)@ == spec_log(old(self)@, stamp, message@),
    {
        let stamp = time_of_day();
        self.log_at(stamp.as_str(), message);
    }

    /// Takes a queue answer of the service over: the guild it names, the
    /// current track and the upcoming tracks. A guild that is learnt for the
    /// first time is noted in the log.
    pub fn parse_queue_response(&mut self, json: &Json, stamp: &str)
        requires
            old(self)@.wf(),
        ensures
            final(self)@.wf(),
            final(self)@ == spec_queue_applied(old(self)@, *json, stamp@),
    {
        let reported: Option<&str> = match json.get_str("guild_id") {
            Some(guild) => Some(guild),
            None => json.get_str("guildId"),
        };
        match reported {
            Some(guild) => {
                if self.guild_id.is_none() {
                    let mut message = "Discovered Guild ID: ".to_string();
                    message.append(guild);
                    self.log_at(stamp, message.as_str());
                }
                self.guild_id = Some(guild.to_string());
            },
            None => {},
        }
        self.current_track = match json.get_object("current") {
            Some(current) => Some(track_from_json(current)),
            None => None,
        };
        let mut queue: Vec<TrackSummary> = Vec::new();
        match json.get_array("upcoming") {
            Some(items) => {
                let mut i: usize = 0;
                while i < items.len()
                    invariant
                        i <= items.len(),
                        queue@.len() == i,
                        tracks(queue@) == tracks_of(items@.take(i as int)),
                    decreases items.len() - i,
                {
                    let ghost before = queue@;
                    let track = track_from_json(&items[i]);
                    queue.push(track);
                    assert forall|k: int| 0 <= k < i + 1 implies #[trigger] tracks(queue@)[k]
                        == tracks_of(items@.take(i + 1))[k] by {
                        if k < i {
                            assert(tracks(before)[k] == tracks_of(items@.take(i as int))[k]);
                            assert(queue@[k] == before[k]);
                        }
                    }
                    assert(tracks(queue@) =~= tracks_of(items@.take(i + 1)));
                    i = i + 1;
                }
                assert(items@.take(items@.len() as int) == items@);
            },
            None => {
                assert(tracks(queue@) =~= Seq::empty());
            },
        }
        self.queue = queue;
    }

    /// One render tick at `now_ms` on the monotonic clock. While a track
    /// plays, the position advances by the time since the anchor and stays
    /// within the track, and the bars follow the snapshot for the new
    /// position; a position past the spectrogram leaves the bars as they
    /// are. Otherwise the position stays and the bars fade. Either way the
    /// anchor becomes `now_ms`.
    pub fn update_realtime(&mut self, now_ms: u64)
        requires
            old(self)@.wf(),
        ensures
            final(self)@.wf(),
            final(self)@ == spec_tick(old(self)@, now_ms),
            final(self)@.playback.in_range(),
    {
        proof {
            lemma_tick_frame(self@, now_ms);
        }
        if self.current_track.is_some() && !self.playback.paused {
            let delta: u64 = if now_ms > self.playback.anchor_ms {
                now_ms - self.playback.anchor_ms
            } else {
                0
            };
            let mut elapsed: u64 = self.playback.elapsed_ms.saturating_add(delta);
            if self.playback.duration_ms > 0 && elapsed > self.playback.duration_ms {
                elapsed = self.playback.duration_ms;
            }
            self.playback.elapsed_ms = elapsed;
            self.playback.anchor_ms = now_ms;
            match &self.spectrogram {
                Some(snapshots) => {
                    match select_frame(snapshots.len(), elapsed, self.visualizer_offset) {
                        Some(index) => {
                            smooth_frame(&mut self.smoothed_bars, &snapshots[index]);
                        },
                        None => {},
                    }
                },
                None => {},
            }
        } else {
            self.playback.anchor_ms = now_ms;
            fade_bars(&mut self.smoothed_bars);
        }
    }
}

} // verus!
