//! The events of the push stream and what each does to the session.
//!
//! An event carries a tag, the guild it belongs to, and a payload. An event
//! of another guild is discarded and leaves the session as it is; an event
//! of the session's guild is applied by its tag and noted in the diagnostic
//! log. An event with an unknown tag is noted in the log whatever its guild,
//! so that a change of the protocol does not go unseen.

use vstd::prelude::*;
use crate::api::{PlaybackState, WsEvent};
use crate::json::Json;
use crate::session::{
    frames, log_line, logged, opt_frames, spec_log, spec_queue_applied, spec_within_track,
    within_track, Playback, SessionState, SessionView,
};
use crate::text::{
    concat2, concat3, decimal, decimal_string, flag_str, flag_text, opt_text, str_eq,
};

verus! {

/// What an event asks for, told by its tag.
#[derive(Clone, Copy, PartialEq, Eq, Structural, Debug)]
pub enum EventKind {
    /// `spectrogram_update`: a new spectrogram.
    Spectrogram,
    /// `state_update` or `initial_state`: a snapshot of the playback position.
    State,
    /// `queue_update`: a new queue, or the notice that it changed.
    Queue,
    /// `track_start`, `track_end` or `player_update`: the notice that
    /// something changed.
    Notification,
    /// Any other tag.
    Unrecognized,
}

/// The kind of the events tagged `tag`.
pub open spec fn spec_kind(tag: Seq<char>) -> EventKind {
    if tag == "spectrogram_update"@ {
        EventKind::Spectrogram
    } else if tag == "state_update"@ || tag == "initial_state"@ {
        EventKind::State
    } else if tag == "queue_update"@ {
        EventKind::Queue
    } else if tag == "track_start"@ || tag == "track_end"@ || tag == "player_update"@ {
        EventKind::Notification
    } else {
        EventKind::Unrecognized
    }
}

/// Tells the kind of an event by its tag.
pub fn event_kind(tag: &str) -> (kind: EventKind)
    ensures
        kind == spec_kind(tag@),
{
    if str_eq(tag, "spectrogram_update") {
        EventKind::Spectrogram
    } else if str_eq(tag, "state_update") || str_eq(tag, "initial_state") {
        EventKind::State
    } else if str_eq(tag, "queue_update") {
        EventKind::Queue
    } else if str_eq(tag, "track_start") || str_eq(tag, "track_end") || str_eq(
        tag,
        "player_update",
    ) {
        EventKind::Notification
    } else {
        EventKind::Unrecognized
    }
}

/// Whether a JSON value is a magnitude: an integer from 0 to 255.
pub open spec fn is_magnitude(json: Json) -> bool {
    json matches Json::Unsigned(n) && n <= 255
}

/// The magnitude that a JSON value holds.
pub open spec fn magnitude_of(json: Json) -> u8 {
    match json {
        Json::Unsigned(n) => n as u8,
        _ => 0,
    }
}

/// Whether a JSON value is a snapshot: a list of magnitudes.
pub open spec fn is_frame(json: Json) -> bool {
    match json {
        Json::Array(items) => forall|i: int|
            0 <= i < items@.len() ==> is_magnitude(#[trigger] items@[i]),
        _ => false,
    }
}

/// The snapshot that a JSON value holds.
pub open spec fn frame_of(json: Json) -> Seq<u8> {
    match json {
        Json::Array(items) => Seq::new(items@.len(), |i: int| magnitude_of(items@[i])),
        _ => Seq::empty(),
    }
}

/// The spectrogram that a JSON value holds, if it is a list of snapshots.
pub open spec fn spectrogram_of(json: Json) -> Option<Seq<Seq<u8>>> {
    match json {
        Json::Array(items) => if forall|i: int|
            0 <= i < items@.len() ==> is_frame(#[trigger] items@[i]) {
            Some(Seq::new(items@.len(), |i: int| frame_of(items@[i])))
        } else {
            None
        },
        _ => None,
    }
}

/// The value of a [`PlaybackState`].
pub struct PlaybackStateView {
    pub elapsed_ms: u64,
    pub duration_ms: u64,
    pub paused: bool,
    pub spectrogram: Option<Seq<Seq<u8>>>,
}

impl View for PlaybackState {
    type V = PlaybackStateView;

    open spec fn view(&self) -> PlaybackStateView {
        PlaybackStateView {
            elapsed_ms: self.elapsed_ms,
            duration_ms: self.duration_ms,
            paused: self.paused,
            spectrogram: opt_frames(self.spectrogram),
        }
    }
}

/// The playback snapshot that a JSON value holds: an object with the
/// integers `elapsedMs` and `durationMs` and the flag `paused`, and with a
/// spectrogram under `spectrogram`, which may be absent or null.
pub open spec fn playback_of(json: Json) -> Option<PlaybackStateView> {
    match (
        json.spec_get_unsigned("elapsedMs"@),
        json.spec_get_unsigned("durationMs"@),
        json.spec_get_flag("paused"@),
    ) {
        (Some(elapsed_ms), Some(duration_ms), Some(paused)) => match json.spec_get(
            "spectrogram"@,
        ) {
            None => Some(PlaybackStateView { elapsed_ms, duration_ms, paused, spectrogram: None }),
            Some(Json::Null) => Some(
                PlaybackStateView { elapsed_ms, duration_ms, paused, spectrogram: None },
            ),
            Some(value) => match spectrogram_of(value) {
                Some(snapshots) => Some(
                    PlaybackStateView {
                        elapsed_ms,
                        duration_ms,
                        paused,
                        spectrogram: Some(snapshots),
                    },
                ),
                None => None,
            },
        },
        _ => None,
    }
}

/// Reads the magnitudes of a list.
fn magnitudes_from(items: &Vec<Json>) -> (r: Option<Vec<u8>>)
    ensures
        match r {
            Some(v) => is_frame(Json::Array(*items)) && v@ == frame_of(Json::Array(*items)),
            None => !is_frame(Json::Array(*items)),
        },
{
    let mut v: Vec<u8> = Vec::new();
    let mut i: usize = 0;
    while i < items.len()
        invariant
            i <= items.len(),
            v@.len() == i,
            forall|k: int| 0 <= k < i ==> is_magnitude(#[trigger] items@[k]),
            forall|k: int| 0 <= k < i ==> v@[k] == magnitude_of(#[trigger] items@[k]),
        decreases items.len() - i,
    {
        match &items[i] {
            Json::Unsigned(n) => {
                if *n <= 255 {
                    v.push(*n as u8);
                } else {
                    assert(!is_magnitude(Json::Array(*items)->Array_0@[i as int]));
                    return None;
                }
            },
            _ => {
                assert(!is_magnitude(Json::Array(*items)->Array_0@[i as int]));
                return None;
            },
        }
        i = i + 1;
    }
    assert(v@ =~= frame_of(Json::Array(*items)));
    Some(v)
}

/// Reads a snapshot: a list of magnitudes.
pub fn frame_from_json(json: &Json) -> (r: Option<Vec<u8>>)
    ensures
        match r {
            Some(v) => is_frame(*json) && v@ == frame_of(*json),
            None => !is_frame(*json),
        },
{
    match json {
        Json::Array(items) => magnitudes_from(items),
        _ => None,
    }
}

/// Reads the snapshots of a list.
fn frames_from(items: &Vec<Json>) -> (r: Option<Vec<Vec<u8>>>)
    ensures
        opt_frames(r) == spectrogram_of(Json::Array(*items)),
{
    let mut v: Vec<Vec<u8>> = Vec::new();
    let mut i: usize = 0;
    while i < items.len()
        invariant
            i <= items.len(),
            v@.len() == i,
            forall|k: int| 0 <= k < i ==> is_frame(#[trigger] items@[k]),
            forall|k: int| 0 <= k < i ==> v@[k]@ == frame_of(#[trigger] items@[k]),
        decreases items.len() - i,
    {
        match frame_from_json(&items[i]) {
            Some(frame) => {
                v.push(frame);
            },
            None => {
                assert(!is_frame(Json::Array(*items)->Array_0@[i as int]));
                return None;
            },
        }
        i = i + 1;
    }
    assert(frames(v@) =~= Seq::new(items@.len(), |k: int| frame_of(items@[k])));
    Some(v)
}

/// Reads a spectrogram: a list of snapshots, each a list of magnitudes from
/// 0 to 255. Anything else is no spectrogram.
pub fn spectrogram_from_json(json: &Json) -> (r: Option<Vec<Vec<u8>>>)
    ensures
        opt_frames(r) == spectrogram_of(*json),
{
    match json {
        Json::Array(items) => frames_from(items),
        _ => None,
    }
}

/// The value of an optional playback snapshot.
pub open spec fn opt_playback(o: Option<PlaybackState>) -> Option<PlaybackStateView> {
    match o {
        Some(p) => Some(p@),
        None => None,
    }
}

/// Reads a playback snapshot from the object that holds it.
pub fn playback_from_json(json: &Json) -> (r: Option<PlaybackState>)
    ensures
        opt_playback(r) == playback_of(*json),
{
    let elapsed_ms = match json.get_u64("elapsedMs") {
        Some(n) => n,
        None => {
            return None;
        },
    };
    let duration_ms = match json.get_u64("durationMs") {
        Some(n) => n,
        None => {
            return None;
        },
    };
    let paused = match json.get_bool("paused") {
        Some(flag) => flag,
        None => {
            return None;
        },
    };
    match json.get("spectrogram") {
        None => Some(PlaybackState { elapsed_ms, duration_ms, paused, spectrogram: None }),
        Some(value) => match value {
            Json::Null => Some(PlaybackState { elapsed_ms, duration_ms, paused, spectrogram: None }),
            _ => match spectrogram_from_json(value) {
                Some(snapshots) => Some(
                    PlaybackState { elapsed_ms, duration_ms, paused, spectrogram: Some(snapshots) },
                ),
                None => None,
            },
        },
    }
}

/// Whether an event belongs to the guild of the session: both name the same
/// guild, or neither names one.
pub open spec fn guild_matches(event: WsEvent, s: SessionView) -> bool {
    opt_text(event.guild_id) == s.guild_id
}

/// The playback snapshot of an event: the one at its top level, or else the
/// one under `playback` in its payload.
pub open spec fn spec_event_playback(event: WsEvent) -> Option<PlaybackStateView> {
    match event.playback {
        Some(p) => Some(p@),
        None => match event.data {
            Some(data) => match data.spec_get("playback"@) {
                Some(nested) => playback_of(nested),
                None => None,
            },
            None => None,
        },
    }
}

/// The line that notes a spectrogram of `count` snapshots, between `head`
/// and the closing words.
pub open spec fn frames_note(head: Seq<char>, count: nat) -> Seq<char> {
    head + decimal(count) + " frames)"@
}

/// The session after the playback snapshot `p` arrived at `now_ms`: length
/// and pause flag are those of the snapshot, the position is the reported
/// one, kept within the track, the anchor is `now_ms`, and a spectrogram in
/// the snapshot replaces the one kept.
pub open spec fn spec_snapshot_applied(
    s: SessionView,
    p: PlaybackStateView,
    now_ms: u64,
    stamp: Seq<char>,
) -> SessionView {
    let noted = if p.elapsed_ms % 5000 < 500 {
        spec_log(
            s,
            stamp,
            "State Update: elapsed="@ + decimal(p.elapsed_ms as nat) + "ms, paused="@ + flag_text(
                p.paused,
            ),
        )
    } else {
        s
    };
    let synced = if s.playback.elapsed_ms == 0 && p.elapsed_ms > 0 {
        spec_log(noted, stamp, "Synced playback to "@ + decimal(p.elapsed_ms as nat) + "ms"@)
    } else {
        noted
    };
    let placed = SessionView {
        playback: Playback {
            elapsed_ms: spec_within_track(p.elapsed_ms, p.duration_ms),
            duration_ms: p.duration_ms,
            paused: p.paused,
            anchor_ms: now_ms,
        },
        ..synced
    };
    match p.spectrogram {
        Some(snapshots) => SessionView {
            spectrogram: Some(snapshots),
            ..spec_log(
                placed,
                stamp,
                frames_note("Received Spectrogram in state ("@, snapshots.len()),
            )
        },
        None => placed,
    }
}

/// The session after an event of the session's guild with a known tag
/// arrived, and whether the queue is to be fetched anew.
pub open spec fn spec_own_event_applied(
    s: SessionView,
    event: WsEvent,
    now_ms: u64,
    stamp: Seq<char>,
) -> (SessionView, bool) {
    let tag = event.event_type@;
    let seen = spec_log(s, stamp, "WS Event: "@ + tag);
    match spec_kind(tag) {
        EventKind::Spectrogram => if event.data is Some && spectrogram_of(event.data->0) is Some {
            let snapshots = spectrogram_of(event.data->0)->0;
            (
                SessionView {
                    spectrogram: Some(snapshots),
                    ..spec_log(seen, stamp, frames_note("Received Spectrogram ("@, snapshots.len()))
                },
                false,
            )
        } else {
            (seen, false)
        },
        EventKind::State => if spec_event_playback(event) is Some {
            (spec_snapshot_applied(seen, spec_event_playback(event)->0, now_ms, stamp), false)
        } else {
            (seen, false)
        },
        EventKind::Queue => {
            let noted = spec_log(seen, stamp, "Received Queue Update"@);
            match event.data {
                Some(data) => (spec_queue_applied(noted, data, stamp), false),
                None => (noted, true),
            }
        },
        EventKind::Notification => (
            spec_log(seen, stamp, "WS Event: "@ + tag + ", refreshing queue"@),
            true,
        ),
        EventKind::Unrecognized => (s, false),
    }
}

/// The session after an event arrived, and whether the queue is to be
/// fetched anew. An event with an unknown tag is noted in the log and does
/// nothing else; an event of another guild is discarded; any other event is
/// applied.
pub open spec fn spec_event_applied(
    s: SessionView,
    event: WsEvent,
    now_ms: u64,
    stamp: Seq<char>,
) -> (SessionView, bool) {
    let tag = event.event_type@;
    if spec_kind(tag) == EventKind::Unrecognized {
        (
            spec_log(
                spec_log(s, stamp, "WS Event: "@ + tag),
                stamp,
                "WS Unhandled Event: "@ + tag,
            ),
            false,
        )
    } else if !guild_matches(event, s) {
        (s, false)
    } else {
        spec_own_event_applied(s, event, now_ms, stamp)
    }
}

/// A playback snapshot is authoritative: whatever the position was, after
/// the snapshot it is the reported one, kept within the track and anchored
/// at the moment of arrival, so that a tick at that moment moves it by
/// nothing.
pub proof fn lemma_snapshot_resets_anchor(
    s: SessionView,
    p: PlaybackStateView,
    now_ms: u64,
    stamp: Seq<char>,
)
    ensures
        spec_snapshot_applied(s, p, now_ms, stamp).playback == (Playback {
            elapsed_ms: spec_within_track(p.elapsed_ms, p.duration_ms),
            duration_ms: p.duration_ms,
            paused: p.paused,
            anchor_ms: now_ms,
        }),
        spec_snapshot_applied(s, p, now_ms, stamp).playback.in_range(),
        p.duration_ms == 0 || p.elapsed_ms <= p.duration_ms ==> spec_snapshot_applied(
            s,
            p,
            now_ms,
            stamp,
        ).playback.elapsed_ms == p.elapsed_ms,
        crate::session::spec_extrapolated(
            spec_snapshot_applied(s, p, now_ms, stamp).playback,
            now_ms,
        ).elapsed_ms == spec_within_track(p.elapsed_ms, p.duration_ms),
{
}

/// An event of another guild whose tag is known is discarded: the session
/// stays as it is, log included, and no fetch is asked for.
pub proof fn lemma_other_guild_discarded(
    s: SessionView,
    event: WsEvent,
    now_ms: u64,
    stamp: Seq<char>,
)
    requires
        !guild_matches(event, s),
        spec_kind(event.event_type@) != EventKind::Unrecognized,
    ensures
        spec_event_applied(s, event, now_ms, stamp) == (s, false),
{
}

/// An event with an unknown tag leaves two lines in the log, whatever its
/// guild, changes nothing else and asks for no fetch.
pub proof fn lemma_unknown_tag_logged(
    s: SessionView,
    event: WsEvent,
    now_ms: u64,
    stamp: Seq<char>,
)
    requires
        spec_kind(event.event_type@) == EventKind::Unrecognized,
    ensures
        spec_event_applied(s, event, now_ms, stamp).0 == (SessionView {
            logs: logged(
                logged(s.logs, log_line(stamp, "WS Event: "@ + event.event_type@)),
                log_line(stamp, "WS Unhandled Event: "@ + event.event_type@),
            ),
            ..s
        }),
        !spec_event_applied(s, event, now_ms, stamp).1,
{
}

/// A queue update that carries the queue gives the same queue, current
/// track and guild when it is applied a second time.
pub proof fn lemma_queue_update_twice(
    s: SessionView,
    event: WsEvent,
    first_ms: u64,
    first: Seq<char>,
    second_ms: u64,
    second: Seq<char>,
)
    requires
        spec_kind(event.event_type@) == EventKind::Queue,
        event.data is Some,
        guild_matches(event, s),
    ensures
        ({
            let once = spec_event_applied(s, event, first_ms, first).0;
            let twice = spec_event_applied(once, event, second_ms, second).0;
            &&& twice.queue == once.queue
            &&& twice.current_track == once.current_track
            &&& twice.guild_id == once.guild_id
        }),
{
}

/// Any event leaves the session well formed; it never touches the bars,
/// the screens, the credentials or the errors shown.
pub proof fn lemma_event_keeps_invariant(
    s: SessionView,
    event: WsEvent,
    now_ms: u64,
    stamp: Seq<char>,
)
    requires
        s.wf(),
    ensures
        spec_event_applied(s, event, now_ms, stamp).0.wf(),
        spec_event_applied(s, event, now_ms, stamp).0.bars == s.bars,
        spec_event_applied(s, event, now_ms, stamp).0.screen == s.screen,
        spec_event_applied(s, event, now_ms, stamp).0.token == s.token,
        spec_event_applied(s, event, now_ms, stamp).0.fatal_error == s.fatal_error,
        spec_event_applied(s, event, now_ms, stamp).0.error_message == s.error_message,
{
}

impl SessionState {
    /// Whether an event with the guild `event_guild` belongs to this
    /// session.
    pub fn guild_is(&self, event_guild: &Option<String>) -> (r: bool)
        ensures
            r == (opt_text(*event_guild) == self@.guild_id),
    {
        match (event_guild, &self.guild_id) {
            (Some(a), Some(b)) => str_eq(a.as_str(), b.as_str()),
            (None, None) => true,
            _ => false,
        }
    }

    /// Takes a playback snapshot over at `now_ms`.
    pub fn apply_snapshot(&mut self, snapshot: PlaybackState, now_ms: u64, stamp: &str)
        requires
            old(self)@.wf(),
        ensures
            final(self)@.wf(),
            final(self)@ == spec_snapshot_applied(old(self)@, snapshot@, now_ms, stamp@),
    {
        if snapshot.elapsed_ms % 5000 < 500 {
            let mut message = "State Update: elapsed=".to_string();
            message.append(decimal_string(snapshot.elapsed_ms).as_str());
            message.append("ms, paused=");
            message.append(flag_str(snapshot.paused));
            self.log_at(stamp, message.as_str());
        }
        if self.playback.elapsed_ms == 0 && snapshot.elapsed_ms > 0 {
            let message = concat3(
                "Synced playback to ",
                decimal_string(snapshot.elapsed_ms).as_str(),
                "ms",
            );
            self.log_at(stamp, message.as_str());
        }
        self.playback = Playback {
            elapsed_ms: within_track(snapshot.elapsed_ms, snapshot.duration_ms),
            duration_ms: snapshot.duration_ms,
            paused: snapshot.paused,
            anchor_ms: now_ms,
        };
        match snapshot.spectrogram {
            Some(snapshots) => {
                let message = concat3(
                    "Received Spectrogram in state (",
                    decimal_string(snapshots.len() as u64).as_str(),
                    " frames)",
                );
                self.log_at(stamp, message.as_str());
                self.spectrogram = Some(snapshots);
            },
            None => {},
        }
    }

    /// Applies one event of the stream at `now_ms`, and tells whether the
    /// queue is to be fetched anew. An event of another guild is discarded
    /// and leaves the session as it is; only an event with an unknown tag is
    /// noted in the log whatever its guild.
    pub fn apply_event(&mut self, event: WsEvent, now_ms: u64, stamp: &str) -> (refetch: bool)
        requires
            old(self)@.wf(),
        ensures
            final(self)@.wf(),
            (final(self)@, refetch) == spec_event_applied(old(self)@, event, now_ms, stamp@),
    {
        let kind = event_kind(event.event_type.as_str());
        match kind {
            EventKind::Unrecognized => {
                let seen = concat2("WS Event: ", event.event_type.as_str());
                self.log_at(stamp, seen.as_str());
                let message = concat2("WS Unhandled Event: ", event.event_type.as_str());
                self.log_at(stamp, message.as_str());
                return false;
            },
            _ => {},
        }
        if !self.guild_is(&event.guild_id) {
            return false;
        }
        let seen = concat2("WS Event: ", event.event_type.as_str());
        self.log_at(stamp, seen.as_str());
        match kind {
            EventKind::Spectrogram => {
                match &event.data {
                    Some(data) => match spectrogram_from_json(data) {
                        Some(snapshots) => {
                            let message = concat3(
                                "Received Spectrogram (",
                                decimal_string(snapshots.len() as u64).as_str(),
                                " frames)",
                            );
                            self.log_at(stamp, message.as_str());
                            self.spectrogram = Some(snapshots);
                        },
                        None => {},
                    },
                    None => {},
                }
                false
            },
            EventKind::State => {
                let snapshot = match event.playback {
                    Some(p) => Some(p),
                    None => match &event.data {
                        Some(data) => match data.get("playback") {
                            Some(nested) => playback_from_json(nested),
                            None => None,
                        },
                        None => None,
                    },
                };
                match snapshot {
                    Some(p) => {
                        self.apply_snapshot(p, now_ms, stamp);
                    },
                    None => {},
                }
                false
            },
            EventKind::Queue => {
                self.log_at(stamp, "Received Queue Update");
                match &event.data {
                    Some(data) => {
                        self.parse_queue_response(data, stamp);
                        false
                    },
                    None => true,
                }
            },
            EventKind::Notification => {
                let message = concat3(
                    "WS Event: ",
                    event.event_type.as_str(),
                    ", refreshing queue",
                );
                self.log_at(stamp, message.as_str());
                true
            },
            EventKind::Unrecognized => false,
        }
    }
}

} // verus!
