//! The summary of an answer of the service, as the command line shows it.
//!
//! A summary is a list of pieces of text, each with the style it is printed
//! in. The program around the library prints the pieces one after the other.

use vstd::prelude::*;
use crate::json::Json;
use crate::text::{
    decimal, padded_left, push_decimal, push_decimal_padded, push_repeated, repeated, str_eq,
};

verus! {

/// How a piece of text is printed.
#[derive(Clone, Copy, PartialEq, Eq, Structural, Debug)]
pub enum Style {
    Plain,
    Red,
    Green,
    Yellow,
    Cyan,
    Magenta,
    Blue,
    Bold,
    BoldUnderline,
    MagentaBold,
    Dimmed,
}

/// A piece of text and its style.
#[derive(Clone, Debug, PartialEq, Eq)]
pub struct Piece {
    pub style: Style,
    pub text: String,
}

/// The value of a [`Piece`].
pub struct PieceView {
    pub style: Style,
    pub text: Seq<char>,
}

impl View for Piece {
    type V = PieceView;

    open spec fn view(&self) -> PieceView {
        PieceView { style: self.style, text: self.text@ }
    }
}

/// The values of a list of pieces.
pub open spec fn pieces(v: Seq<Piece>) -> Seq<PieceView> {
    v.map_values(|p: Piece| p@)
}

/// The value of an optional list of pieces.
pub open spec fn opt_pieces(o: Option<Vec<Piece>>) -> Option<Seq<PieceView>> {
    match o {
        Some(v) => Some(pieces(v@)),
        None => None,
    }
}

/// A piece.
pub open spec fn piece(style: Style, text: Seq<char>) -> PieceView {
    PieceView { style, text }
}

/// A piece in the plain style.
pub open spec fn plain(text: Seq<char>) -> PieceView {
    PieceView { style: Style::Plain, text }
}

/// Bars of the progress line of the track that plays.
pub const NOW_PLAYING_CELLS: u64 = 20;

/// How a track is named: its title, or `fallback`, and its author if it
/// has one.
pub open spec fn spec_display(item: Json, fallback: Seq<char>) -> Seq<char> {
    let title = match item.spec_get_text("title"@) {
        Some(title) => title,
        None => fallback,
    };
    match item.spec_get_text("author"@) {
        Some(author) => title + " by "@ + author,
        None => title,
    }
}

/// The name of a track.
pub fn display_title(item: &Json, fallback: &str) -> (name: String)
    ensures
        name@ == spec_display(*item, fallback@),
{
    let mut name = match item.get_str("title") {
        Some(title) => title.to_string(),
        None => fallback.to_string(),
    };
    match item.get_str("author") {
        Some(author) => {
            name.append(" by ");
            name.append(author);
        },
        None => {},
    }
    name
}

/// The summary of an error answer: the message, and for a refused token
/// the hint to log in.
pub open spec fn summary_of_error(json: Json, error: Seq<char>, legacy_token: bool) -> Seq<
    PieceView,
> {
    let message = match json.spec_get_text("message"@) {
        Some(message) => message,
        None => "Unknown error"@,
    };
    let head = seq![piece(Style::Red, "\u{2718}"@), plain(" "@ + message)];
    if error == "unauthorized"@ {
        head + seq![
            plain("\n"@),
            piece(
                Style::Yellow,
                if legacy_token {
                    "\u{1f4a1} Hint: Found a legacy token file \u{2014} run `jorik auth login` to re-authenticate and save username/avatar."@
                } else {
                    "\u{1f4a1} Hint: Run `jorik auth login` or check your token."@
                },
            ),
        ]
    } else {
        head
    }
}

/// The summary of the answer to a play request.
pub open spec fn summary_of_play(json: Json) -> Seq<PieceView> {
    let tracks = json.spec_get_items("tracks"@);
    let count: nat = match tracks {
        Some(items) => items.len(),
        None => 0,
    };
    let name = if count > 0 {
        spec_display(tracks->0[0], "Unknown Track"@)
    } else {
        "Unknown Track"@
    };
    if count > 1 {
        seq![
            piece(Style::Cyan, "\u{1f3b6}"@),
            plain(" Added "@ + decimal(count) + " tracks to queue (starting with "@),
            piece(Style::Bold, name),
            plain(")"@),
        ]
    } else {
        seq![
            piece(Style::Cyan, "\u{1f3b6}"@),
            plain(" Added "@),
            piece(Style::Bold, name),
            plain(" to queue"@),
        ]
    }
}

/// The summary of the answer to a skip request.
pub open spec fn summary_of_skip(json: Json) -> Seq<PieceView> {
    match json.spec_get_object("skipped"@) {
        Some(skipped) => seq![
            piece(Style::Magenta, "\u{23ed}\u{fe0f}"@),
            plain(" Skipped "@),
            piece(Style::Bold, spec_display(skipped, "Unknown Track"@)),
        ],
        None => seq![piece(Style::Blue, "\u{2139}\u{fe0f}"@), plain(" Nothing to skip"@)],
    }
}

/// The summary of the answer to a pause request.
pub open spec fn summary_of_pause(json: Json) -> Seq<PieceView> {
    let state = json.spec_get_text("state"@);
    if state == Some("paused"@) {
        seq![piece(Style::Yellow, "\u{23f8}\u{fe0f}"@), plain(" Playback paused"@)]
    } else if state == Some("resumed"@) {
        seq![piece(Style::Green, "\u{25b6}\u{fe0f}"@), plain(" Playback resumed"@)]
    } else {
        seq![piece(Style::Yellow, "\u{23ef}\u{fe0f}"@), plain(" Toggled pause"@)]
    }
}

/// The numbered lines of the tracks that are up next, the first `upto` of
/// them.
pub open spec fn numbered_lines(items: Seq<Json>, upto: nat) -> Seq<char>
    decreases upto,
{
    if upto == 0 {
        Seq::empty()
    } else {
        numbered_lines(items, (upto - 1) as nat) + decimal(upto) + ". "@ + spec_display(
            items[upto - 1],
            "Unknown"@,
        ) + "\n"@
    }
}

/// What a queue answer tells of the tracks that are up next.
pub open spec fn up_next_text(items: Seq<Json>, total: u64) -> Seq<char> {
    if items.len() == 0 {
        "\nQueue is empty.\n"@
    } else {
        "\nUp Next:\n"@ + numbered_lines(items, items.len()) + (if total > items.len() {
            "... and "@ + decimal((total - items.len()) as nat) + " more\n"@
        } else {
            Seq::empty()
        })
    }
}

/// The summary of the answer to a queue request.
pub open spec fn summary_of_queue(json: Json) -> Seq<PieceView> {
    let total = match json.spec_get_unsigned("total_upcoming"@) {
        Some(total) => total,
        None => 0,
    };
    let head = seq![piece(Style::BoldUnderline, "Current Queue"@), plain("\n"@)];
    let current = match json.spec_get_object("current"@) {
        Some(track) => seq![
            piece(Style::Green, "\u{25b6}\u{fe0f}"@),
            plain(" "@),
            piece(Style::Bold, spec_display(track, "Unknown"@)),
            plain("\n"@),
        ],
        None => seq![plain("Nothing playing currently.\n"@)],
    };
    match json.spec_get_items("upcoming"@) {
        Some(items) => head + current + seq![plain(up_next_text(items, total))],
        None => head + current,
    }
}

/// The number of bars in front of the marker of the progress line: the
/// part of the track that has played, in twentieths, rounded to the
/// nearest, kept within `usize`.
pub open spec fn spec_now_playing_cells(elapsed: u64, duration: u64) -> int {
    let cells = (2 * NOW_PLAYING_CELLS * elapsed + duration) / (2 * duration);
    if cells > usize::MAX {
        usize::MAX as int
    } else {
        cells
    }
}

/// The progress line of the track that plays, empty where the length of
/// the track is unknown.
pub open spec fn progress_line(elapsed: u64, duration: u64) -> Seq<char> {
    if duration > 0 {
        let cells = spec_now_playing_cells(elapsed, duration);
        "["@ + repeated("\u{2501}"@, cells as nat) + "\u{26aa}"@ + repeated(
            "\u{2501}"@,
            if cells < NOW_PLAYING_CELLS {
                (NOW_PLAYING_CELLS - cells) as nat
            } else {
                0
            },
        ) + "]\n"@
    } else {
        "\n"@
    }
}

/// A time as minutes and seconds, the seconds two digits wide.
pub open spec fn short_clock(ms: u64) -> Seq<char> {
    decimal((ms / 60000) as nat) + ":"@ + padded_left(
        decimal(((ms % 60000) / 1000) as nat),
        2,
        '0',
    )
}

/// The summary of the answer to the question what plays.
pub open spec fn summary_of_now_playing(json: Json) -> Seq<PieceView> {
    match json.spec_get_object("now_playing"@) {
        Some(playing) => {
            let name = match playing.spec_get_object("track"@) {
                Some(track) => spec_display(track, "Unknown"@),
                None => "Unknown"@,
            };
            let elapsed = match playing.spec_get_unsigned("elapsedMs"@) {
                Some(ms) => ms,
                None => 0,
            };
            let duration = match playing.spec_get_unsigned("durationMs"@) {
                Some(ms) => ms,
                None => 0,
            };
            seq![
                piece(Style::Green, "\u{25b6}\u{fe0f}"@),
                plain(" "@),
                piece(Style::Bold, name),
                plain(
                    "\n"@ + progress_line(elapsed, duration) + " "@ + short_clock(elapsed)
                        + " / "@ + short_clock(duration),
                ),
            ]
        },
        None => seq![piece(Style::Blue, "zzz"@), plain(" Nothing is playing right now"@)],
    }
}

/// The pieces for the first `upto` lines of timed lyrics.
pub open spec fn timed_lines(lines: Seq<Json>, upto: nat) -> Seq<PieceView>
    decreases upto,
{
    if upto == 0 {
        Seq::empty()
    } else {
        let line = lines[upto - 1];
        let at = match line.spec_get_unsigned("timestamp"@) {
            Some(ms) => ms,
            None => 0,
        };
        let words = match line.spec_get_text("line"@) {
            Some(words) => words,
            None => Seq::empty(),
        };
        timed_lines(lines, (upto - 1) as nat) + seq![
            piece(
                Style::Dimmed,
                "["@ + padded_left(decimal((at / 60000) as nat), 2, '0') + ":"@ + padded_left(
                    decimal(((at % 60000) / 1000) as nat),
                    2,
                    '0',
                ) + "]"@,
            ),
            plain(" "@ + words + "\n"@),
        ]
    }
}

/// The summary of the answer to a lyrics request.
pub open spec fn summary_of_lyrics(json: Json) -> Seq<PieceView> {
    match json.spec_get_object("data"@) {
        Some(data) => {
            let head = seq![piece(Style::MagentaBold, "\u{1f3a4} Lyrics"@), plain("\n\n"@)];
            let body = match data.spec_get_text("text"@) {
                Some(text) => seq![plain(text)],
                None => match data.spec_get_items("lines"@) {
                    Some(lines) => timed_lines(lines, lines.len()),
                    None => Seq::empty(),
                },
            };
            let source = match data.spec_get_text("sourceName"@) {
                Some(name) => seq![plain("\n\nSource: "@), piece(Style::Dimmed, name)],
                None => Seq::empty(),
            };
            head + body + source
        },
        None => seq![piece(Style::Blue, "\u{2139}\u{fe0f}"@), plain(" No lyrics data found"@)],
    }
}

/// The summary of an answer that names the action it belongs to; `None`
/// for an action that has no summary.
pub open spec fn summary_of_action(json: Json, action: Seq<char>) -> Option<Seq<PieceView>> {
    if action == "play"@ {
        Some(summary_of_play(json))
    } else if action == "skip"@ {
        Some(summary_of_skip(json))
    } else if action == "stop"@ {
        Some(
            seq![
                piece(Style::Red, "\u{23f9}\u{fe0f}"@),
                plain(" Playback stopped and queue cleared"@),
            ],
        )
    } else if action == "pause"@ {
        Some(summary_of_pause(json))
    } else if action == "queue"@ {
        Some(summary_of_queue(json))
    } else if action == "clear"@ {
        Some(
            seq![
                piece(Style::Red, "\u{1f5d1}\u{fe0f}"@),
                plain(
                    " Cleared "@ + decimal(
                        match json.spec_get_unsigned("removed"@) {
                            Some(n) => n as nat,
                            None => 0,
                        },
                    ) + " tracks from queue"@,
                ),
            ],
        )
    } else if action == "nowplaying"@ {
        Some(summary_of_now_playing(json))
    } else if action == "loop"@ {
        Some(
            seq![
                piece(Style::Cyan, "\u{1f501}"@),
                plain(" Loop mode set to: "@),
                piece(
                    Style::Bold,
                    match json.spec_get_text("mode"@) {
                        Some(mode) => mode,
                        None => "off"@,
                    },
                ),
            ],
        )
    } else if action == "247"@ {
        Some(
            if json.spec_get_flag("enabled"@) == Some(true) {
                seq![piece(Style::Yellow, "\u{1f319}"@), plain(" 24/7 mode enabled"@)]
            } else {
                seq![piece(Style::Yellow, "\u{2600}\u{fe0f}"@), plain(" 24/7 mode disabled"@)]
            },
        )
    } else if action == "shuffle"@ {
        Some(seq![piece(Style::Magenta, "\u{1f500}"@), plain(" Queue shuffled"@)])
    } else if action == "filter"@ {
        Some(
            seq![
                piece(Style::Cyan, "\u{1f39a}\u{fe0f}"@),
                plain(
                    " "@ + (match json.spec_get_text("message"@) {
                        Some(message) => message,
                        None => "Filters updated"@,
                    }),
                ),
            ],
        )
    } else if action == "lyrics"@ {
        Some(summary_of_lyrics(json))
    } else {
        None
    }
}

/// The summary of an answer of the service. An answer that is no object
/// has none. An answer with an `error` is summed up as an error; any other
/// by its `action`.
pub open spec fn spec_summary(json: Json, legacy_token: bool) -> Option<Seq<PieceView>> {
    if !(json is Object) {
        None
    } else {
        match json.spec_get_text("error"@) {
            Some(error) => Some(summary_of_error(json, error, legacy_token)),
            None => summary_of_action(
                json,
                match json.spec_get_text("action"@) {
                    Some(action) => action,
                    None => Seq::empty(),
                },
            ),
        }
    }
}

fn one(style: Style, text: &str) -> (p: Piece)
    ensures
        p@ == piece(style, text@),
{
    Piece { style, text: text.to_string() }
}

fn owned(style: Style, text: String) -> (p: Piece)
    ensures
        p@ == piece(style, text@),
{
    Piece { style, text }
}

fn pair(a: Piece, b: Piece) -> (v: Vec<Piece>)
    ensures
        pieces(v@) == seq![a@, b@],
{
    let mut v: Vec<Piece> = Vec::new();
    v.push(a);
    v.push(b);
    assert(pieces(v@) =~= seq![a@, b@]);
    v
}

fn triple(a: Piece, b: Piece, c: Piece) -> (v: Vec<Piece>)
    ensures
        pieces(v@) == seq![a@, b@, c@],
{
    let mut v: Vec<Piece> = Vec::new();
    v.push(a);
    v.push(b);
    v.push(c);
    assert(pieces(v@) =~= seq![a@, b@, c@]);
    v
}

fn quad(a: Piece, b: Piece, c: Piece, d: Piece) -> (v: Vec<Piece>)
    ensures
        pieces(v@) == seq![a@, b@, c@, d@],
{
    let mut v: Vec<Piece> = Vec::new();
    v.push(a);
    v.push(b);
    v.push(c);
    v.push(d);
    assert(pieces(v@) =~= seq![a@, b@, c@, d@]);
    v
}

fn add_piece(v: &mut Vec<Piece>, p: Piece)
    ensures
        pieces(final(v)@) == pieces(old(v)@).push(p@),
{
    v.push(p);
    assert(pieces(v@) =~= pieces(old(v)@).push(p@));
}

fn concat_text(a: &str, b: &str) -> (r: String)
    ensures
        r@ == a@ + b@,
{
    crate::text::concat2(a, b)
}

fn error_summary(json: &Json, error: &str, legacy_token: bool) -> (v: Vec<Piece>)
    ensures
        pieces(v@) == summary_of_error(*json, error@, legacy_token),
{
    let message = match json.get_str("message") {
        Some(message) => message,
        None => "Unknown error",
    };
    let mut v = pair(one(Style::Red, "\u{2718}"), owned(Style::Plain, concat_text(" ", message)));
    if str_eq(error, "unauthorized") {
        add_piece(&mut v, one(Style::Plain, "\n"));
        if legacy_token {
            add_piece(
                &mut v,
                one(
                    Style::Yellow,
                    "\u{1f4a1} Hint: Found a legacy token file \u{2014} run `jorik auth login` to re-authenticate and save username/avatar.",
                ),
            );
        } else {
            add_piece(
                &mut v,
                one(Style::Yellow, "\u{1f4a1} Hint: Run `jorik auth login` or check your token."),
            );
        }
        assert(pieces(v@) =~= summary_of_error(*json, error@, legacy_token));
    }
    v
}

fn play_summary(json: &Json) -> (v: Vec<Piece>)
    ensures
        pieces(v@) == summary_of_play(*json),
{
    let tracks = json.get_array("tracks");
    let count: usize = match tracks {
        Some(items) => items.len(),
        None => 0,
    };
    let name = match tracks {
        Some(items) => if items.len() > 0 {
            display_title(&items[0], "Unknown Track")
        } else {
            "Unknown Track".to_string()
        },
        None => "Unknown Track".to_string(),
    };
    if count > 1 {
        let mut lead = " Added ".to_string();
        push_decimal(&mut lead, count as u64);
        lead.append(" tracks to queue (starting with ");
        quad(
            one(Style::Cyan, "\u{1f3b6}"),
            owned(Style::Plain, lead),
            owned(Style::Bold, name),
            one(Style::Plain, ")"),
        )
    } else {
        quad(
            one(Style::Cyan, "\u{1f3b6}"),
            one(Style::Plain, " Added "),
            owned(Style::Bold, name),
            one(Style::Plain, " to queue"),
        )
    }
}

fn skip_summary(json: &Json) -> (v: Vec<Piece>)
    ensures
        pieces(v@) == summary_of_skip(*json),
{
    match json.get_object("skipped") {
        Some(skipped) => triple(
            one(Style::Magenta, "\u{23ed}\u{fe0f}"),
            one(Style::Plain, " Skipped "),
            owned(Style::Bold, display_title(skipped, "Unknown Track")),
        ),
        None => pair(one(Style::Blue, "\u{2139}\u{fe0f}"), one(Style::Plain, " Nothing to skip")),
    }
}

fn pause_summary(json: &Json) -> (v: Vec<Piece>)
    ensures
        pieces(v@) == summary_of_pause(*json),
{
    let paused = match json.get_str("state") {
        Some(state) => str_eq(state, "paused"),
        None => false,
    };
    let resumed = match json.get_str("state") {
        Some(state) => str_eq(state, "resumed"),
        None => false,
    };
    if paused {
        pair(one(Style::Yellow, "\u{23f8}\u{fe0f}"), one(Style::Plain, " Playback paused"))
    } else if resumed {
        pair(one(Style::Green, "\u{25b6}\u{fe0f}"), one(Style::Plain, " Playback resumed"))
    } else {
        pair(one(Style::Yellow, "\u{23ef}\u{fe0f}"), one(Style::Plain, " Toggled pause"))
    }
}

fn up_next(items: &Vec<Json>, total: u64) -> (text: String)
    ensures
        text@ == up_next_text(items@, total),
{
    if items.len() == 0 {
        return "\nQueue is empty.\n".to_string();
    }
    let mut text = "\nUp Next:\n".to_string();
    let ghost head = text@;
    let mut i: usize = 0;
    while i < items.len()
        invariant
            i <= items.len(),
            head == "\nUp Next:\n"@,
            text@ == head + numbered_lines(items@, i as nat),
        decreases items.len() - i,
    {
        let ghost before = numbered_lines(items@, i as nat);
        push_decimal(&mut text, (i + 1) as u64);
        text.append(". ");
        text.append(display_title(&items[i], "Unknown").as_str());
        text.append("\n");
        assert(text@ == head + (before + decimal((i + 1) as nat) + ". "@ + spec_display(
            items@[i as int],
            "Unknown"@,
        ) + "\n"@));
        i = i + 1;
    }
    if total > items.len() as u64 {
        let ghost lines = text@;
        text.append("... and ");
        push_decimal(&mut text, total - items.len() as u64);
        text.append(" more\n");
        assert(text@ == head + numbered_lines(items@, items@.len()) + ("... and "@ + decimal(
            (total - items@.len()) as nat,
        ) + " more\n"@));
    } else {
        assert(text@ + Seq::<char>::empty() == text@);
    }
    text
}

fn queue_summary(json: &Json) -> (v: Vec<Piece>)
    ensures
        pieces(v@) == summary_of_queue(*json),
{
    let total = match json.get_u64("total_upcoming") {
        Some(total) => total,
        None => 0,
    };
    let mut v = pair(one(Style::BoldUnderline, "Current Queue"), one(Style::Plain, "\n"));
    match json.get_object("current") {
        Some(track) => {
            add_piece(&mut v, one(Style::Green, "\u{25b6}\u{fe0f}"));
            add_piece(&mut v, one(Style::Plain, " "));
            add_piece(&mut v, owned(Style::Bold, display_title(track, "Unknown")));
            add_piece(&mut v, one(Style::Plain, "\n"));
        },
        None => {
            add_piece(&mut v, one(Style::Plain, "Nothing playing currently.\n"));
        },
    }
    match json.get_array("upcoming") {
        Some(items) => {
            add_piece(&mut v, owned(Style::Plain, up_next(items, total)));
        },
        None => {},
    }
    assert(pieces(v@) =~= summary_of_queue(*json));
    v
}

/// The number of bars in front of the marker of the progress line.
pub fn now_playing_cells(elapsed: u64, duration: u64) -> (cells: usize)
    requires
        duration > 0,
    ensures
        cells == spec_now_playing_cells(elapsed, duration),
{
    let cells: u128 = (40 * elapsed as u128 + duration as u128) / (2 * duration as u128);
    if cells > usize::MAX as u128 {
        usize::MAX
    } else {
        cells as usize
    }
}

fn push_progress_line(text: &mut String, elapsed: u64, duration: u64)
    ensures
        final(text)@ == old(text)@ + progress_line(elapsed, duration),
{
    if duration > 0 {
        let cells = now_playing_cells(elapsed, duration);
        let rest: usize = if cells < 20 {
            20 - cells
        } else {
            0
        };
        let ghost before = text@;
        text.append("[");
        push_repeated(text, "\u{2501}", cells);
        text.append("\u{26aa}");
        push_repeated(text, "\u{2501}", rest);
        text.append("]\n");
        assert(text@ == before + ("["@ + repeated("\u{2501}"@, cells as nat) + "\u{26aa}"@
            + repeated("\u{2501}"@, rest as nat) + "]\n"@));
    } else {
        text.append("\n");
    }
}

fn push_short_clock(text: &mut String, ms: u64)
    ensures
        final(text)@ == old(text)@ + short_clock(ms),
{
    let ghost before = text@;
    push_decimal(text, ms / 60000);
    text.append(":");
    push_decimal_padded(text, (ms % 60000) / 1000, 2, '0');
    assert(text@ == before + short_clock(ms));
}

fn now_playing_summary(json: &Json) -> (v: Vec<Piece>)
    ensures
        pieces(v@) == summary_of_now_playing(*json),
{
    match json.get_object("now_playing") {
        Some(playing) => {
            let name = match playing.get_object("track") {
                Some(track) => display_title(track, "Unknown"),
                None => "Unknown".to_string(),
            };
            let elapsed = match playing.get_u64("elapsedMs") {
                Some(ms) => ms,
                None => 0,
            };
            let duration = match playing.get_u64("durationMs") {
                Some(ms) => ms,
                None => 0,
            };
            let mut tail = "\n".to_string();
            push_progress_line(&mut tail, elapsed, duration);
            tail.append(" ");
            push_short_clock(&mut tail, elapsed);
            tail.append(" / ");
            push_short_clock(&mut tail, duration);
            quad(
                one(Style::Green, "\u{25b6}\u{fe0f}"),
                one(Style::Plain, " "),
                owned(Style::Bold, name),
                owned(Style::Plain, tail),
            )
        },
        None => pair(one(Style::Blue, "zzz"), one(Style::Plain, " Nothing is playing right now")),
    }
}

fn add_timed_lines(v: &mut Vec<Piece>, lines: &Vec<Json>)
    ensures
        pieces(final(v)@) == pieces(old(v)@) + timed_lines(lines@, lines@.len()),
{
    let ghost head = pieces(v@);
    let mut i: usize = 0;
    assert(head + timed_lines(lines@, 0) =~= head);
    while i < lines.len()
        invariant
            i <= lines.len(),
            pieces(v@) == head + timed_lines(lines@, i as nat),
        decreases lines.len() - i,
    {
        let at = match lines[i].get_u64("timestamp") {
            Some(ms) => ms,
            None => 0,
        };
        let mut stamp = "[".to_string();
        push_decimal_padded(&mut stamp, at / 60000, 2, '0');
        stamp.append(":");
        push_decimal_padded(&mut stamp, (at % 60000) / 1000, 2, '0');
        stamp.append("]");
        let mut words = " ".to_string();
        match lines[i].get_str("line") {
            Some(line) => {
                words.append(line);
            },
            None => {
                assert(words@ + Seq::<char>::empty() == words@);
            },
        }
        words.append("\n");
        let ghost before = pieces(v@);
        let first = owned(Style::Dimmed, stamp);
        let second = owned(Style::Plain, words);
        let ghost a = first@;
        let ghost b = second@;
        add_piece(v, first);
        add_piece(v, second);
        assert(pieces(v@) =~= before + seq![a, b]);
        assert(head + timed_lines(lines@, i as nat) + seq![a, b] =~= head + (timed_lines(
            lines@,
            i as nat,
        ) + seq![a, b]));
        i = i + 1;
    }
}

fn lyrics_summary(json: &Json) -> (v: Vec<Piece>)
    ensures
        pieces(v@) == summary_of_lyrics(*json),
{
    match json.get_object("data") {
        Some(data) => {
            let mut v = pair(one(Style::MagentaBold, "\u{1f3a4} Lyrics"), one(Style::Plain, "\n\n"));
            match data.get_str("text") {
                Some(text) => {
                    add_piece(&mut v, one(Style::Plain, text));
                },
                None => match data.get_array("lines") {
                    Some(lines) => {
                        add_timed_lines(&mut v, lines);
                    },
                    None => {},
                },
            }
            match data.get_str("sourceName") {
                Some(name) => {
                    add_piece(&mut v, one(Style::Plain, "\n\nSource: "));
                    add_piece(&mut v, one(Style::Dimmed, name));
                },
                None => {},
            }
            assert(pieces(v@) =~= summary_of_lyrics(*json));
            v
        },
        None => pair(
            one(Style::Blue, "\u{2139}\u{fe0f}"),
            one(Style::Plain, " No lyrics data found"),
        ),
    }
}

fn action_summary(json: &Json, action: &str) -> (r: Option<Vec<Piece>>)
    ensures
        opt_pieces(r) == summary_of_action(*json, action@),
{
    if str_eq(action, "play") {
        Some(play_summary(json))
    } else if str_eq(action, "skip") {
        Some(skip_summary(json))
    } else if str_eq(action, "stop") {
        Some(
            pair(
                one(Style::Red, "\u{23f9}\u{fe0f}"),
                one(Style::Plain, " Playback stopped and queue cleared"),
            ),
        )
    } else if str_eq(action, "pause") {
        Some(pause_summary(json))
    } else if str_eq(action, "queue") {
        Some(queue_summary(json))
    } else if str_eq(action, "clear") {
        let removed = match json.get_u64("removed") {
            Some(n) => n,
            None => 0,
        };
        let mut words = " Cleared ".to_string();
        push_decimal(&mut words, removed);
        words.append(" tracks from queue");
        Some(pair(one(Style::Red, "\u{1f5d1}\u{fe0f}"), owned(Style::Plain, words)))
    } else if str_eq(action, "nowplaying") {
        Some(now_playing_summary(json))
    } else if str_eq(action, "loop") {
        let mode = match json.get_str("mode") {
            Some(mode) => mode,
            None => "off",
        };
        Some(
            triple(
                one(Style::Cyan, "\u{1f501}"),
                one(Style::Plain, " Loop mode set to: "),
                one(Style::Bold, mode),
            ),
        )
    } else if str_eq(action, "247") {
        let enabled = match json.get_bool("enabled") {
            Some(flag) => flag,
            None => false,
        };
        if enabled {
            Some(pair(one(Style::Yellow, "\u{1f319}"), one(Style::Plain, " 24/7 mode enabled")))
        } else {
            Some(
                pair(
                    one(Style::Yellow, "\u{2600}\u{fe0f}"),
                    one(Style::Plain, " 24/7 mode disabled"),
                ),
            )
        }
    } else if str_eq(action, "shuffle") {
        Some(pair(one(Style::Magenta, "\u{1f500}"), one(Style::Plain, " Queue shuffled")))
    } else if str_eq(action, "filter") {
        let message = match json.get_str("message") {
            Some(message) => message,
            None => "Filters updated",
        };
        Some(
            pair(
                one(Style::Cyan, "\u{1f39a}\u{fe0f}"),
                owned(Style::Plain, concat_text(" ", message)),
            ),
        )
    } else if str_eq(action, "lyrics") {
        Some(lyrics_summary(json))
    } else {
        None
    }
}

/// Sums an answer of the service up for the command line. `legacy_token`
/// tells whether a token file of the old kind was found, which changes the
/// hint after a refused token. `None` means that the answer is printed as
/// it came.
pub fn summarize(json: &Json, legacy_token: bool) -> (summary: Option<Vec<Piece>>)
    ensures
        opt_pieces(summary) == spec_summary(*json, legacy_token),
{
    match json {
        Json::Object(_) => {},
        _ => {
            return None;
        },
    }
    match json.get_str("error") {
        Some(error) => Some(error_summary(json, error, legacy_token)),
        None => {
            let action = match json.get_str("action") {
                Some(action) => action,
                None => "",
            };
            proof {
                reveal_strlit("");
            }
            assert(""@ =~= Seq::<char>::empty());
            action_summary(json, action)
        },
    }
}

/// The text of a summary with the styles left out.
pub open spec fn plain_text(summary: Seq<PieceView>) -> Seq<char>
    decreases summary.len(),
{
    if summary.len() == 0 {
        Seq::empty()
    } else {
        plain_text(summary.drop_last()) + summary.last().text
    }
}

/// The text of a summary with the styles left out.
pub fn unstyled(summary: &Vec<Piece>) -> (text: String)
    ensures
        text@ == plain_text(pieces(summary@)),
{
    let mut text = String::new();
    let mut i: usize = 0;
    assert(pieces(summary@).take(0) =~= Seq::empty());
    while i < summary.len()
        invariant
            i <= summary.len(),
            text@ == plain_text(pieces(summary@).take(i as int)),
        decreases summary.len() - i,
    {
        assert(pieces(summary@).take(i + 1).drop_last() == pieces(summary@).take(i as int));
        assert(pieces(summary@).take(i + 1).last() == summary@[i as int]@);
        text.append(summary[i].text.as_str());
        i = i + 1;
    }
    assert(pieces(summary@).take(summary@.len() as int) == pieces(summary@));
    text
}

} // verus!
