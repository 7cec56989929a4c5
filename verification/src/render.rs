//! What the screen shows of the session, as plain texts and numbers: the
//! progress of the track, the titles, the lines of the queue and the labels
//! of the bars. Drawing them is left to the program around the library.

use vstd::prelude::*;
use crate::session::{
    track_line, ConnectionStatus, LoopMode, SessionState, TrackSummary, TrackView,
};
use crate::text::{
    decimal, padded_left, push_decimal, push_decimal_padded, push_repeated, repeated, str_eq,
};

verus! {

/// Longest time, in milliseconds, that the render loop waits for a key
/// before it draws the next frame.
pub const FRAME_INTERVAL_MS: u64 = 16;

/// Cells of the progress bar.
pub const PROGRESS_CELLS: u64 = 30;

/// The part of the track that has played, in `parts` equal parts, rounded
/// to the nearest part, a half upwards; a position past the end counts as
/// the end.
pub open spec fn spec_progress(elapsed_ms: u64, duration_ms: u64, parts: int) -> int {
    let played = if elapsed_ms < duration_ms {
        elapsed_ms
    } else {
        duration_ms
    };
    (2 * parts * played + duration_ms) / (2 * duration_ms)
}

/// The part of the track that has played, in hundredths, rounded down.
pub open spec fn spec_percent(elapsed_ms: u64, duration_ms: u64) -> int {
    let played = if elapsed_ms < duration_ms {
        elapsed_ms
    } else {
        duration_ms
    };
    100 * played / (duration_ms as int)
}

/// The number of cells of the progress bar in front of the marker.
pub fn progress_cells(elapsed_ms: u64, duration_ms: u64) -> (cells: usize)
    requires
        duration_ms > 0,
    ensures
        cells == spec_progress(elapsed_ms, duration_ms, PROGRESS_CELLS as int),
        cells <= PROGRESS_CELLS,
{
    let played: u128 = if elapsed_ms < duration_ms {
        elapsed_ms as u128
    } else {
        duration_ms as u128
    };
    let cells: u128 = (60 * played + duration_ms as u128) / (2 * duration_ms as u128);
    assert(cells <= 30) by (nonlinear_arith)
        requires
            cells == (60 * played + duration_ms as u128) / (2 * duration_ms as u128),
            played <= duration_ms,
            duration_ms > 0,
    ;
    cells as usize
}

/// The part of the track that has played, in percent.
pub fn progress_percent(elapsed_ms: u64, duration_ms: u64) -> (percent: u64)
    requires
        duration_ms > 0,
    ensures
        percent == spec_percent(elapsed_ms, duration_ms),
        percent <= 100,
{
    let played: u128 = if elapsed_ms < duration_ms {
        elapsed_ms as u128
    } else {
        duration_ms as u128
    };
    let percent: u128 = 100 * played / (duration_ms as u128);
    assert(percent <= 100) by (nonlinear_arith)
        requires
            percent == 100 * played / (duration_ms as int),
            played <= duration_ms,
            duration_ms > 0,
    ;
    percent as u64
}

/// The progress bar: a line of 30 cells with the marker after the cells
/// that have played.
pub open spec fn spec_progress_bar(elapsed_ms: u64, duration_ms: u64) -> Seq<char> {
    let cells = spec_progress(elapsed_ms, duration_ms, PROGRESS_CELLS as int);
    repeated("\u{2501}"@, cells as nat) + "\u{26aa}"@ + repeated(
        "\u{2501}"@,
        (PROGRESS_CELLS - cells) as nat,
    )
}

/// The progress bar for a position in a track of known length.
pub fn progress_bar(elapsed_ms: u64, duration_ms: u64) -> (bar: String)
    requires
        duration_ms > 0,
    ensures
        bar@ == spec_progress_bar(elapsed_ms, duration_ms),
{
    let cells = progress_cells(elapsed_ms, duration_ms);
    let mut bar = String::new();
    push_repeated(&mut bar, "\u{2501}", cells);
    bar.append("\u{26aa}");
    push_repeated(&mut bar, "\u{2501}", 30 - cells);
    assert(Seq::<char>::empty() + repeated("\u{2501}"@, cells as nat) == repeated(
        "\u{2501}"@,
        cells as nat,
    ));
    bar
}

/// A time in minutes and seconds, each at least two digits wide.
pub open spec fn spec_clock(ms: u64) -> Seq<char> {
    padded_left(decimal((ms / 60000) as nat), 2, '0') + ":"@ + padded_left(
        decimal(((ms % 60000) / 1000) as nat),
        2,
        '0',
    )
}

/// Adds a time in minutes and seconds at the end of `s`.
pub fn push_clock(s: &mut String, ms: u64)
    ensures
        final(s)@ == old(s)@ + spec_clock(ms),
{
    let ghost before = s@;
    push_decimal_padded(s, ms / 60000, 2, '0');
    s.append(":");
    push_decimal_padded(s, (ms % 60000) / 1000, 2, '0');
    assert(s@ == before + spec_clock(ms)) by {
        let a = padded_left(decimal((ms / 60000) as nat), 2, '0');
        let b = padded_left(decimal(((ms % 60000) / 1000) as nat), 2, '0');
        assert(before + a + ":"@ + b == before + (a + ":"@ + b));
    }
}

/// The words beside the progress bar: position and length as times, and
/// the percentage, three characters wide.
pub open spec fn spec_progress_label(elapsed_ms: u64, duration_ms: u64) -> Seq<char> {
    " "@ + spec_clock(elapsed_ms) + " / "@ + spec_clock(duration_ms) + " ("@ + padded_left(
        decimal(spec_percent(elapsed_ms, duration_ms) as nat),
        3,
        ' ',
    ) + "%) "@
}

/// The words beside the progress bar.
pub fn progress_label(elapsed_ms: u64, duration_ms: u64) -> (label: String)
    requires
        duration_ms > 0,
    ensures
        label@ == spec_progress_label(elapsed_ms, duration_ms),
{
    let mut label = " ".to_string();
    push_clock(&mut label, elapsed_ms);
    label.append(" / ");
    push_clock(&mut label, duration_ms);
    label.append(" (");
    push_decimal_padded(&mut label, progress_percent(elapsed_ms, duration_ms), 3, ' ');
    label.append("%) ");
    label
}

/// The name of a loop mode in the title of the queue.
pub open spec fn loop_mode_title(mode: LoopMode) -> Seq<char> {
    match mode {
        LoopMode::Off => "OFF"@,
        LoopMode::Track => "TRACK"@,
        LoopMode::Queue => "QUEUE"@,
    }
}

/// The title of the queue: the loop mode, and a note while a request is
/// under way.
pub open spec fn spec_queue_title(mode: LoopMode, is_loading: bool) -> Seq<char> {
    " Queue (Loop: "@ + loop_mode_title(mode) + ")"@ + (if is_loading {
        " \u{23f3} Loading... "@
    } else {
        " "@
    }) + " "@
}

/// The title of the queue.
pub fn queue_title(mode: LoopMode, is_loading: bool) -> (title: String)
    ensures
        title@ == spec_queue_title(mode, is_loading),
{
    let mut title = " Queue (Loop: ".to_string();
    title.append(
        match mode {
            LoopMode::Off => "OFF",
            LoopMode::Track => "TRACK",
            LoopMode::Queue => "QUEUE",
        },
    );
    title.append(")");
    title.append(
        if is_loading {
            " \u{23f3} Loading... "
        } else {
            " "
        },
    );
    title.append(" ");
    title
}

/// The line of the queue for the track at `index`, counted from zero: its
/// number, counted from one, and the track.
pub open spec fn spec_queue_line(index: nat, track: TrackView) -> Seq<char> {
    "   "@ + decimal(index + 1) + ". "@ + track_line(track)
}

/// The line of the queue for the track at `index`.
pub fn queue_line(index: usize, track: &TrackSummary) -> (line: String)
    requires
        index < usize::MAX,
    ensures
        line@ == spec_queue_line(index as nat, track@),
{
    let mut line = "   ".to_string();
    push_decimal(&mut line, (index + 1) as u64);
    line.append(". ");
    line.append(track.display().as_str());
    line
}

/// The label under a bar of the height `height`: the height, at most 99,
/// two characters wide.
pub open spec fn spec_bar_label(height: u64) -> Seq<char> {
    padded_left(
        decimal(
            if height < 99 {
                height as nat
            } else {
                99
            },
        ),
        2,
        ' ',
    )
}

/// The label under a bar.
pub fn bar_label(height: u64) -> (label: String)
    ensures
        label@ == spec_bar_label(height),
{
    let shown: u64 = if height < 99 {
        height
    } else {
        99
    };
    let mut label = String::new();
    push_decimal_padded(&mut label, shown, 2, ' ');
    assert(Seq::<char>::empty() + spec_bar_label(height) == spec_bar_label(height));
    label
}

/// The column at which the frequency label `index` of `count` starts on a
/// line of `width` cells, for a label of `len` cells: the labels are spread
/// evenly, the first at the left edge and the last at the right.
pub open spec fn spec_label_column(index: int, count: int, width: int, len: int) -> int {
    index * (width - len) / (count - 1)
}

/// The column at which a frequency label starts.
pub fn label_column(index: usize, count: usize, width: u16, len: u16) -> (column: usize)
    requires
        index < count,
        2 <= count,
        len <= width,
    ensures
        column == spec_label_column(index as int, count as int, width as int, len as int),
        column + len <= width,
{
    let room: u128 = (width - len) as u128;
    let steps: u128 = (count - 1) as u128;
    assert(index * room <= 0xffff_ffff_ffff_ffff * 0xffff) by (nonlinear_arith)
        requires
            0 <= index <= 0xffff_ffff_ffff_ffff,
            0 <= room <= 0xffff,
    ;
    let column: u128 = index as u128 * room / steps;
    assert(column <= room) by (nonlinear_arith)
        requires
            column == index as u128 * room / (steps as int),
            0 <= index <= steps,
            0 <= room,
            steps > 0,
    ;
    column as usize
}

/// The words that name a connection status.
pub open spec fn connection_label(status: ConnectionStatus) -> Seq<char> {
    match status {
        ConnectionStatus::Connected => " CONNECTED "@,
        ConnectionStatus::Connecting => " CONNECTING... "@,
        ConnectionStatus::Disconnected => " DISCONNECTED "@,
    }
}

impl ConnectionStatus {
    /// The words that name this status.
    pub fn label(self) -> (r: &'static str)
        ensures
            r@ == connection_label(self),
    {
        match self {
            ConnectionStatus::Connected => " CONNECTED ",
            ConnectionStatus::Connecting => " CONNECTING... ",
            ConnectionStatus::Disconnected => " DISCONNECTED ",
        }
    }
}

impl SessionState {
    /// Whether the login screen shows the state of a login instead of its
    /// invitation: while a request is under way, and once the login has
    /// said more than that it starts.
    pub fn shows_login_status(&self) -> (r: bool)
        ensures
            r == (self@.is_loading || (self@.auth_info_text is Some && self@.auth_info_text
                != Some("Initializing login..."@))),
    {
        if self.is_loading {
            true
        } else {
            match &self.auth_info_text {
                Some(text) => !str_eq(text.as_str(), "Initializing login..."),
                None => false,
            }
        }
    }
}

} // verus!
