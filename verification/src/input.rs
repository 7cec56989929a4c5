//! What a key press does: the rules of every screen, as one function from
//! the session and the key to the session after it and the things the
//! program is to start.
//!
//! Handling a key never waits for the network. A key that asks for a request
//! yields an [`Intent`]; the program around the library starts the request
//! as a task of its own.

use vstd::prelude::*;
use crate::api::Settings;
use crate::dispatch::{spec_next_loop_mode, Command, FilterStyle};
use crate::session::{
    InputMode, LoopMode, Screen, SessionState, SessionView, SettingsField, AUTH_ITEMS,
    FILTER_ITEMS, MENU_ITEMS,
};
use crate::text::{parse_i64, pop_char, push_char, spec_parse_i64};

verus! {

/// The link that the menu entry for the house track plays.
pub const TURIP_LINK: &'static str = "https://open.spotify.com/track/2RQWB4Asy1rjZL4IUcJ7kn";

/// A key of the keyboard, as far as the screens tell keys apart.
#[derive(Clone, Copy, PartialEq, Eq, Structural, Debug)]
pub enum Key {
    Char(char),
    Enter,
    Esc,
    Tab,
    Backspace,
    Up,
    Down,
    Other,
}

/// A key that was pressed, and whether the control key was held.
#[derive(Clone, Copy, PartialEq, Eq, Structural, Debug)]
pub struct KeyPress {
    pub key: Key,
    pub ctrl: bool,
}

/// An entry of the main menu, in the order shown.
#[derive(Clone, Copy, PartialEq, Eq, Structural, Debug)]
pub enum MenuItem {
    Skip,
    PauseResume,
    Stop,
    Shuffle,
    ClearQueue,
    LoopTrack,
    LoopQueue,
    LoopOff,
    TwentyFourSeven,
    Filters,
    Lyrics,
    PlayTurip,
    Auth,
    Settings,
    Exit,
}

/// An entry of the account menu, in the order shown.
#[derive(Clone, Copy, PartialEq, Eq, Structural, Debug)]
pub enum AuthItem {
    Login,
    Signout,
    Info,
}

/// Something the program is to start after a key press.
#[derive(Clone, Debug, PartialEq, Eq)]
pub enum Intent {
    /// Fetch the queue.
    FetchQueue,
    /// Play what the text names.
    Play(String),
    /// Send a command.
    Command(Command),
    /// Fetch the lyrics.
    FetchLyrics,
    /// Run the login flow.
    Login,
    /// Sign out.
    Signout,
    /// Read the saved credentials and show them.
    ShowAuthInfo,
    /// Save the settings of the session.
    SaveSettings,
    /// Save the spectrogram to a file.
    SaveSpectrogram,
    /// Leave the program.
    Quit,
}

/// The value of an [`Intent`].
pub enum IntentView {
    FetchQueue,
    Play(Seq<char>),
    Command(Command),
    FetchLyrics,
    Login,
    Signout,
    ShowAuthInfo,
    SaveSettings,
    SaveSpectrogram,
    Quit,
}

impl View for Intent {
    type V = IntentView;

    open spec fn view(&self) -> IntentView {
        match self {
            Intent::FetchQueue => IntentView::FetchQueue,
            Intent::Play(query) => IntentView::Play(query@),
            Intent::Command(command) => IntentView::Command(*command),
            Intent::FetchLyrics => IntentView::FetchLyrics,
            Intent::Login => IntentView::Login,
            Intent::Signout => IntentView::Signout,
            Intent::ShowAuthInfo => IntentView::ShowAuthInfo,
            Intent::SaveSettings => IntentView::SaveSettings,
            Intent::SaveSpectrogram => IntentView::SaveSpectrogram,
            Intent::Quit => IntentView::Quit,
        }
    }
}

/// The values of a list of intents.
pub open spec fn intents(v: Seq<Intent>) -> Seq<IntentView> {
    v.map_values(|i: Intent| i@)
}

/// Whether `key` is the character `latin` or its neighbour `other` on a
/// second keyboard layout.
pub open spec fn key_is(key: Key, latin: char, other: char) -> bool {
    key == Key::Char(latin) || key == Key::Char(other)
}

/// Whether `key` moves a selection down.
pub open spec fn is_down(key: Key) -> bool {
    key == Key::Down || key_is(key, 'j', '\u{43e}')
}

/// Whether `key` moves a selection up.
pub open spec fn is_up(key: Key) -> bool {
    key == Key::Up || key_is(key, 'k', '\u{43b}')
}

/// Whether `key` quits.
pub open spec fn is_quit(key: Key) -> bool {
    key_is(key, 'q', '\u{439}')
}

/// Whether `key` reloads.
pub open spec fn is_reload(key: Key) -> bool {
    key_is(key, 'r', '\u{43a}')
}

/// Whether `key` is `s` or one of its two neighbours.
pub open spec fn is_skip(key: Key) -> bool {
    key_is(key, 's', '\u{44b}') || key == Key::Char('\u{456}')
}

/// The selection after a step down in a list of `len` entries: the next
/// entry, or the first after the last.
pub open spec fn spec_below(selected: usize, len: usize) -> usize {
    if selected + 1 >= len {
        0
    } else {
        (selected + 1) as usize
    }
}

/// The selection after a step up in a list of `len` entries: the entry
/// before, or the last before the first.
pub open spec fn spec_above(selected: usize, len: usize) -> usize {
    if selected == 0 {
        (len - 1) as usize
    } else {
        (selected - 1) as usize
    }
}

/// The entry of the main menu at `index`.
pub open spec fn spec_menu_item(index: usize) -> MenuItem {
    if index == 0 {
        MenuItem::Skip
    } else if index == 1 {
        MenuItem::PauseResume
    } else if index == 2 {
        MenuItem::Stop
    } else if index == 3 {
        MenuItem::Shuffle
    } else if index == 4 {
        MenuItem::ClearQueue
    } else if index == 5 {
        MenuItem::LoopTrack
    } else if index == 6 {
        MenuItem::LoopQueue
    } else if index == 7 {
        MenuItem::LoopOff
    } else if index == 8 {
        MenuItem::TwentyFourSeven
    } else if index == 9 {
        MenuItem::Filters
    } else if index == 10 {
        MenuItem::Lyrics
    } else if index == 11 {
        MenuItem::PlayTurip
    } else if index == 12 {
        MenuItem::Auth
    } else if index == 13 {
        MenuItem::Settings
    } else {
        MenuItem::Exit
    }
}

/// The preset of the filter menu at `index`.
pub open spec fn spec_filter_item(index: usize) -> FilterStyle {
    if index == 0 {
        FilterStyle::Clear
    } else if index == 1 {
        FilterStyle::Bassboost
    } else if index == 2 {
        FilterStyle::Nightcore
    } else if index == 3 {
        FilterStyle::Vaporwave
    } else if index == 4 {
        FilterStyle::EightD
    } else if index == 5 {
        FilterStyle::Soft
    } else if index == 6 {
        FilterStyle::Tremolo
    } else if index == 7 {
        FilterStyle::Vibrato
    } else {
        FilterStyle::Karaoke
    }
}

/// The entry of the account menu at `index`.
pub open spec fn spec_auth_item(index: usize) -> AuthItem {
    if index == 0 {
        AuthItem::Login
    } else if index == 1 {
        AuthItem::Signout
    } else {
        AuthItem::Info
    }
}

/// The words that show an entry of the main menu.
pub open spec fn menu_label(item: MenuItem) -> Seq<char> {
    match item {
        MenuItem::Skip => "Skip"@,
        MenuItem::PauseResume => "Pause/Resume"@,
        MenuItem::Stop => "Stop"@,
        MenuItem::Shuffle => "Shuffle"@,
        MenuItem::ClearQueue => "Clear Queue"@,
        MenuItem::LoopTrack => "Loop Track"@,
        MenuItem::LoopQueue => "Loop Queue"@,
        MenuItem::LoopOff => "Loop Off"@,
        MenuItem::TwentyFourSeven => "24/7 Mode Toggle"@,
        MenuItem::Filters => "Filters..."@,
        MenuItem::Lyrics => "Lyrics"@,
        MenuItem::PlayTurip => "Play Turip"@,
        MenuItem::Auth => "Auth"@,
        MenuItem::Settings => "Settings"@,
        MenuItem::Exit => "Exit TUI"@,
    }
}

/// The words that show a filter preset.
pub open spec fn filter_label(style: FilterStyle) -> Seq<char> {
    match style {
        FilterStyle::Clear => "Clear"@,
        FilterStyle::Bassboost => "Bassboost"@,
        FilterStyle::Nightcore => "Nightcore"@,
        FilterStyle::Vaporwave => "Vaporwave"@,
        FilterStyle::EightD => "8D"@,
        FilterStyle::Soft => "Soft"@,
        FilterStyle::Tremolo => "Tremolo"@,
        FilterStyle::Vibrato => "Vibrato"@,
        FilterStyle::Karaoke => "Karaoke"@,
    }
}

/// The word that shows an entry of the account menu.
pub open spec fn auth_label(item: AuthItem) -> Seq<char> {
    match item {
        AuthItem::Login => "Login"@,
        AuthItem::Signout => "Signout"@,
        AuthItem::Info => "Info"@,
    }
}

/// The screen to return to from a side screen: the login screen without a
/// token, else the main screen.
pub open spec fn home_screen(s: SessionView) -> Screen {
    if s.token is None {
        Screen::LoginRequired
    } else {
        Screen::Main
    }
}

/// While a fatal error is shown: a reload key clears both errors and asks
/// for the queue; every other key does nothing.
pub open spec fn spec_key_on_fatal(s: SessionView, key: Key) -> (SessionView, Seq<IntentView>) {
    if is_reload(key) {
        (SessionView { fatal_error: None, error_message: None, ..s }, seq![IntentView::FetchQueue])
    } else {
        (s, Seq::empty())
    }
}

/// While the search line is edited.
pub open spec fn spec_key_on_editing(s: SessionView, key: Key) -> (SessionView, Seq<IntentView>) {
    match key {
        Key::Enter => (
            SessionView { input: Seq::empty(), input_mode: InputMode::Normal, ..s },
            seq![IntentView::Play(s.input)],
        ),
        Key::Esc => (
            SessionView { input: Seq::empty(), input_mode: InputMode::Normal, ..s },
            Seq::empty(),
        ),
        Key::Char(c) => (SessionView { input: s.input.push(c), ..s }, Seq::empty()),
        Key::Backspace => (
            SessionView {
                input: if s.input.len() > 0 {
                    s.input.drop_last()
                } else {
                    s.input
                },
                ..s
            },
            Seq::empty(),
        ),
        _ => (s, Seq::empty()),
    }
}

/// What choosing an entry of the main menu does.
pub open spec fn spec_menu_chosen(s: SessionView, item: MenuItem) -> (SessionView, Seq<IntentView>) {
    let main = SessionView { screen: Screen::Main, ..s };
    match item {
        MenuItem::Skip => (main, seq![IntentView::Command(Command::Skip)]),
        MenuItem::PauseResume => (main, seq![IntentView::Command(Command::Pause)]),
        MenuItem::Stop => (main, seq![IntentView::Command(Command::Stop)]),
        MenuItem::Shuffle => (main, seq![IntentView::Command(Command::Shuffle)]),
        MenuItem::ClearQueue => (main, seq![IntentView::Command(Command::Clear)]),
        MenuItem::LoopTrack => (
            SessionView { loop_mode: LoopMode::Track, ..main },
            seq![IntentView::Command(Command::Loop(LoopMode::Track))],
        ),
        MenuItem::LoopQueue => (
            SessionView { loop_mode: LoopMode::Queue, ..main },
            seq![IntentView::Command(Command::Loop(LoopMode::Queue))],
        ),
        MenuItem::LoopOff => (
            SessionView { loop_mode: LoopMode::Off, ..main },
            seq![IntentView::Command(Command::Loop(LoopMode::Off))],
        ),
        MenuItem::TwentyFourSeven => (main, seq![IntentView::Command(Command::TwentyFourSeven)]),
        MenuItem::Filters => (SessionView { screen: Screen::FilterMenu, ..s }, Seq::empty()),
        MenuItem::Lyrics => (s, seq![IntentView::FetchLyrics]),
        MenuItem::PlayTurip => (main, seq![IntentView::Play(TURIP_LINK@)]),
        MenuItem::Auth => (SessionView { screen: Screen::AuthMenu, ..s }, Seq::empty()),
        MenuItem::Settings => (
            SessionView { settings_input: s.base_url, screen: Screen::Settings, ..s },
            Seq::empty(),
        ),
        MenuItem::Exit => (s, seq![IntentView::Quit]),
    }
}

/// On the main menu.
pub open spec fn spec_key_on_menu(s: SessionView, key: Key) -> (SessionView, Seq<IntentView>) {
    if key == Key::Esc || key == Key::Tab {
        (SessionView { screen: Screen::Main, ..s }, Seq::empty())
    } else if is_down(key) {
        (SessionView { menu_selected: spec_below(s.menu_selected, MENU_ITEMS), ..s }, Seq::empty())
    } else if is_up(key) {
        (SessionView { menu_selected: spec_above(s.menu_selected, MENU_ITEMS), ..s }, Seq::empty())
    } else if key == Key::Enter {
        spec_menu_chosen(s, spec_menu_item(s.menu_selected))
    } else {
        (s, Seq::empty())
    }
}

/// Whether the offset line of the settings takes the character `c`: a
/// decimal digit, or a minus sign in front.
pub open spec fn offset_takes(offset_input: Seq<char>, c: char) -> bool {
    crate::text::digit_value(c) is Some || (c == '-' && offset_input.len() == 0)
}

/// The session after the settings were confirmed: the host is the one
/// typed, the offset the one typed if it reads as a number, and the stream
/// is told to reconnect if the host changed.
pub open spec fn spec_settings_confirmed(s: SessionView) -> SessionView {
    SessionView {
        base_url: s.settings_input,
        visualizer_offset: match spec_parse_i64(s.offset_input) {
            Some(offset) => offset,
            None => s.visualizer_offset,
        },
        needs_reconnect: s.needs_reconnect || s.settings_input != s.base_url,
        screen: home_screen(s),
        ..s
    }
}

/// On the settings screen.
pub open spec fn spec_key_on_settings(s: SessionView, key: Key) -> (SessionView, Seq<IntentView>) {
    match key {
        Key::Enter => (
            spec_settings_confirmed(s),
            seq![IntentView::SaveSettings, IntentView::FetchQueue],
        ),
        Key::Esc => (SessionView { screen: home_screen(s), ..s }, Seq::empty()),
        Key::Down | Key::Up | Key::Tab => (
            SessionView {
                settings_field: match s.settings_field {
                    SettingsField::Host => SettingsField::Offset,
                    SettingsField::Offset => SettingsField::Host,
                },
                ..s
            },
            Seq::empty(),
        ),
        Key::Backspace => (
            match s.settings_field {
                SettingsField::Host => SessionView {
                    settings_input: if s.settings_input.len() > 0 {
                        s.settings_input.drop_last()
                    } else {
                        s.settings_input
                    },
                    ..s
                },
                SettingsField::Offset => SessionView {
                    offset_input: if s.offset_input.len() > 0 {
                        s.offset_input.drop_last()
                    } else {
                        s.offset_input
                    },
                    ..s
                },
            },
            Seq::empty(),
        ),
        Key::Char(c) => (
            match s.settings_field {
                SettingsField::Host => SessionView {
                    settings_input: s.settings_input.push(c),
                    ..s
                },
                SettingsField::Offset => if offset_takes(s.offset_input, c) {
                    SessionView { offset_input: s.offset_input.push(c), ..s }
                } else {
                    s
                },
            },
            Seq::empty(),
        ),
        _ => (s, Seq::empty()),
    }
}

/// On the account menu.
pub open spec fn spec_key_on_auth_menu(s: SessionView, key: Key) -> (SessionView, Seq<IntentView>) {
    if key == Key::Esc || key == Key::Tab {
        (SessionView { screen: Screen::Main, ..s }, Seq::empty())
    } else if key == Key::Backspace {
        (SessionView { screen: Screen::Menu, ..s }, Seq::empty())
    } else if is_down(key) {
        (SessionView { auth_selected: spec_below(s.auth_selected, AUTH_ITEMS), ..s }, Seq::empty())
    } else if is_up(key) {
        (SessionView { auth_selected: spec_above(s.auth_selected, AUTH_ITEMS), ..s }, Seq::empty())
    } else if key == Key::Enter {
        match spec_auth_item(s.auth_selected) {
            AuthItem::Login => (s, seq![IntentView::Login]),
            AuthItem::Signout => (s, seq![IntentView::Signout]),
            AuthItem::Info => (s, seq![IntentView::ShowAuthInfo]),
        }
    } else {
        (s, Seq::empty())
    }
}

/// On the screen that shows the outcome of an account action.
pub open spec fn spec_key_on_auth_result(s: SessionView, key: Key) -> (SessionView, Seq<IntentView>) {
    if key == Key::Esc || key == Key::Enter || key == Key::Backspace {
        (SessionView { screen: Screen::AuthMenu, ..s }, Seq::empty())
    } else {
        (s, Seq::empty())
    }
}

/// On the login screen.
pub open spec fn spec_key_on_login(s: SessionView, key: Key) -> (SessionView, Seq<IntentView>) {
    if key == Key::Enter {
        (s, seq![IntentView::Login])
    } else if key == Key::Char('\\') {
        (SessionView { settings_input: s.base_url, screen: Screen::Settings, ..s }, Seq::empty())
    } else if is_quit(key) {
        (s, seq![IntentView::Quit])
    } else {
        (s, Seq::empty())
    }
}

/// On the filter menu.
pub open spec fn spec_key_on_filter_menu(s: SessionView, key: Key) -> (SessionView, Seq<IntentView>) {
    if key == Key::Esc {
        (SessionView { screen: Screen::Main, ..s }, Seq::empty())
    } else if key == Key::Backspace {
        (SessionView { screen: Screen::Menu, ..s }, Seq::empty())
    } else if is_down(key) {
        (
            SessionView { filter_selected: spec_below(s.filter_selected, FILTER_ITEMS), ..s },
            Seq::empty(),
        )
    } else if is_up(key) {
        (
            SessionView { filter_selected: spec_above(s.filter_selected, FILTER_ITEMS), ..s },
            Seq::empty(),
        )
    } else if key == Key::Enter {
        (
            SessionView { screen: Screen::Main, ..s },
            seq![IntentView::Command(Command::Filter(spec_filter_item(s.filter_selected)))],
        )
    } else {
        (s, Seq::empty())
    }
}

/// On the lyrics screen.
pub open spec fn spec_key_on_lyrics(s: SessionView, key: Key) -> (SessionView, Seq<IntentView>) {
    if key == Key::Esc {
        (SessionView { screen: Screen::Main, ..s }, Seq::empty())
    } else if key == Key::Backspace {
        (SessionView { screen: Screen::Menu, ..s }, Seq::empty())
    } else if is_down(key) {
        (
            SessionView {
                lyrics_scroll: if s.lyrics_scroll == u16::MAX {
                    u16::MAX
                } else {
                    (s.lyrics_scroll + 1) as u16
                },
                ..s
            },
            Seq::empty(),
        )
    } else if is_up(key) {
        (
            SessionView {
                lyrics_scroll: if s.lyrics_scroll == 0 {
                    0
                } else {
                    (s.lyrics_scroll - 1) as u16
                },
                ..s
            },
            Seq::empty(),
        )
    } else {
        (s, Seq::empty())
    }
}

/// On the main screen.
pub open spec fn spec_key_on_main(s: SessionView, press: KeyPress) -> (SessionView, Seq<IntentView>) {
    let key = press.key;
    if is_quit(key) {
        (s, seq![IntentView::Quit])
    } else if is_reload(key) {
        (s, seq![IntentView::FetchQueue])
    } else if key == Key::Tab {
        (SessionView { screen: Screen::Menu, ..s }, Seq::empty())
    } else if key == Key::Enter {
        (SessionView { input_mode: InputMode::Editing, ..s }, Seq::empty())
    } else if key_is(key, 'l', '\u{434}') {
        (
            SessionView { loop_mode: spec_next_loop_mode(s.loop_mode), ..s },
            seq![IntentView::Command(Command::Loop(spec_next_loop_mode(s.loop_mode)))],
        )
    } else if is_skip(key) {
        (s, seq![IntentView::Command(Command::Skip)])
    } else if key_is(key, 'w', '\u{446}') {
        (s, seq![IntentView::Command(Command::Stop)])
    } else if key_is(key, 'c', '\u{441}') {
        (s, seq![IntentView::Command(Command::Clear)])
    } else if key == Key::Char('d') && press.ctrl {
        (SessionView { screen: Screen::Debug, ..s }, Seq::empty())
    } else {
        match key {
            Key::Char(c) => (
                SessionView { input_mode: InputMode::Editing, input: s.input.push(c), ..s },
                Seq::empty(),
            ),
            _ => (s, Seq::empty()),
        }
    }
}

/// On the debug screen.
pub open spec fn spec_key_on_debug(s: SessionView, key: Key) -> (SessionView, Seq<IntentView>) {
    if key_is(key, 's', '\u{44b}') {
        (s, seq![IntentView::SaveSpectrogram])
    } else if key == Key::Esc || is_quit(key) {
        (SessionView { screen: home_screen(s), ..s }, Seq::empty())
    } else {
        (s, Seq::empty())
    }
}

/// What a key press does: the session after it, and what is to be started.
/// A fatal error takes every key; then the search line, while it is edited;
/// then the screen shown.
pub open spec fn spec_key(s: SessionView, press: KeyPress) -> (SessionView, Seq<IntentView>) {
    if s.fatal_error is Some {
        spec_key_on_fatal(s, press.key)
    } else if s.input_mode == InputMode::Editing {
        spec_key_on_editing(s, press.key)
    } else {
        match s.screen {
            Screen::Menu => spec_key_on_menu(s, press.key),
            Screen::Settings => spec_key_on_settings(s, press.key),
            Screen::AuthMenu => spec_key_on_auth_menu(s, press.key),
            Screen::AuthResult => spec_key_on_auth_result(s, press.key),
            Screen::LoginRequired => spec_key_on_login(s, press.key),
            Screen::FilterMenu => spec_key_on_filter_menu(s, press.key),
            Screen::Lyrics => spec_key_on_lyrics(s, press.key),
            Screen::Main => spec_key_on_main(s, press),
            Screen::Debug => spec_key_on_debug(s, press.key),
        }
    }
}

/// No key touches what the service reports: queue, current track, playback
/// position, spectrogram, bars, connection status, log, guild and user stay
/// as they are, and the invariant holds afterwards.
pub proof fn lemma_key_frame(s: SessionView, press: KeyPress)
    requires
        s.wf(),
    ensures
        spec_key(s, press).0.wf(),
        spec_key(s, press).0.queue == s.queue,
        spec_key(s, press).0.current_track == s.current_track,
        spec_key(s, press).0.playback == s.playback,
        spec_key(s, press).0.spectrogram == s.spectrogram,
        spec_key(s, press).0.bars == s.bars,
        spec_key(s, press).0.connection == s.connection,
        spec_key(s, press).0.logs == s.logs,
        spec_key(s, press).0.guild_id == s.guild_id,
        spec_key(s, press).0.user_id == s.user_id,
        spec_key(s, press).0.token == s.token,
{
}

/// A fatal error blocks every intent but the reload, and only the reload
/// clears it.
pub proof fn lemma_fatal_blocks(s: SessionView, press: KeyPress)
    requires
        s.fatal_error is Some,
    ensures
        is_reload(press.key) ==> spec_key(s, press).0.fatal_error is None && spec_key(s, press).1
            == seq![IntentView::FetchQueue],
        !is_reload(press.key) ==> spec_key(s, press).0 == s && spec_key(s, press).1
            == Seq::<IntentView>::empty(),
{
}

/// The program is left only by the quit key on the main and login screens
/// or by the exit entry of the menu: a key that yields [`IntentView::Quit`]
/// yields nothing else and changes nothing.
pub proof fn lemma_quit_is_explicit(s: SessionView, press: KeyPress)
    requires
        spec_key(s, press).1.contains(IntentView::Quit),
    ensures
        spec_key(s, press).1 == seq![IntentView::Quit],
        spec_key(s, press).0 == s,
        s.fatal_error is None,
        s.input_mode == InputMode::Normal,
        s.screen == Screen::Main || s.screen == Screen::LoginRequired || s.screen == Screen::Menu,
{
    let out = spec_key(s, press).1;
    let k = choose|k: int| 0 <= k < out.len() && out[k] == IntentView::Quit;
    assert(0 <= k < out.len() && out[k] == IntentView::Quit);
}

fn key_char_is(key: Key, latin: char, other: char) -> (r: bool)
    ensures
        r == key_is(key, latin, other),
{
    match key {
        Key::Char(c) => c == latin || c == other,
        _ => false,
    }
}

fn key_is_down(key: Key) -> (r: bool)
    ensures
        r == is_down(key),
{
    match key {
        Key::Down => true,
        _ => key_char_is(key, 'j', '\u{43e}'),
    }
}

fn key_is_up(key: Key) -> (r: bool)
    ensures
        r == is_up(key),
{
    match key {
        Key::Up => true,
        _ => key_char_is(key, 'k', '\u{43b}'),
    }
}

fn below(selected: usize, len: usize) -> (r: usize)
    requires
        selected < len,
    ensures
        r == spec_below(selected, len),
        r < len,
{
    if selected >= len - 1 {
        0
    } else {
        selected + 1
    }
}

fn above(selected: usize, len: usize) -> (r: usize)
    requires
        selected < len,
    ensures
        r == spec_above(selected, len),
        r < len,
{
    if selected == 0 {
        len - 1
    } else {
        selected - 1
    }
}

fn no_intent() -> (v: Vec<Intent>)
    ensures
        intents(v@) == Seq::<IntentView>::empty(),
{
    let v: Vec<Intent> = Vec::new();
    assert(intents(v@) =~= Seq::<IntentView>::empty());
    v
}

fn one_intent(intent: Intent) -> (v: Vec<Intent>)
    ensures
        intents(v@) == seq![intent@],
{
    let mut v: Vec<Intent> = Vec::new();
    v.push(intent);
    assert(intents(v@) =~= seq![intent@]);
    v
}

fn two_intents(first: Intent, second: Intent) -> (v: Vec<Intent>)
    ensures
        intents(v@) == seq![first@, second@],
{
    let mut v: Vec<Intent> = Vec::new();
    v.push(first);
    v.push(second);
    assert(intents(v@) =~= seq![first@, second@]);
    v
}

impl MenuItem {
    /// The entry of the main menu at `index`; the last entry for an index
    /// past the end.
    pub fn at(index: usize) -> (item: MenuItem)
        ensures
            item == spec_menu_item(index),
    {
        if index == 0 {
            MenuItem::Skip
        } else if index == 1 {
            MenuItem::PauseResume
        } else if index == 2 {
            MenuItem::Stop
        } else if index == 3 {
            MenuItem::Shuffle
        } else if index == 4 {
            MenuItem::ClearQueue
        } else if index == 5 {
            MenuItem::LoopTrack
        } else if index == 6 {
            MenuItem::LoopQueue
        } else if index == 7 {
            MenuItem::LoopOff
        } else if index == 8 {
            MenuItem::TwentyFourSeven
        } else if index == 9 {
            MenuItem::Filters
        } else if index == 10 {
            MenuItem::Lyrics
        } else if index == 11 {
            MenuItem::PlayTurip
        } else if index == 12 {
            MenuItem::Auth
        } else if index == 13 {
            MenuItem::Settings
        } else {
            MenuItem::Exit
        }
    }

    /// The words that show this entry.
    pub fn label(self) -> (r: &'static str)
        ensures
            r@ == menu_label(self),
    {
        match self {
            MenuItem::Skip => "Skip",
            MenuItem::PauseResume => "Pause/Resume",
            MenuItem::Stop => "Stop",
            MenuItem::Shuffle => "Shuffle",
            MenuItem::ClearQueue => "Clear Queue",
            MenuItem::LoopTrack => "Loop Track",
            MenuItem::LoopQueue => "Loop Queue",
            MenuItem::LoopOff => "Loop Off",
            MenuItem::TwentyFourSeven => "24/7 Mode Toggle",
            MenuItem::Filters => "Filters...",
            MenuItem::Lyrics => "Lyrics",
            MenuItem::PlayTurip => "Play Turip",
            MenuItem::Auth => "Auth",
            MenuItem::Settings => "Settings",
            MenuItem::Exit => "Exit TUI",
        }
    }
}

impl FilterStyle {
    /// The preset of the filter menu at `index`; the last one for an index
    /// past the end.
    pub fn at(index: usize) -> (style: FilterStyle)
        ensures
            style == spec_filter_item(index),
    {
        if index == 0 {
            FilterStyle::Clear
        } else if index == 1 {
            FilterStyle::Bassboost
        } else if index == 2 {
            FilterStyle::Nightcore
        } else if index == 3 {
            FilterStyle::Vaporwave
        } else if index == 4 {
            FilterStyle::EightD
        } else if index == 5 {
            FilterStyle::Soft
        } else if index == 6 {
            FilterStyle::Tremolo
        } else if index == 7 {
            FilterStyle::Vibrato
        } else {
            FilterStyle::Karaoke
        }
    }

    /// The words that show this preset.
    pub fn label(self) -> (r: &'static str)
        ensures
            r@ == filter_label(self),
    {
        match self {
            FilterStyle::Clear => "Clear",
            FilterStyle::Bassboost => "Bassboost",
            FilterStyle::Nightcore => "Nightcore",
            FilterStyle::Vaporwave => "Vaporwave",
            FilterStyle::EightD => "8D",
            FilterStyle::Soft => "Soft",
            FilterStyle::Tremolo => "Tremolo",
            FilterStyle::Vibrato => "Vibrato",
            FilterStyle::Karaoke => "Karaoke",
        }
    }
}

impl AuthItem {
    /// The entry of the account menu at `index`; the last entry for an
    /// index past the end.
    pub fn at(index: usize) -> (item: AuthItem)
        ensures
            item == spec_auth_item(index),
    {
        if index == 0 {
            AuthItem::Login
        } else if index == 1 {
            AuthItem::Signout
        } else {
            AuthItem::Info
        }
    }

    /// The word that shows this entry.
    pub fn label(self) -> (r: &'static str)
        ensures
            r@ == auth_label(self),
    {
        match self {
            AuthItem::Login => "Login",
            AuthItem::Signout => "Signout",
            AuthItem::Info => "Info",
        }
    }
}

impl SessionState {
    /// The settings of this session, as they are saved.
    pub fn settings(&self) -> (settings: Settings)
        ensures
            settings.base_url@ == self@.base_url,
            settings.visualizer_offset == self@.visualizer_offset,
    {
        Settings { base_url: self.base_url.clone(), visualizer_offset: self.visualizer_offset }
    }

    /// The screen to return to from a side screen.
    fn home(&self) -> (screen: Screen)
        ensures
            screen == home_screen(self@),
    {
        if self.token.is_none() {
            Screen::LoginRequired
        } else {
            Screen::Main
        }
    }

    fn key_on_fatal(&mut self, key: Key) -> (out: Vec<Intent>)
        ensures
            (final(self)@, intents(out@)) == spec_key_on_fatal(old(self)@, key),
    {
        if key_char_is(key, 'r', '\u{43a}') {
            self.fatal_error = None;
            self.error_message = None;
            one_intent(Intent::FetchQueue)
        } else {
            no_intent()
        }
    }

    fn key_on_editing(&mut self, key: Key) -> (out: Vec<Intent>)
        ensures
            (final(self)@, intents(out@)) == spec_key_on_editing(old(self)@, key),
    {
        match key {
            Key::Enter => {
                let query = self.input.clone();
                self.input = String::new();
                self.input_mode = InputMode::Normal;
                one_intent(Intent::Play(query))
            },
            Key::Esc => {
                self.input_mode = InputMode::Normal;
                self.input = String::new();
                no_intent()
            },
            Key::Char(c) => {
                push_char(&mut self.input, c);
                no_intent()
            },
            Key::Backspace => {
                pop_char(&mut self.input);
                no_intent()
            },
            _ => no_intent(),
        }
    }

    fn menu_chosen(&mut self, item: MenuItem) -> (out: Vec<Intent>)
        ensures
            (final(self)@, intents(out@)) == spec_menu_chosen(old(self)@, item),
    {
        match item {
            MenuItem::Skip => {
                self.screen = Screen::Main;
                one_intent(Intent::Command(Command::Skip))
            },
            MenuItem::PauseResume => {
                self.screen = Screen::Main;
                one_intent(Intent::Command(Command::Pause))
            },
            MenuItem::Stop => {
                self.screen = Screen::Main;
                one_intent(Intent::Command(Command::Stop))
            },
            MenuItem::Shuffle => {
                self.screen = Screen::Main;
                one_intent(Intent::Command(Command::Shuffle))
            },
            MenuItem::ClearQueue => {
                self.screen = Screen::Main;
                one_intent(Intent::Command(Command::Clear))
            },
            MenuItem::LoopTrack => {
                self.loop_mode = LoopMode::Track;
                self.screen = Screen::Main;
                one_intent(Intent::Command(Command::Loop(LoopMode::Track)))
            },
            MenuItem::LoopQueue => {
                self.loop_mode = LoopMode::Queue;
                self.screen = Screen::Main;
                one_intent(Intent::Command(Command::Loop(LoopMode::Queue)))
            },
            MenuItem::LoopOff => {
                self.loop_mode = LoopMode::Off;
                self.screen = Screen::Main;
                one_intent(Intent::Command(Command::Loop(LoopMode::Off)))
            },
            MenuItem::TwentyFourSeven => {
                self.screen = Screen::Main;
                one_intent(Intent::Command(Command::TwentyFourSeven))
            },
            MenuItem::Filters => {
                self.screen = Screen::FilterMenu;
                no_intent()
            },
            MenuItem::Lyrics => one_intent(Intent::FetchLyrics),
            MenuItem::PlayTurip => {
                self.screen = Screen::Main;
                one_intent(Intent::Play(TURIP_LINK.to_string()))
            },
            MenuItem::Auth => {
                self.screen = Screen::AuthMenu;
                no_intent()
            },
            MenuItem::Settings => {
                self.settings_input = self.base_url.clone();
                self.screen = Screen::Settings;
                no_intent()
            },
            MenuItem::Exit => one_intent(Intent::Quit),
        }
    }

    fn key_on_menu(&mut self, key: Key) -> (out: Vec<Intent>)
        requires
            old(self)@.wf(),
        ensures
            (final(self)@, intents(out@)) == spec_key_on_menu(old(self)@, key),
    {
        match key {
            Key::Esc | Key::Tab => {
                self.screen = Screen::Main;
                no_intent()
            },
            Key::Enter => self.menu_chosen(MenuItem::at(self.menu_selected)),
            _ => {
                if key_is_down(key) {
                    self.menu_selected = below(self.menu_selected, MENU_ITEMS);
                } else if key_is_up(key) {
                    self.menu_selected = above(self.menu_selected, MENU_ITEMS);
                }
                no_intent()
            },
        }
    }

    fn confirm_settings(&mut self)
        ensures
            final(self)@ == spec_settings_confirmed(old(self)@),
    {
        let home = self.home();
        let changed = !crate::text::str_eq(self.settings_input.as_str(), self.base_url.as_str());
        self.base_url = self.settings_input.clone();
        match parse_i64(self.offset_input.as_str()) {
            Some(offset) => {
                self.visualizer_offset = offset;
            },
            None => {},
        }
        if changed {
            self.needs_reconnect = true;
        }
        self.screen = home;
    }

    fn key_on_settings(&mut self, key: Key) -> (out: Vec<Intent>)
        ensures
            (final(self)@, intents(out@)) == spec_key_on_settings(old(self)@, key),
    {
        match key {
            Key::Enter => {
                self.confirm_settings();
                two_intents(Intent::SaveSettings, Intent::FetchQueue)
            },
            Key::Esc => {
                self.screen = self.home();
                no_intent()
            },
            Key::Down | Key::Up | Key::Tab => {
                self.settings_field = match self.settings_field {
                    SettingsField::Host => SettingsField::Offset,
                    SettingsField::Offset => SettingsField::Host,
                };
                no_intent()
            },
            Key::Backspace => {
                match self.settings_field {
                    SettingsField::Host => {
                        pop_char(&mut self.settings_input);
                    },
                    SettingsField::Offset => {
                        pop_char(&mut self.offset_input);
                    },
                }
                no_intent()
            },
            Key::Char(c) => {
                match self.settings_field {
                    SettingsField::Host => {
                        push_char(&mut self.settings_input, c);
                    },
                    SettingsField::Offset => {
                        let empty = self.offset_input.as_str().unicode_len() == 0;
                        if crate::text::digit_of_char(c).is_some() || (c == '-' && empty) {
                            push_char(&mut self.offset_input, c);
                        }
                    },
                }
                no_intent()
            },
            _ => no_intent(),
        }
    }

    fn key_on_auth_menu(&mut self, key: Key) -> (out: Vec<Intent>)
        requires
            old(self)@.wf(),
        ensures
            (final(self)@, intents(out@)) == spec_key_on_auth_menu(old(self)@, key),
    {
        match key {
            Key::Esc | Key::Tab => {
                self.screen = Screen::Main;
                no_intent()
            },
            Key::Backspace => {
                self.screen = Screen::Menu;
                no_intent()
            },
            Key::Enter => match AuthItem::at(self.auth_selected) {
                AuthItem::Login => one_intent(Intent::Login),
                AuthItem::Signout => one_intent(Intent::Signout),
                AuthItem::Info => one_intent(Intent::ShowAuthInfo),
            },
            _ => {
                if key_is_down(key) {
                    self.auth_selected = below(self.auth_selected, AUTH_ITEMS);
                } else if key_is_up(key) {
                    self.auth_selected = above(self.auth_selected, AUTH_ITEMS);
                }
                no_intent()
            },
        }
    }

    fn key_on_auth_result(&mut self, key: Key) -> (out: Vec<Intent>)
        ensures
            (final(self)@, intents(out@)) == spec_key_on_auth_result(old(self)@, key),
    {
        match key {
            Key::Esc | Key::Enter | Key::Backspace => {
                self.screen = Screen::AuthMenu;
                no_intent()
            },
            _ => no_intent(),
        }
    }

    fn key_on_login(&mut self, key: Key) -> (out: Vec<Intent>)
        ensures
            (final(self)@, intents(out@)) == spec_key_on_login(old(self)@, key),
    {
        match key {
            Key::Enter => one_intent(Intent::Login),
            Key::Char(c) => {
                if c == '\\' {
                    self.settings_input = self.base_url.clone();
                    self.screen = Screen::Settings;
                    no_intent()
                } else if c == 'q' || c == '\u{439}' {
                    one_intent(Intent::Quit)
                } else {
                    no_intent()
                }
            },
            _ => no_intent(),
        }
    }

    fn key_on_filter_menu(&mut self, key: Key) -> (out: Vec<Intent>)
        requires
            old(self)@.wf(),
        ensures
            (final(self)@, intents(out@)) == spec_key_on_filter_menu(old(self)@, key),
    {
        match key {
            Key::Esc => {
                self.screen = Screen::Main;
                no_intent()
            },
            Key::Backspace => {
                self.screen = Screen::Menu;
                no_intent()
            },
            Key::Enter => {
                let style = FilterStyle::at(self.filter_selected);
                self.screen = Screen::Main;
                one_intent(Intent::Command(Command::Filter(style)))
            },
            _ => {
                if key_is_down(key) {
                    self.filter_selected = below(self.filter_selected, FILTER_ITEMS);
                } else if key_is_up(key) {
                    self.filter_selected = above(self.filter_selected, FILTER_ITEMS);
                }
                no_intent()
            },
        }
    }

    fn key_on_lyrics(&mut self, key: Key) -> (out: Vec<Intent>)
        ensures
            (final(self)@, intents(out@)) == spec_key_on_lyrics(old(self)@, key),
    {
        match key {
            Key::Esc => {
                self.screen = Screen::Main;
            },
            Key::Backspace => {
                self.screen = Screen::Menu;
            },
            _ => {
                if key_is_down(key) {
                    if self.lyrics_scroll < u16::MAX {
                        self.lyrics_scroll = self.lyrics_scroll + 1;
                    }
                } else if key_is_up(key) {
                    if self.lyrics_scroll > 0 {
                        self.lyrics_scroll = self.lyrics_scroll - 1;
                    }
                }
            },
        }
        no_intent()
    }

    fn key_on_main(&mut self, press: KeyPress) -> (out: Vec<Intent>)
        ensures
            (final(self)@, intents(out@)) == spec_key_on_main(old(self)@, press),
    {
        let key = press.key;
        match key {
            Key::Tab => {
                self.screen = Screen::Menu;
                no_intent()
            },
            Key::Enter => {
                self.input_mode = InputMode::Editing;
                no_intent()
            },
            Key::Char(c) => {
                if c == 'q' || c == '\u{439}' {
                    one_intent(Intent::Quit)
                } else if c == 'r' || c == '\u{43a}' {
                    one_intent(Intent::FetchQueue)
                } else if c == 'l' || c == '\u{434}' {
                    let mode = self.loop_mode.next();
                    self.loop_mode = mode;
                    one_intent(Intent::Command(Command::Loop(mode)))
                } else if c == 's' || c == '\u{44b}' || c == '\u{456}' {
                    one_intent(Intent::Command(Command::Skip))
                } else if c == 'w' || c == '\u{446}' {
                    one_intent(Intent::Command(Command::Stop))
                } else if c == 'c' || c == '\u{441}' {
                    one_intent(Intent::Command(Command::Clear))
                } else if c == 'd' && press.ctrl {
                    self.screen = Screen::Debug;
                    no_intent()
                } else {
                    self.input_mode = InputMode::Editing;
                    push_char(&mut self.input, c);
                    no_intent()
                }
            },
            _ => no_intent(),
        }
    }

    fn key_on_debug(&mut self, key: Key) -> (out: Vec<Intent>)
        ensures
            (final(self)@, intents(out@)) == spec_key_on_debug(old(self)@, key),
    {
        if key_char_is(key, 's', '\u{44b}') {
            one_intent(Intent::SaveSpectrogram)
        } else {
            let leaves = match key {
                Key::Esc => true,
                _ => key_char_is(key, 'q', '\u{439}'),
            };
            if leaves {
                self.screen = self.home();
            }
            no_intent()
        }
    }

    /// Handles one key press and tells what the program is to start. The
    /// session afterwards and the intents are those of [`spec_key`]: a
    /// fatal error takes every key, then the search line while it is
    /// edited, then the screen shown.
    pub fn handle_key(&mut self, press: KeyPress) -> (out: Vec<Intent>)
        requires
            old(self)@.wf(),
        ensures
            final(self)@.wf(),
            (final(self)@, intents(out@)) == spec_key(old(self)@, press),
    {
        proof {
            lemma_key_frame(self@, press);
        }
        if self.fatal_error.is_some() {
            self.key_on_fatal(press.key)
        } else {
            match self.input_mode {
                InputMode::Editing => self.key_on_editing(press.key),
                InputMode::Normal => match self.screen {
                    Screen::Menu => self.key_on_menu(press.key),
                    Screen::Settings => self.key_on_settings(press.key),
                    Screen::AuthMenu => self.key_on_auth_menu(press.key),
                    Screen::AuthResult => self.key_on_auth_result(press.key),
                    Screen::LoginRequired => self.key_on_login(press.key),
                    Screen::FilterMenu => self.key_on_filter_menu(press.key),
                    Screen::Lyrics => self.key_on_lyrics(press.key),
                    Screen::Main => self.key_on_main(press),
                    Screen::Debug => self.key_on_debug(press.key),
                },
            }
        }
    }
}

} // verus!
