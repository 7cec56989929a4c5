//! The login flow: a local listener catches one redirect that carries the
//! credentials.
//!
//! The program around the library binds the listener, opens the browser and
//! waits at most [`CALLBACK_TIMEOUT_SECS`] for one connection. The library
//! builds the addresses, reads the request, decides whether it carries a
//! token, writes the answer, and records each outcome in the session.

use vstd::prelude::*;
use crate::api::{build_url, spec_build_url, Auth};
use crate::session::{Screen, SessionState, SessionView};
use crate::text::{
    char_is_whitespace, chars_of, concat2, concat3, decimal, is_white_space, opt_text,
    push_decimal, str_eq, string_of_range, trim, trimmed,
};
use crate::urls::{
    pairs_view, parse_url, url_append_pair, url_pairs, url_parse_text, url_query_pairs,
    url_string, url_with_pair,
};

verus! {

/// Seconds to wait for the redirect.
pub const CALLBACK_TIMEOUT_SECS: u64 = 120;

/// Bytes of the request that are read.
pub const REQUEST_BUFFER: usize = 8192;

/// `c` as it is written inside HTML: the four characters with a meaning of
/// their own become entities.
pub open spec fn escape_char(c: char) -> Seq<char> {
    if c == '&' {
        "&amp;"@
    } else if c == '<' {
        "&lt;"@
    } else if c == '>' {
        "&gt;"@
    } else if c == '"' {
        "&quot;"@
    } else {
        seq![c]
    }
}

/// `s` as it is written inside HTML.
pub open spec fn spec_escape_html(s: Seq<char>) -> Seq<char>
    decreases s.len(),
{
    if s.len() == 0 {
        Seq::empty()
    } else {
        spec_escape_html(s.drop_last()) + escape_char(s.last())
    }
}

/// Escapes a text for HTML: `&`, `<`, `>` and `"` become entities, every
/// other character stays.
pub fn escape_html(s: &str) -> (escaped: String)
    ensures
        escaped@ == spec_escape_html(s@),
{
    let v = chars_of(s);
    let mut escaped = String::new();
    let mut i: usize = 0;
    assert(v@.take(0) =~= Seq::empty());
    while i < v.len()
        invariant
            i <= v.len(),
            v@ == s@,
            escaped@ == spec_escape_html(v@.take(i as int)),
        decreases v.len() - i,
    {
        assert(v@.take(i + 1).drop_last() == v@.take(i as int));
        assert(v@.take(i + 1).last() == v@[i as int]);
        let c = v[i];
        if c == '&' {
            escaped.append("&amp;");
        } else if c == '<' {
            escaped.append("&lt;");
        } else if c == '>' {
            escaped.append("&gt;");
        } else if c == '"' {
            escaped.append("&quot;");
        } else {
            crate::text::push_char(&mut escaped, c);
        }
        i = i + 1;
    }
    assert(v@.take(v@.len() as int) == s@);
    escaped
}

/// The address that the redirect goes to, for the address the listener is
/// bound to.
pub open spec fn spec_callback_url(local_addr: Seq<char>) -> Seq<char> {
    "http://"@ + local_addr + "/oauth-callback"@
}

/// The address that the redirect goes to.
pub fn callback_url(local_addr: &str) -> (url: String)
    ensures
        url@ == spec_callback_url(local_addr@),
{
    concat3("http://", local_addr, "/oauth-callback")
}

/// The address that the browser is sent to: the server's `/authorize` with
/// the callback address appended to its query, or the message of the error
/// if the server's address is no URL.
pub open spec fn spec_authorize_url(base: Seq<char>, callback: Seq<char>) -> Result<
    Seq<char>,
    Seq<char>,
> {
    match url_parse_text(spec_build_url(base, "/authorize"@)) {
        Ok(text) => Ok(url_with_pair(text, "callback"@, callback)),
        Err(message) => Err(message),
    }
}

/// The address that the browser is sent to.
pub fn authorize_url(base_url: &str, callback: &str) -> (r: Result<String, String>)
    ensures
        crate::stream::url_result_view(r) == spec_authorize_url(base_url@, callback@),
{
    let target = build_url(base_url, "/authorize");
    match parse_url(target.as_str()) {
        Ok(url) => {
            let mut url = url;
            url_append_pair(&mut url, "callback", callback);
            Ok(url_string(&url))
        },
        Err(message) => Err(message),
    }
}

/// The index of the first line feed of `s` at or after `from`, or the
/// length of `s`.
pub open spec fn line_end(s: Seq<char>, from: int) -> int
    decreases s.len() - from,
{
    if from >= s.len() {
        s.len() as int
    } else if s[from] == '\n' {
        from
    } else {
        line_end(s, from + 1)
    }
}

/// The first line of `s`, without its line feed and without a carriage
/// return in front of the line feed.
pub open spec fn first_line(s: Seq<char>) -> Seq<char> {
    let end = line_end(s, 0);
    if end < s.len() && end > 0 && s[end - 1] == '\r' {
        s.subrange(0, end - 1)
    } else {
        s.subrange(0, end)
    }
}

/// The index at which the white space that starts at `from` ends.
pub open spec fn space_end(s: Seq<char>, from: int) -> int
    decreases s.len() - from,
{
    if from >= s.len() {
        s.len() as int
    } else if !is_white_space(s[from]) {
        from
    } else {
        space_end(s, from + 1)
    }
}

/// The index at which the word that starts at `from` ends.
pub open spec fn word_end(s: Seq<char>, from: int) -> int
    decreases s.len() - from,
{
    if from >= s.len() {
        s.len() as int
    } else if is_white_space(s[from]) {
        from
    } else {
        word_end(s, from + 1)
    }
}

/// The second word of `line`, words being separated by white space; empty
/// if the line has fewer than two words.
pub open spec fn second_word(line: Seq<char>) -> Seq<char> {
    let start = space_end(line, word_end(line, space_end(line, 0)));
    line.subrange(start, word_end(line, start))
}

/// The target of a request: the second word of its first line.
pub open spec fn spec_request_target(request: Seq<char>) -> Seq<char> {
    second_word(first_line(request))
}

fn skip_space(v: &Vec<char>, from: usize, len: usize) -> (end: usize)
    requires
        from <= len <= v.len(),
    ensures
        end == space_end(v@.subrange(0, len as int), from as int),
        from <= end <= len,
{
    let ghost s = v@.subrange(0, len as int);
    let mut i: usize = from;
    while i < len && char_is_whitespace(v[i])
        invariant
            from <= i <= len <= v.len(),
            s == v@.subrange(0, len as int),
            space_end(s, from as int) == space_end(s, i as int),
        decreases len - i,
    {
        i = i + 1;
    }
    i
}

fn skip_word(v: &Vec<char>, from: usize, len: usize) -> (end: usize)
    requires
        from <= len <= v.len(),
    ensures
        end == word_end(v@.subrange(0, len as int), from as int),
        from <= end <= len,
{
    let ghost s = v@.subrange(0, len as int);
    let mut i: usize = from;
    while i < len && !char_is_whitespace(v[i])
        invariant
            from <= i <= len <= v.len(),
            s == v@.subrange(0, len as int),
            word_end(s, from as int) == word_end(s, i as int),
        decreases len - i,
    {
        i = i + 1;
    }
    i
}

/// Reads the target out of a request: the second word of the first line,
/// or the empty text where there is none.
pub fn request_target(request: &str) -> (target: String)
    ensures
        target@ == spec_request_target(request@),
{
    let v = chars_of(request);
    let mut end: usize = 0;
    while end < v.len() && v[end] != '\n'
        invariant
            end <= v.len(),
            line_end(v@, 0) == line_end(v@, end as int),
        decreases v.len() - end,
    {
        end = end + 1;
    }
    let len: usize = if end < v.len() && end > 0 && v[end - 1] == '\r' {
        end - 1
    } else {
        end
    };
    let ghost line = v@.subrange(0, len as int);
    assert(line == first_line(request@));
    let first = skip_space(&v, 0, len);
    let after = skip_word(&v, first, len);
    let start = skip_space(&v, after, len);
    let stop = skip_word(&v, start, len);
    assert(line.subrange(start as int, stop as int) == v@.subrange(start as int, stop as int));
    string_of_range(&v, start, stop)
}

/// The value of the first pair of `pairs` whose key is `key`.
pub open spec fn spec_first_value(pairs: Seq<(Seq<char>, Seq<char>)>, key: Seq<char>) -> Option<
    Seq<char>,
>
    decreases pairs.len(),
{
    if pairs.len() == 0 {
        None
    } else if pairs[0].0 == key {
        Some(pairs[0].1)
    } else {
        spec_first_value(pairs.drop_first(), key)
    }
}

/// The value of the first pair whose key is `key`.
pub fn first_value(pairs: &Vec<(String, String)>, key: &str) -> (value: Option<String>)
    ensures
        opt_text(value) == spec_first_value(pairs_view(pairs@), key@),
{
    let mut i: usize = 0;
    assert(pairs_view(pairs@).subrange(0, pairs@.len() as int) == pairs_view(pairs@));
    while i < pairs.len()
        invariant
            i <= pairs.len(),
            spec_first_value(pairs_view(pairs@), key@) == spec_first_value(
                pairs_view(pairs@).subrange(i as int, pairs@.len() as int),
                key@,
            ),
        decreases pairs.len() - i,
    {
        let ghost rest = pairs_view(pairs@).subrange(i as int, pairs@.len() as int);
        assert(rest[0] == (pairs@[i as int].0@, pairs@[i as int].1@));
        if str_eq(pairs[i].0.as_str(), key) {
            return Some(pairs[i].1.clone());
        }
        assert(rest.drop_first() == pairs_view(pairs@).subrange(i + 1, pairs@.len() as int));
        i = i + 1;
    }
    None
}

/// What a redirect carries.
#[derive(Clone, Debug, PartialEq, Eq)]
pub struct CallbackParams {
    pub token: Option<String>,
    pub avatar: Option<String>,
    pub username: Option<String>,
}

/// The pairs of the query of a request target, read as the path and query
/// of an address on the local host; none if that is no URL.
pub open spec fn spec_callback_pairs(target: Seq<char>) -> Seq<(Seq<char>, Seq<char>)> {
    match url_parse_text("http://localhost"@ + target) {
        Ok(text) => url_query_pairs(text),
        Err(_) => Seq::empty(),
    }
}

/// Reads the credentials out of the target of a request: the first values
/// of `token`, `avatar` and `username` in its query.
pub fn callback_params(target: &str) -> (params: CallbackParams)
    ensures
        opt_text(params.token) == spec_first_value(spec_callback_pairs(target@), "token"@),
        opt_text(params.avatar) == spec_first_value(spec_callback_pairs(target@), "avatar"@),
        opt_text(params.username) == spec_first_value(spec_callback_pairs(target@), "username"@),
{
    let address = concat2("http://localhost", target);
    match parse_url(address.as_str()) {
        Ok(url) => {
            let pairs = url_pairs(&url);
            CallbackParams {
                token: first_value(&pairs, "token"),
                avatar: first_value(&pairs, "avatar"),
                username: first_value(&pairs, "username"),
            }
        },
        Err(_) => CallbackParams { token: None, avatar: None, username: None },
    }
}

/// What is made of a redirect.
#[derive(Clone, Debug, PartialEq, Eq)]
pub enum CallbackVerdict {
    /// It carries a token: these credentials are to be saved.
    Accepted(Auth),
    /// It carries no token.
    MissingToken,
    /// Its token is empty or white space.
    EmptyToken,
}

/// Decides on a redirect: without a token it is refused, with a blank
/// token too, and with any other token the credentials are accepted, the
/// token without the white space around it.
pub fn judge_callback(params: CallbackParams) -> (verdict: CallbackVerdict)
    ensures
        match params.token {
            None => verdict is MissingToken,
            Some(token) => if trimmed(token@).len() == 0 {
                verdict is EmptyToken
            } else {
                verdict matches CallbackVerdict::Accepted(auth) && auth.token@ == trimmed(token@)
                    && auth.avatar_url == params.avatar && auth.username == params.username
            },
        },
{
    match params.token {
        None => CallbackVerdict::MissingToken,
        Some(token) => {
            let token = trim(token.as_str());
            if token.as_str().unicode_len() == 0 {
                CallbackVerdict::EmptyToken
            } else {
                CallbackVerdict::Accepted(
                    Auth { token, avatar_url: params.avatar, username: params.username },
                )
            }
        },
    }
}

/// The answer that refuses a request, with `body` as its text.
pub open spec fn spec_bad_request(body: &str) -> Seq<char> {
    "HTTP/1.1 400 Bad Request\r\nContent-Length: "@ + decimal(body.len() as nat) + "\r\n\r\n"@
        + body@
}

/// The answer that refuses a request: status 400 with `body` as plain text.
pub fn bad_request(body: &str) -> (response: String)
    ensures
        response@ == spec_bad_request(body),
{
    let mut response = "HTTP/1.1 400 Bad Request\r\nContent-Length: ".to_string();
    push_decimal(&mut response, body.len() as u64);
    response.append("\r\n\r\n");
    response.append(body);
    response
}

/// The text that tells why a redirect is refused.
pub fn refusal_text(verdict: &CallbackVerdict) -> (text: &'static str)
    ensures
        text@ == match verdict {
            CallbackVerdict::EmptyToken => "Missing token"@,
            _ => "No token in callback"@,
        },
{
    match verdict {
        CallbackVerdict::EmptyToken => "Missing token",
        _ => "No token in callback",
    }
}

/// The answer that carries the confirmation page `body`.
pub open spec fn spec_page_response(body: &str) -> Seq<char> {
    "HTTP/1.1 200 OK\r\nContent-Type: text/html; charset=utf-8\r\nContent-Length: "@ + decimal(
        body.len() as nat,
    ) + "\r\nConnection: close\r\n\r\n"@ + body@
}

/// The answer that carries the confirmation page: status 200 with `body`
/// as HTML.
pub fn page_response(body: &str) -> (response: String)
    ensures
        response@ == spec_page_response(body),
{
    let mut response =
        "HTTP/1.1 200 OK\r\nContent-Type: text/html; charset=utf-8\r\nContent-Length: ".to_string();
    push_decimal(&mut response, body.len() as u64);
    response.append("\r\nConnection: close\r\n\r\n");
    response.append(body);
    response
}

/// The confirmation page up to the picture of the user.
pub const PAGE_HEAD: &'static str =
    "<!doctype html><html><head><meta charset=\"utf-8\"/><meta name=\"viewport\" content=\"width=device-width,initial-scale=1\"/><title>Authorization complete</title><style>body{font-family:-apple-system,BlinkMacSystemFont,\"Segoe UI\",Roboto,\"Helvetica Neue\",Arial, sans-serif;background:#2f3136;color:#dcddde;margin:0;padding:0;display:flex;align-items:center;justify-content:center;height:100vh}.container{max-width:560px;width:100%;padding:28px;background:#36393f;border-radius:12px;box-shadow:0 6px 20px rgba(0,0,0,0.6)}.header{display:flex;align-items:center;gap:16px;margin-bottom:18px}.badge{width:56px;height:56px;display:flex;align-items:center;justify-content:center;border-radius:50%;background:#2f3136}.check{width:34px;height:34px;border-radius:50%;background:#43b581;color:#fff;display:flex;align-items:center;justify-content:center;font-weight:700;font-size:16px}.avatar{width:56px;height:56px;border-radius:50%;object-fit:cover;border:2px solid rgba(0,0,0,0.4)}.user{font-size:16px;font-weight:600;margin:0;color:#fff}.sp{color:#b9bbbe;font-size:13px;margin-top:4px}.path{display:inline-block;background:#2f3136;padding:6px 8px;border-radius:6px;color:#b9bbbe;font-family:monospace;margin-top:8px}</style></head><body><div class=\"container\"><div class=\"header\">";

/// The badge shown where the user has no picture.
pub const PAGE_BADGE: &'static str = "<div class=\"badge\"><div class=\"check\">\u{2713}</div></div>";

/// The confirmation page after the name of the user and the place the
/// credentials were saved to.
pub const PAGE_TAIL: &'static str =
    "</div></div><div><p class=\"sp\">Token saved to your config. You may close this window.</p></div><script src=\"https://cdn.jsdelivr.net/npm/canvas-confetti@1.6.0/dist/confetti.browser.min.js\"></script><script>\n  const duration = 15 * 1000,\n    animationEnd = Date.now() + duration,\n    defaults = { startVelocity: 30, spread: 360, ticks: 60, zIndex: 0 };\n\n  function randomInRange(min, max) {\n    return Math.random() * (max - min) + min;\n  }\n\n  const interval = setInterval(function() {\n    const timeLeft = animationEnd - Date.now();\n\n    if (timeLeft <= 0) {\n      return clearInterval(interval);\n    }\n\n    const particleCount = 50 * (timeLeft / duration);\n\n    confetti(\n      Object.assign({}, defaults, {\n        particleCount,\n        origin: { x: randomInRange(0.1, 0.3), y: Math.random() - 0.2 },\n      })\n    );\n    confetti(\n      Object.assign({}, defaults, {\n        particleCount,\n        origin: { x: randomInRange(0.7, 0.9), y: Math.random() - 0.2 },\n      })\n    );\n  }, 250);\n</script></div></body></html>";

/// The picture of the user on the confirmation page.
pub open spec fn page_picture(avatar: Option<Seq<char>>) -> Seq<char> {
    match avatar {
        Some(address) => "<img class=\"avatar\" src=\""@ + spec_escape_html(address)
            + "\" alt=\"avatar\"/>"@,
        None => PAGE_BADGE@,
    }
}

/// The note on the confirmation page that tells where the credentials were
/// saved.
pub open spec fn page_saved_note(saved_path: Option<Seq<char>>) -> Seq<char> {
    match saved_path {
        Some(path) => "<p>Saved to <code>"@ + spec_escape_html(path) + "</code></p>"@,
        None => Seq::empty(),
    }
}

/// The confirmation page for a user: the picture or a badge, the name or
/// `User`, and where the credentials were saved. Everything that comes
/// from outside is escaped.
pub open spec fn spec_success_page(
    username: Option<Seq<char>>,
    avatar: Option<Seq<char>>,
    saved_path: Option<Seq<char>>,
) -> Seq<char> {
    PAGE_HEAD@ + page_picture(avatar) + "<div><div class=\"user\">"@ + (match username {
        Some(name) => spec_escape_html(name),
        None => "User"@,
    }) + "</div><div class=\"sp\">Authorization complete</div>"@ + page_saved_note(saved_path)
        + PAGE_TAIL@
}

/// The view of an optional string slice.
pub open spec fn opt_str(o: Option<&str>) -> Option<Seq<char>> {
    match o {
        Some(s) => Some(s@),
        None => None,
    }
}

/// Builds the confirmation page.
pub fn success_page(username: Option<&str>, avatar: Option<&str>, saved_path: Option<&str>) -> (page:
    String)
    ensures
        page@ == spec_success_page(opt_str(username), opt_str(avatar), opt_str(saved_path)),
{
    let mut page = PAGE_HEAD.to_string();
    match avatar {
        Some(address) => {
            let picture = concat3(
                "<img class=\"avatar\" src=\"",
                escape_html(address).as_str(),
                "\" alt=\"avatar\"/>",
            );
            page.append(picture.as_str());
        },
        None => {
            page.append(PAGE_BADGE);
        },
    }
    page.append("<div><div class=\"user\">");
    match username {
        Some(name) => {
            page.append(escape_html(name).as_str());
        },
        None => {
            page.append("User");
        },
    }
    page.append("</div><div class=\"sp\">Authorization complete</div>");
    match saved_path {
        Some(path) => {
            let note = concat3("<p>Saved to <code>", escape_html(path).as_str(), "</code></p>");
            page.append(note.as_str());
        },
        None => {
            assert(page@ + Seq::<char>::empty() == page@);
        },
    }
    page.append(PAGE_TAIL);
    page
}

/// Why a login did not succeed.
#[derive(Clone, Debug, PartialEq, Eq)]
pub enum LoginFailure {
    /// The listener could not be bound.
    Bind(String),
    /// The address of the listener could not be read.
    LocalAddr(String),
    /// The address of the server is no URL.
    BaseUrl(String),
    /// No redirect arrived in time.
    TimedOut,
    /// The request could not be read.
    Read(String),
    /// The redirect carried no token.
    MissingToken,
    /// The redirect carried a blank token.
    EmptyToken,
    /// The credentials could not be saved.
    Save(String),
}

/// The words that tell the user why a login did not succeed.
pub open spec fn failure_text(failure: LoginFailure) -> Seq<char> {
    match failure {
        LoginFailure::Bind(e) => "Failed to bind listener: "@ + e@,
        LoginFailure::LocalAddr(e) => "Failed to get local addr: "@ + e@,
        LoginFailure::BaseUrl(e) => "Invalid base URL: "@ + e@,
        LoginFailure::TimedOut => "Login timed out."@,
        LoginFailure::Read(e) => "Error reading callback: "@ + e@,
        LoginFailure::MissingToken => "Login failed: Missing token in callback."@,
        LoginFailure::EmptyToken => "No token provided in callback."@,
        LoginFailure::Save(e) => "Failed to save token: "@ + e@,
    }
}

/// The session when a login starts: busy, and on the account screen unless
/// the login screen is shown.
pub open spec fn spec_login_begun(s: SessionView) -> SessionView {
    SessionView {
        is_loading: true,
        auth_info_text: Some("Initializing login..."@),
        screen: if s.screen == Screen::LoginRequired {
            s.screen
        } else {
            Screen::AuthResult
        },
        ..s
    }
}

/// The session after a login failed: no longer busy, with the reason shown
/// and nothing else changed. No credential is kept.
pub open spec fn spec_login_failed(s: SessionView, failure: LoginFailure) -> SessionView {
    SessionView { is_loading: false, auth_info_text: Some(failure_text(failure)), ..s }
}

/// The session after a login succeeded.
pub open spec fn spec_login_succeeded(
    s: SessionView,
    token: Seq<char>,
    username: Option<Seq<char>>,
) -> SessionView {
    SessionView {
        is_loading: false,
        token: Some(token),
        auth_info_text: Some(
            "Login Successful!\n\nUser: "@ + (match username {
                Some(name) => name,
                None => Seq::empty(),
            }) + "\nToken saved."@,
        ),
        ..s
    }
}

/// The session when a sign-out starts.
pub open spec fn spec_signout_begun(s: SessionView) -> SessionView {
    SessionView {
        is_loading: true,
        screen: Screen::AuthResult,
        auth_info_text: Some("Signing out..."@),
        ..s
    }
}

/// The session after a sign-out: without a token, on the login screen.
pub open spec fn spec_signed_out(s: SessionView) -> SessionView {
    SessionView {
        is_loading: false,
        token: None,
        auth_info_text: None,
        screen: Screen::LoginRequired,
        ..s
    }
}

/// A token as it is shown: one of more than eight characters keeps its
/// first four and its last four, with three dots between them.
pub open spec fn spec_masked(token: Seq<char>) -> Seq<char> {
    if token.len() > 8 {
        token.take(4) + "..."@ + token.skip(token.len() - 4)
    } else {
        token
    }
}

/// Hides the middle of a token of more than eight characters.
pub fn mask_token(token: &str) -> (masked: String)
    ensures
        masked@ == spec_masked(token@),
{
    let v = chars_of(token);
    if v.len() > 8 {
        let head = string_of_range(&v, 0, 4);
        let tail = string_of_range(&v, v.len() - 4, v.len());
        concat3(head.as_str(), "...", tail.as_str())
    } else {
        token.to_string()
    }
}

/// The words that show the saved credentials, with the file they are kept
/// in; or that there are none.
pub open spec fn spec_auth_info(auth: Option<Auth>, path: Option<Seq<char>>) -> Seq<char> {
    match auth {
        Some(a) => (match path {
            Some(p) => "Auth file: "@ + p + "\n"@,
            None => Seq::empty(),
        }) + "User: "@ + (match a.username {
            Some(name) => name@,
            None => "Unknown"@,
        }) + "\n"@ + (match a.avatar_url {
            Some(address) => "Avatar: "@ + address@ + "\n"@,
            None => "Avatar: (none)\n"@,
        }) + "Token: "@ + spec_masked(a.token@),
        None => "Not authenticated. Run Login."@,
    }
}

/// A failed login keeps the session free of credentials it did not have:
/// the token is the one from before, whatever the failure.
pub proof fn lemma_failed_login_keeps_token(s: SessionView, failure: LoginFailure)
    ensures
        spec_login_failed(spec_login_begun(s), failure).token == s.token,
        !spec_login_failed(spec_login_begun(s), failure).is_loading,
        spec_login_failed(spec_login_begun(s), failure).auth_info_text == Some(
            failure_text(failure),
        ),
{
}

impl SessionState {
    /// Marks the start of a login and tells whether the login screen is
    /// shown.
    pub fn begin_login(&mut self) -> (on_login_screen: bool)
        ensures
            final(self)@ == spec_login_begun(old(self)@),
            on_login_screen == (old(self)@.screen == Screen::LoginRequired),
    {
        self.is_loading = true;
        self.auth_info_text = Some("Initializing login...".to_string());
        match self.screen {
            Screen::LoginRequired => true,
            _ => {
                self.screen = Screen::AuthResult;
                false
            },
        }
    }

    /// Shows the address that the browser is sent to.
    pub fn login_opening(&mut self, address: &str)
        ensures
            final(self)@ == (SessionView {
                auth_info_text: Some(
                    "Opening browser...\n\nIf it doesn't open, visit:\n"@ + address@,
                ),
                ..old(self)@
            }),
    {
        self.auth_info_text = Some(
            concat2("Opening browser...\n\nIf it doesn't open, visit:\n", address),
        );
    }

    /// Records that the login failed.
    pub fn login_failed(&mut self, failure: LoginFailure)
        ensures
            final(self)@ == spec_login_failed(old(self)@, failure),
    {
        self.is_loading = false;
        let text = match &failure {
            LoginFailure::Bind(e) => concat2("Failed to bind listener: ", e.as_str()),
            LoginFailure::LocalAddr(e) => concat2("Failed to get local addr: ", e.as_str()),
            LoginFailure::BaseUrl(e) => concat2("Invalid base URL: ", e.as_str()),
            LoginFailure::TimedOut => "Login timed out.".to_string(),
            LoginFailure::Read(e) => concat2("Error reading callback: ", e.as_str()),
            LoginFailure::MissingToken => "Login failed: Missing token in callback.".to_string(),
            LoginFailure::EmptyToken => "No token provided in callback.".to_string(),
            LoginFailure::Save(e) => concat2("Failed to save token: ", e.as_str()),
        };
        self.auth_info_text = Some(text);
    }

    /// Records that the login succeeded with `token`.
    pub fn login_succeeded(&mut self, token: String, username: Option<&str>)
        ensures
            final(self)@ == spec_login_succeeded(old(self)@, token@, opt_str(username)),
    {
        self.is_loading = false;
        let name = match username {
            Some(name) => name,
            None => "",
        };
        assert(""@ =~= Seq::<char>::empty()) by {
            reveal_strlit("");
        }
        self.auth_info_text = Some(concat3("Login Successful!\n\nUser: ", name, "\nToken saved."));
        self.token = Some(token);
    }

    /// Leaves the login screen for the main screen after a login, if the
    /// login was started there.
    pub fn finish_login(&mut self, on_login_screen: bool)
        ensures
            final(self)@ == (SessionView {
                screen: if on_login_screen {
                    Screen::Main
                } else {
                    old(self)@.screen
                },
                ..old(self)@
            }),
    {
        if on_login_screen {
            self.screen = Screen::Main;
        }
    }

    /// Marks the start of a sign-out.
    pub fn begin_signout(&mut self)
        ensures
            final(self)@ == spec_signout_begun(old(self)@),
    {
        self.is_loading = true;
        self.screen = Screen::AuthResult;
        self.auth_info_text = Some("Signing out...".to_string());
    }

    /// Records the sign-out: the token is dropped and the login screen is
    /// shown.
    pub fn finish_signout(&mut self)
        ensures
            final(self)@ == spec_signed_out(old(self)@),
    {
        self.is_loading = false;
        self.token = None;
        self.auth_info_text = None;
        self.screen = Screen::LoginRequired;
    }

    /// Shows the saved credentials on the account screen.
    pub fn show_auth_info(&mut self, auth: Option<Auth>, path: Option<&str>)
        ensures
            final(self)@ == (SessionView {
                auth_info_text: Some(spec_auth_info(auth, opt_str(path))),
                screen: Screen::AuthResult,
                ..old(self)@
            }),
    {
        let text = match &auth {
            Some(a) => {
                let mut text = String::new();
                match path {
                    Some(p) => {
                        text.append("Auth file: ");
                        text.append(p);
                        text.append("\n");
                        assert(text@ == "Auth file: "@ + p@ + "\n"@);
                    },
                    None => {},
                }
                text.append("User: ");
                match &a.username {
                    Some(name) => {
                        text.append(name.as_str());
                    },
                    None => {
                        text.append("Unknown");
                    },
                }
                text.append("\n");
                match &a.avatar_url {
                    Some(address) => {
                        text.append("Avatar: ");
                        text.append(address.as_str());
                        text.append("\n");
                    },
                    None => {
                        text.append("Avatar: (none)\n");
                    },
                }
                text.append("Token: ");
                text.append(mask_token(a.token.as_str()).as_str());
                text
            },
            None => "Not authenticated. Run Login.".to_string(),
        };
        self.auth_info_text = Some(text);
        self.screen = Screen::AuthResult;
    }

    /// The address at which the token is revoked.
    pub fn revoke_url(&self) -> (url: String)
        ensures
            url@ == spec_build_url(self@.base_url, "/webhook/auth/revoke"@),
    {
        build_url(self.base_url.as_str(), "/webhook/auth/revoke")
    }
}

} // verus!
