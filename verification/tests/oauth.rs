use jorik_cli::api::Auth;
use jorik_cli::oauth::{
    authorize_url, bad_request, callback_params, callback_url, escape_html, first_value,
    judge_callback, mask_token, page_response, refusal_text, request_target, success_page,
    CallbackParams, CallbackVerdict, LoginFailure, CALLBACK_TIMEOUT_SECS, REQUEST_BUFFER,
};
use jorik_cli::session::{Screen, SessionState};

fn oauth_session(token: Option<&str>) -> SessionState {
    SessionState::new("https://host/".to_string(), 0, token.map(|t| t.to_string()), None, None, 0)
}

#[test]
fn escape_html_replaces_the_four_characters() {
    assert_eq!(escape_html("a<b>&\"c\""), "a&lt;b&gt;&amp;&quot;c&quot;");
    assert_eq!(escape_html("&amp;"), "&amp;amp;");
    assert_eq!(escape_html("plain 'text'"), "plain 'text'");
    assert_eq!(escape_html(""), "");
    for s in ["<script>alert(\"x\")</script>", "a & b", "&lt;", "\u{44b}<"] {
        let expected = s.replace('&', "&amp;").replace('<', "&lt;").replace('>', "&gt;").replace('"', "&quot;");
        assert_eq!(escape_html(s), expected);
    }
}

#[test]
fn addresses_of_the_flow() {
    assert_eq!(callback_url("127.0.0.1:4711"), "http://127.0.0.1:4711/oauth-callback");
    assert_eq!(
        authorize_url("https://host/", "http://127.0.0.1:4711/oauth-callback"),
        Ok("https://host/authorize?callback=http%3A%2F%2F127.0.0.1%3A4711%2Foauth-callback".to_string())
    );
    assert_eq!(
        authorize_url("http://host:8080", "cb"),
        Ok("http://host:8080/authorize?callback=cb".to_string())
    );
    assert_eq!(authorize_url("nonsense", "cb"), Err("relative URL without a base".to_string()));
    assert_eq!(CALLBACK_TIMEOUT_SECS, 120);
    assert_eq!(REQUEST_BUFFER, 8192);
}

#[test]
fn request_target_is_the_second_word_of_the_first_line() {
    assert_eq!(
        request_target("GET /oauth-callback?token=abc HTTP/1.1\r\nHost: localhost\r\n\r\n"),
        "/oauth-callback?token=abc"
    );
    assert_eq!(request_target("GET /x HTTP/1.1\nrest /y"), "/x");
    assert_eq!(request_target("GET   /x\r\n"), "/x");
    assert_eq!(request_target("  GET\t/x  "), "/x");
    assert_eq!(request_target("GET"), "");
    assert_eq!(request_target("GET\r\n/x HTTP/1.1"), "");
    assert_eq!(request_target(""), "");
    assert_eq!(request_target("\n GET /x"), "");
    assert_eq!(request_target("a b\rc"), "b");
    for request in ["GET /a?b=c HTTP/1.1\r\n", "x", "x y", " x  y z\n", "\r\n", "a\u{a0}b c", "a b\r"] {
        let first_line = request.lines().next().unwrap_or("");
        let expected = first_line.split_whitespace().nth(1).unwrap_or("");
        assert_eq!(request_target(request), expected, "for {:?}", request);
    }
}

#[test]
fn credentials_are_read_from_the_query() {
    let p = callback_params("/oauth-callback?token=abc&avatar=https%3A%2F%2Fa%2Fb.png&username=J%C3%B6rg+M");
    assert_eq!(p.token.as_deref(), Some("abc"));
    assert_eq!(p.avatar.as_deref(), Some("https://a/b.png"));
    assert_eq!(p.username.as_deref(), Some("J\u{f6}rg M"));
    let p = callback_params("/oauth-callback?username=u&token=first&token=second");
    assert_eq!((p.token.as_deref(), p.avatar.as_deref(), p.username.as_deref()), (Some("first"), None, Some("u")));
    let p = callback_params("/oauth-callback");
    assert_eq!(p, CallbackParams { token: None, avatar: None, username: None });
    let p = callback_params("");
    assert_eq!(p, CallbackParams { token: None, avatar: None, username: None });
    let p = callback_params(":99999/?token=abc");
    assert_eq!(p, CallbackParams { token: None, avatar: None, username: None });
    let p = callback_params("/?Token=abc&token=");
    assert_eq!(p.token.as_deref(), Some(""));
}

#[test]
fn first_value_takes_the_first_pair_with_the_key() {
    let pairs = vec![
        ("a".to_string(), "1".to_string()),
        ("b".to_string(), "2".to_string()),
        ("a".to_string(), "3".to_string()),
    ];
    assert_eq!(first_value(&pairs, "a").as_deref(), Some("1"));
    assert_eq!(first_value(&pairs, "b").as_deref(), Some("2"));
    assert_eq!(first_value(&pairs, "c"), None);
    assert_eq!(first_value(&Vec::new(), "a"), None);
}

#[test]
fn redirect_without_token_is_refused() {
    let none = CallbackParams { token: None, avatar: Some("a".to_string()), username: None };
    let verdict = judge_callback(none);
    assert_eq!(verdict, CallbackVerdict::MissingToken);
    assert_eq!(refusal_text(&verdict), "No token in callback");
    let blank = CallbackParams { token: Some(" \t".to_string()), avatar: None, username: None };
    let verdict = judge_callback(blank);
    assert_eq!(verdict, CallbackVerdict::EmptyToken);
    assert_eq!(refusal_text(&verdict), "Missing token");
    let good = CallbackParams {
        token: Some(" abc \n".to_string()),
        avatar: Some("pic".to_string()),
        username: Some("me".to_string()),
    };
    assert_eq!(
        judge_callback(good),
        CallbackVerdict::Accepted(Auth {
            token: "abc".to_string(),
            avatar_url: Some("pic".to_string()),
            username: Some("me".to_string()),
        })
    );
}

#[test]
fn answers_to_the_browser() {
    assert_eq!(
        bad_request("Missing token"),
        "HTTP/1.1 400 Bad Request\r\nContent-Length: 13\r\n\r\nMissing token"
    );
    assert_eq!(
        bad_request("No token in callback"),
        "HTTP/1.1 400 Bad Request\r\nContent-Length: 20\r\n\r\nNo token in callback"
    );
    assert_eq!(bad_request(""), "HTTP/1.1 400 Bad Request\r\nContent-Length: 0\r\n\r\n");
    // the length counts bytes
    assert_eq!(
        page_response("<p>\u{2713}</p>"),
        "HTTP/1.1 200 OK\r\nContent-Type: text/html; charset=utf-8\r\nContent-Length: 10\r\nConnection: close\r\n\r\n<p>\u{2713}</p>"
    );
}

#[test]
fn confirmation_page_escapes_what_comes_from_outside() {
    let page = success_page(Some("<me>"), Some("http://a/b.png?x=\"1\"&y"), Some("/home/u/.config/a&b/auth.json"));
    assert!(page.starts_with("<!doctype html><html><head>"));
    assert!(page.ends_with("</script></div></body></html>"));
    assert!(page.contains("<img class=\"avatar\" src=\"http://a/b.png?x=&quot;1&quot;&amp;y\" alt=\"avatar\"/>"));
    assert!(page.contains("<div><div class=\"user\">&lt;me&gt;</div><div class=\"sp\">Authorization complete</div><p>Saved to <code>/home/u/.config/a&amp;b/auth.json</code></p></div></div>"));
    assert!(!page.contains("<me>"));
    assert!(!page.contains("class=\"badge\"><div class=\"check\">"));
    let bare = success_page(None, None, None);
    assert!(bare.contains("<div class=\"header\"><div class=\"badge\"><div class=\"check\">\u{2713}</div></div><div><div class=\"user\">User</div><div class=\"sp\">Authorization complete</div></div></div>"));
    assert!(!bare.contains("<img"));
    assert!(!bare.contains("Saved to"));
    assert!(bare.contains("confetti.browser.min.js"));
}

#[test]
fn tokens_are_shown_masked() {
    assert_eq!(mask_token("abcdefghijkl"), "abcd...ijkl");
    assert_eq!(mask_token("abcdefghi"), "abcd...fghi");
    assert_eq!(mask_token("abcdefgh"), "abcdefgh");
    assert_eq!(mask_token(""), "");
}

#[test]
fn timeout_fails_the_flow_and_keeps_no_credential() {
    let mut s = oauth_session(None);
    assert!(s.begin_login());
    assert!(s.is_loading);
    assert_eq!(s.auth_info_text.as_deref(), Some("Initializing login..."));
    assert_eq!(s.screen, Screen::LoginRequired);
    s.login_opening("https://host/authorize?callback=cb");
    assert_eq!(
        s.auth_info_text.as_deref(),
        Some("Opening browser...\n\nIf it doesn't open, visit:\nhttps://host/authorize?callback=cb")
    );
    s.login_failed(LoginFailure::TimedOut);
    assert!(!s.is_loading);
    assert_eq!(s.auth_info_text.as_deref(), Some("Login timed out."));
    assert!(s.token.is_none());
    assert_eq!(s.screen, Screen::LoginRequired);
}

#[test]
fn every_failure_has_its_words() {
    let cases = vec![
        (LoginFailure::Bind("in use".to_string()), "Failed to bind listener: in use"),
        (LoginFailure::LocalAddr("gone".to_string()), "Failed to get local addr: gone"),
        (LoginFailure::BaseUrl("empty host".to_string()), "Invalid base URL: empty host"),
        (LoginFailure::TimedOut, "Login timed out."),
        (LoginFailure::Read("reset".to_string()), "Error reading callback: reset"),
        (LoginFailure::MissingToken, "Login failed: Missing token in callback."),
        (LoginFailure::EmptyToken, "No token provided in callback."),
        (LoginFailure::Save("denied".to_string()), "Failed to save token: denied"),
    ];
    for (failure, words) in cases {
        let mut s = oauth_session(Some("old"));
        s.screen = Screen::AuthMenu;
        assert!(!s.begin_login());
        assert_eq!(s.screen, Screen::AuthResult);
        s.login_failed(failure);
        assert_eq!(s.auth_info_text.as_deref(), Some(words));
        assert_eq!(s.token.as_deref(), Some("old"));
        assert!(!s.is_loading);
    }
}

#[test]
fn successful_login_stores_the_token() {
    let mut s = oauth_session(None);
    let on_login_screen = s.begin_login();
    s.login_succeeded("abc".to_string(), Some("me"));
    assert_eq!(s.token.as_deref(), Some("abc"));
    assert!(!s.is_loading);
    assert_eq!(s.auth_info_text.as_deref(), Some("Login Successful!\n\nUser: me\nToken saved."));
    assert_eq!(s.screen, Screen::LoginRequired);
    s.finish_login(on_login_screen);
    assert_eq!(s.screen, Screen::Main);
    let mut s = oauth_session(Some("old"));
    s.screen = Screen::AuthMenu;
    let on_login_screen = s.begin_login();
    s.login_succeeded("new".to_string(), None);
    assert_eq!(s.auth_info_text.as_deref(), Some("Login Successful!\n\nUser: \nToken saved."));
    s.finish_login(on_login_screen);
    assert_eq!(s.screen, Screen::AuthResult);
    assert_eq!(s.token.as_deref(), Some("new"));
}

#[test]
fn sign_out_drops_the_token() {
    let mut s = oauth_session(Some("tok"));
    assert_eq!(s.revoke_url(), "https://host/webhook/auth/revoke");
    s.begin_signout();
    assert!(s.is_loading);
    assert_eq!(s.screen, Screen::AuthResult);
    assert_eq!(s.auth_info_text.as_deref(), Some("Signing out..."));
    s.finish_signout();
    assert!(!s.is_loading && s.token.is_none() && s.auth_info_text.is_none());
    assert_eq!(s.screen, Screen::LoginRequired);
}

#[test]
fn saved_credentials_are_shown() {
    let mut s = oauth_session(Some("tok"));
    let auth = Auth {
        token: "0123456789".to_string(),
        avatar_url: Some("http://a/p.png".to_string()),
        username: Some("me".to_string()),
    };
    s.show_auth_info(Some(auth), Some("/cfg/auth.json"));
    assert_eq!(
        s.auth_info_text.as_deref(),
        Some("Auth file: /cfg/auth.json\nUser: me\nAvatar: http://a/p.png\nToken: 0123...6789")
    );
    assert_eq!(s.screen, Screen::AuthResult);
    let auth = Auth { token: "short".to_string(), avatar_url: None, username: None };
    s.show_auth_info(Some(auth), None);
    assert_eq!(s.auth_info_text.as_deref(), Some("User: Unknown\nAvatar: (none)\nToken: short"));
    s.screen = Screen::AuthMenu;
    s.show_auth_info(None, Some("/cfg/auth.json"));
    assert_eq!(s.auth_info_text.as_deref(), Some("Not authenticated. Run Login."));
    assert_eq!(s.screen, Screen::AuthResult);
}
