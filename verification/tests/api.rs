use jorik_cli::api::{
    build_url, clean_query, default_offset, default_settings, drop_pairs_named, load_settings,
    load_token, Auth, Settings, WsSubscribe,
};

#[test]
fn build_url_joins_base_and_path() {
    assert_eq!(build_url("https://host", "/health"), "https://host/health");
    assert_eq!(build_url("https://host/", "/health"), "https://host/health");
    assert_eq!(build_url("https://host///", "/webhook/audio"), "https://host/webhook/audio");
    assert_eq!(build_url("", "/x"), "/x");
    assert_eq!(build_url("https://host/api", ""), "https://host/api");
}

#[test]
fn clean_query_removes_the_share_marker() {
    assert_eq!(
        clean_query("https://open.spotify.com/track/abc?si=123"),
        "https://open.spotify.com/track/abc"
    );
    assert_eq!(
        clean_query("https://www.youtube.com/watch?v=abc&si=xyz"),
        "https://www.youtube.com/watch?v=abc"
    );
    assert_eq!(
        clean_query("https://www.youtube.com/watch?si=xyz&v=abc&t=5"),
        "https://www.youtube.com/watch?v=abc&t=5"
    );
    assert_eq!(clean_query("https://youtu.be/abc?si=1&si=2"), "https://youtu.be/abc");
    assert_eq!(clean_query("https://youtu.be/abc?si=1#top"), "https://youtu.be/abc#top");
}

#[test]
fn clean_query_writes_the_kept_pairs_anew() {
    assert_eq!(clean_query("https://x.y/?q=a b&si=1"), "https://x.y/?q=a+b");
    assert_eq!(clean_query("https://x.y/p?a=1&b=2"), "https://x.y/p?a=1&b=2");
}

#[test]
fn clean_query_leaves_other_texts_alone() {
    assert_eq!(clean_query("never gonna give you up"), "never gonna give you up");
    assert_eq!(clean_query(""), "");
    assert_eq!(clean_query("what is si=1?"), "what is si=1?");
    // a URL without a query is returned as it was typed
    assert_eq!(clean_query("https://youtu.be"), "https://youtu.be");
    assert_eq!(
        clean_query("https://open.spotify.com/track/2RQWB4Asy1rjZL4IUcJ7kn"),
        "https://open.spotify.com/track/2RQWB4Asy1rjZL4IUcJ7kn"
    );
    // a URL that cannot be a base keeps its query
    assert_eq!(clean_query("mailto:a@b.c?si=1"), "mailto:a@b.c?si=1");
}

#[test]
fn drop_pairs_named_keeps_the_order_of_the_rest() {
    let pairs = vec![
        ("si".to_string(), "1".to_string()),
        ("v".to_string(), "abc".to_string()),
        ("si".to_string(), "2".to_string()),
        ("t".to_string(), "5".to_string()),
        ("SI".to_string(), "3".to_string()),
    ];
    assert_eq!(
        drop_pairs_named(pairs, "si"),
        vec![
            ("v".to_string(), "abc".to_string()),
            ("t".to_string(), "5".to_string()),
            ("SI".to_string(), "3".to_string()),
        ]
    );
    assert!(drop_pairs_named(Vec::new(), "si").is_empty());
    assert!(drop_pairs_named(vec![("si".to_string(), String::new())], "si").is_empty());
}

#[test]
fn load_token_takes_the_token_of_the_credentials() {
    let auth = Auth { token: "abc".to_string(), avatar_url: None, username: Some("u".to_string()) };
    assert_eq!(load_token(Some(auth)), Some("abc".to_string()));
    assert_eq!(load_token(None), None);
}

#[test]
fn credentials_are_saved_with_a_trimmed_token() {
    let auth = Auth::new("  tok \n", Some("http://a/b.png".to_string()), None);
    assert_eq!(auth.token, "tok");
    assert_eq!(auth.avatar_url.as_deref(), Some("http://a/b.png"));
    assert_eq!(auth.username, None);
}

#[test]
fn settings_default_to_the_public_server() {
    assert_eq!(default_offset(), 200);
    let d = default_settings();
    assert_eq!(d.base_url, "https://jorik.xserv.pp.ua");
    assert_eq!(d.visualizer_offset, 200);
    let kept = load_settings(Some(Settings { base_url: "http://h".to_string(), visualizer_offset: -5 }));
    assert_eq!(kept.base_url, "http://h");
    assert_eq!(kept.visualizer_offset, -5);
    let fallback = load_settings(None);
    assert_eq!(fallback.base_url, "https://jorik.xserv.pp.ua");
    assert_eq!(fallback.visualizer_offset, 200);
}

#[test]
fn subscription_names_the_guild() {
    let m = WsSubscribe::new("g1".to_string());
    assert_eq!(m.event_type, "subscribe");
    assert_eq!(m.guild_id, "g1");
}
