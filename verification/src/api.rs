//! Plain data exchanged with the remote service, and the addresses it is
//! reached at.

use vstd::prelude::*;
use crate::json::Json;
use crate::text::{str_eq, trim, trim_end_char, trimmed, without_trailing};
use crate::urls::{
    pairs_view, parse_url, spec_cannot_be_a_base, url_append_pair, url_cannot_be_a_base,
    url_clear_pairs, url_pairs, url_parse_text, url_query, url_query_pairs, url_query_string,
    url_remove_query, url_string, url_text, url_with_empty_query, url_with_pair,
    url_without_query,
};

verus! {

/// The request that puts a track into the queue.
#[derive(Clone, Debug, PartialEq, Eq)]
pub struct PlayPayload {
    pub action: &'static str,
    pub guild_id: Option<String>,
    pub channel_id: Option<String>,
    pub query: String,
    pub user_id: Option<String>,
    pub requested_by: Option<String>,
    pub avatar_url: Option<String>,
}

/// A request that names an action and nothing else.
#[derive(Clone, Debug, PartialEq, Eq)]
pub struct SimplePayload {
    pub action: &'static str,
    pub guild_id: Option<String>,
    pub user_id: Option<String>,
}

/// The request for a page of the queue.
#[derive(Clone, Debug, PartialEq, Eq)]
pub struct QueuePayload {
    pub action: &'static str,
    pub guild_id: Option<String>,
    pub user_id: Option<String>,
    pub limit: usize,
    pub offset: usize,
}

/// The request that sets the loop mode.
#[derive(Clone, Debug, PartialEq, Eq)]
pub struct LoopPayload {
    pub action: &'static str,
    pub guild_id: Option<String>,
    pub user_id: Option<String>,
    pub loop_mode: String,
}

/// The request that switches round-the-clock mode; `None` toggles it.
#[derive(Clone, Debug, PartialEq, Eq)]
pub struct TwentyFourSevenPayload {
    pub action: &'static str,
    pub guild_id: Option<String>,
    pub user_id: Option<String>,
    pub enabled: Option<bool>,
}

/// The request for the lyrics of the current track.
#[derive(Clone, Debug, PartialEq, Eq)]
pub struct LyricsPayload {
    pub action: String,
    pub guild_id: Option<String>,
    pub user_id: Option<String>,
}

/// The saved credentials.
#[derive(Clone, Debug, PartialEq, Eq)]
pub struct Auth {
    pub token: String,
    pub avatar_url: Option<String>,
    pub username: Option<String>,
}

/// One message of the event stream.
#[derive(Debug, PartialEq, Eq)]
pub struct WsEvent {
    pub event_type: String,
    pub guild_id: Option<String>,
    pub data: Option<Json>,
    pub playback: Option<PlaybackState>,
}

/// A snapshot of the playback position, as the service reports it.
#[derive(Clone, Debug, PartialEq, Eq)]
pub struct PlaybackState {
    pub elapsed_ms: u64,
    pub duration_ms: u64,
    pub paused: bool,
    pub spectrogram: Option<Vec<Vec<u8>>>,
}

/// The message that subscribes to the events of a guild.
#[derive(Clone, Debug, PartialEq, Eq)]
pub struct WsSubscribe {
    pub event_type: &'static str,
    pub guild_id: String,
}

/// The settings kept between runs.
#[derive(Clone, Debug, PartialEq, Eq)]
pub struct Settings {
    pub base_url: String,
    pub visualizer_offset: i64,
}

/// Spec value of the visualizer offset used when the settings give none.
pub open spec fn spec_default_offset() -> i64 {
    200
}

/// The visualizer offset, in milliseconds, used when the settings give none.
#[verifier::when_used_as_spec(spec_default_offset)]
pub fn default_offset() -> (r: i64)
    ensures
        r == spec_default_offset(),
{
    200
}

/// The settings of a first run: the public server and the default offset.
pub fn default_settings() -> (settings: Settings)
    ensures
        settings.base_url@ == "https://jorik.xserv.pp.ua"@,
        settings.visualizer_offset == default_offset(),
{
    Settings { base_url: "https://jorik.xserv.pp.ua".to_string(), visualizer_offset: 200 }
}

/// The settings to run with: the saved ones where they could be read, else
/// those of a first run.
pub fn load_settings(saved: Option<Settings>) -> (settings: Settings)
    ensures
        match saved {
            Some(s) => settings == s,
            None => settings.base_url@ == "https://jorik.xserv.pp.ua"@
                && settings.visualizer_offset == default_offset(),
        },
{
    match saved {
        Some(s) => s,
        None => default_settings(),
    }
}

/// The token of the saved credentials, if there are any.
pub fn load_token(auth: Option<Auth>) -> (token: Option<String>)
    ensures
        match auth {
            Some(a) => token == Some(a.token),
            None => token is None,
        },
{
    match auth {
        Some(a) => Some(a.token),
        None => None,
    }
}

impl Auth {
    /// The credentials to save for a token as it was received: the token
    /// without the white space around it, and the profile as given.
    pub fn new(token: &str, avatar_url: Option<String>, username: Option<String>) -> (auth: Auth)
        ensures
            auth.token@ == trimmed(token@),
            auth.avatar_url == avatar_url,
            auth.username == username,
    {
        Auth { token: trim(token), avatar_url, username }
    }
}

impl WsSubscribe {
    /// The subscription to the events of `guild_id`.
    pub fn new(guild_id: String) -> (message: WsSubscribe)
        ensures
            message.event_type@ == "subscribe"@,
            message.guild_id == guild_id,
    {
        WsSubscribe { event_type: "subscribe", guild_id }
    }
}

/// The address of `path` on the server `base`: the base without the slashes
/// at its end, then the path.
pub open spec fn spec_build_url(base: Seq<char>, path: Seq<char>) -> Seq<char> {
    without_trailing(base, '/') + path
}

/// The address of `path` on the server at `base`.
pub fn build_url(base: &str, path: &str) -> (url: String)
    ensures
        url@ == spec_build_url(base@, path@),
{
    let mut url = trim_end_char(base, '/');
    url.append(path);
    url
}

/// The pairs of `pairs` whose key is not `key`, in order.
pub open spec fn without_key(pairs: Seq<(Seq<char>, Seq<char>)>, key: Seq<char>) -> Seq<
    (Seq<char>, Seq<char>),
>
    decreases pairs.len(),
{
    if pairs.len() == 0 {
        Seq::empty()
    } else if pairs.last().0 == key {
        without_key(pairs.drop_last(), key)
    } else {
        without_key(pairs.drop_last(), key).push(pairs.last())
    }
}

/// Drops every pair whose key is `key` and keeps the others in order.
pub fn drop_pairs_named(pairs: Vec<(String, String)>, key: &str) -> (kept: Vec<(String, String)>)
    ensures
        pairs_view(kept@) == without_key(pairs_view(pairs@), key@),
{
    let mut kept: Vec<(String, String)> = Vec::new();
    let mut i: usize = 0;
    assert(pairs_view(kept@) =~= Seq::empty());
    assert(pairs_view(pairs@).take(0) =~= Seq::empty());
    while i < pairs.len()
        invariant
            i <= pairs.len(),
            pairs_view(kept@) == without_key(pairs_view(pairs@).take(i as int), key@),
        decreases pairs.len() - i,
    {
        let ghost before = pairs_view(kept@);
        assert(pairs_view(pairs@).take(i + 1).drop_last() == pairs_view(pairs@).take(i as int));
        assert(pairs_view(pairs@).take(i + 1).last() == (pairs@[i as int].0@, pairs@[i as int].1@));
        if !str_eq(pairs[i].0.as_str(), key) {
            kept.push((pairs[i].0.clone(), pairs[i].1.clone()));
            assert(pairs_view(kept@) =~= before.push((pairs@[i as int].0@, pairs@[i as int].1@)));
        }
        i = i + 1;
    }
    assert(pairs_view(pairs@).take(pairs@.len() as int) == pairs_view(pairs@));
    kept
}

/// The text of a URL after the pairs of `pairs` were appended to its query,
/// one after the other.
pub open spec fn url_with_pairs(text: Seq<char>, pairs: Seq<(Seq<char>, Seq<char>)>) -> Seq<char>
    decreases pairs.len(),
{
    if pairs.len() == 0 {
        text
    } else {
        url_with_pair(url_with_pairs(text, pairs.drop_last()), pairs.last().0, pairs.last().1)
    }
}

/// The text of a URL after its query was replaced by `pairs`: without a
/// query if there are none, else with exactly these pairs.
pub open spec fn url_with_query_of(text: Seq<char>, pairs: Seq<(Seq<char>, Seq<char>)>) -> Seq<
    char,
> {
    if pairs.len() == 0 {
        url_without_query(text)
    } else {
        url_with_pairs(url_with_empty_query(text), pairs)
    }
}

/// A search text without the share marker: where the text is a URL that can
/// be a base and has a query, the URL without the pairs named `si`;
/// otherwise the text itself.
pub open spec fn spec_clean_query(input: Seq<char>) -> Seq<char> {
    match url_parse_text(input) {
        Ok(text) => if spec_cannot_be_a_base(text) || url_query(text) is None {
            input
        } else {
            url_with_query_of(text, without_key(url_query_pairs(text), "si"@))
        },
        Err(_) => input,
    }
}

/// Replaces the query of `url` by `pairs`.
fn replace_query(url: &mut url::Url, pairs: &Vec<(String, String)>)
    ensures
        url_text(*final(url)) == url_with_query_of(url_text(*old(url)), pairs_view(pairs@)),
{
    if pairs.len() == 0 {
        url_remove_query(url);
    } else {
        url_clear_pairs(url);
        let ghost cleared = url_text(*url);
        let mut i: usize = 0;
        assert(pairs_view(pairs@).take(0) =~= Seq::empty());
        while i < pairs.len()
            invariant
                i <= pairs.len(),
                url_text(*url) == url_with_pairs(cleared, pairs_view(pairs@).take(i as int)),
            decreases pairs.len() - i,
        {
            assert(pairs_view(pairs@).take(i + 1).drop_last() == pairs_view(pairs@).take(
                i as int,
            ));
            assert(pairs_view(pairs@).take(i + 1).last() == (
                pairs@[i as int].0@,
                pairs@[i as int].1@,
            ));
            url_append_pair(url, pairs[i].0.as_str(), pairs[i].1.as_str());
            i = i + 1;
        }
        assert(pairs_view(pairs@).take(pairs@.len() as int) == pairs_view(pairs@));
    }
}

/// Removes the share marker from a search text: a URL with a query loses
/// the pairs named `si`, and its query altogether if no other pair is left;
/// any other text is returned as it is.
pub fn clean_query(input: &str) -> (cleaned: String)
    ensures
        cleaned@ == spec_clean_query(input@),
{
    match parse_url(input) {
        Ok(url) => {
            let mut url = url;
            if url_cannot_be_a_base(&url) || url_query_string(&url).is_none() {
                return input.to_string();
            }
            let kept = drop_pairs_named(url_pairs(&url), "si");
            replace_query(&mut url, &kept);
            url_string(&url)
        },
        Err(_) => input.to_string(),
    }
}

} // verus!
