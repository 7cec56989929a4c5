//! URLs, handled by the `url` crate.
//!
//! A [`Url`] is opaque to the proofs. What they know of one is its text, the
//! serialization that `Url::as_str` returns, named [`url_text`]. Each
//! operation of the crate that the library calls is given a contract over
//! that text: either stated, or by a name for what the operation makes of the
//! text, which depends on its arguments alone. None of these contracts is
//! proved here; they are what the library assumes of the crate.
//!
//! A URL that was parsed is a function of its text, and the operations here
//! keep it so. `Url::set_path` does so only for a path that cannot be read
//! as the start of a host, which is why [`url_set_path`] takes plain paths
//! alone.

use vstd::prelude::*;
use url::Url;

verus! {

/// The type `url::Url`.
#[verifier::external_type_specification]
#[verifier::external_body]
pub struct ExUrl(url::Url);

/// The text of a URL: its serialization.
pub uninterp spec fn url_text(u: Url) -> Seq<char>;

/// What `Url::parse` makes of a text: the text of the URL, or the message of
/// the error.
pub uninterp spec fn url_parse_text(input: Seq<char>) -> Result<Seq<char>, Seq<char>>;

/// The text of a URL after `Url::set_scheme`, whether the scheme was
/// accepted or not.
pub uninterp spec fn url_with_scheme(text: Seq<char>, scheme: Seq<char>) -> Seq<char>;

/// The text of a URL after `Url::set_path` with a plain path.
pub uninterp spec fn url_with_path(text: Seq<char>, path: Seq<char>) -> Seq<char>;

/// The text of a URL after a pair was appended to its query.
pub uninterp spec fn url_with_pair(text: Seq<char>, key: Seq<char>, value: Seq<char>) -> Seq<
    char,
>;

/// The query of the URL with this text, if it has one.
pub uninterp spec fn url_query(text: Seq<char>) -> Option<Seq<char>>;

/// The decoded pairs of the query of the URL with this text.
pub uninterp spec fn url_query_pairs(text: Seq<char>) -> Seq<(Seq<char>, Seq<char>)>;

/// The text of a URL after its query was removed.
pub uninterp spec fn url_without_query(text: Seq<char>) -> Seq<char>;

/// The text of a URL after its query was set to the empty query.
pub uninterp spec fn url_with_empty_query(text: Seq<char>) -> Seq<char>;

/// The characters of `text` in front of the first `stop`.
pub open spec fn before_first(text: Seq<char>, stop: char) -> Seq<char>
    decreases text.len(),
{
    if text.len() == 0 || text[0] == stop {
        Seq::empty()
    } else {
        seq![text[0]] + before_first(text.drop_first(), stop)
    }
}

/// Whether the URL with this text cannot be a base: its text goes on after
/// the first colon with anything but a slash.
pub open spec fn spec_cannot_be_a_base(text: Seq<char>) -> bool {
    let rest = (before_first(text, ':').len() + 1) as int;
    !(text.len() > rest && text[rest] == '/')
}

/// Whether a character is an ASCII letter or digit.
pub open spec fn is_ascii_alphanumeric(c: char) -> bool {
    let u = c as u32;
    ||| 0x30 <= u <= 0x39
    ||| 0x41 <= u <= 0x5a
    ||| 0x61 <= u <= 0x7a
}

/// Whether a path is plain: a slash followed by ASCII letters and digits
/// only.
pub open spec fn is_plain_path(path: Seq<char>) -> bool {
    &&& path.len() >= 1
    &&& path[0] == '/'
    &&& forall|i: int| 1 <= i < path.len() ==> is_ascii_alphanumeric(#[trigger] path[i])
}

/// The values of a list of pairs.
pub open spec fn pairs_view(pairs: Seq<(String, String)>) -> Seq<(Seq<char>, Seq<char>)> {
    pairs.map_values(|p: (String, String)| (p.0@, p.1@))
}

/// `Url::parse`. The outcome depends on the input alone and is named
/// [`url_parse_text`]: the text of the parsed URL, or the message that the
/// error displays.
#[verifier::external_body]
pub(crate) fn parse_url(input: &str) -> (r: Result<Url, String>)
    ensures
        match r {
            Ok(u) => url_parse_text(input@) == Ok::<Seq<char>, Seq<char>>(url_text(u)),
            Err(message) => url_parse_text(input@) == Err::<Seq<char>, Seq<char>>(message@),
        },
{
    Url::parse(input).map_err(|e| e.to_string())
}

/// `Url::as_str`: the serialization of the URL.
#[verifier::external_body]
pub(crate) fn url_string(u: &Url) -> (r: String)
    ensures
        r@ == url_text(*u),
{
    u.as_str().to_string()
}

/// `Url::scheme`: the part of the serialization in front of its first colon.
#[verifier::external_body]
pub(crate) fn url_scheme(u: &Url) -> (r: String)
    ensures
        r@ == before_first(url_text(*u), ':'),
{
    u.scheme().to_string()
}

/// `Url::set_scheme`. The URL is changed or, where the crate refuses the
/// scheme, left as it is; its text afterwards is named [`url_with_scheme`].
#[verifier::external_body]
pub(crate) fn url_set_scheme(u: &mut Url, scheme: &str)
    ensures
        url_text(*final(u)) == url_with_scheme(url_text(*old(u)), scheme@),
{
    let _ = u.set_scheme(scheme);
}

/// `Url::set_path` with a plain path; the text afterwards is named
/// [`url_with_path`]. Other paths are left out: a path that begins with two
/// slashes can leave a URL whose fields do not follow from its text, and
/// for such a URL no name over the text would be true.
#[verifier::external_body]
pub(crate) fn url_set_path(u: &mut Url, path: &str)
    requires
        is_plain_path(path@),
    ensures
        url_text(*final(u)) == url_with_path(url_text(*old(u)), path@),
{
    u.set_path(path);
}

/// `Serializer::append_pair` on `Url::query_pairs_mut`: one pair is added at
/// the end of the query; the text afterwards is named [`url_with_pair`].
#[verifier::external_body]
pub(crate) fn url_append_pair(u: &mut Url, key: &str, value: &str)
    ensures
        url_text(*final(u)) == url_with_pair(url_text(*old(u)), key@, value@),
{
    u.query_pairs_mut().append_pair(key, value);
}

/// `Url::cannot_be_a_base`: whether the serialization goes on after its
/// first colon with anything but a slash.
#[verifier::external_body]
pub(crate) fn url_cannot_be_a_base(u: &Url) -> (r: bool)
    ensures
        r == spec_cannot_be_a_base(url_text(*u)),
{
    u.cannot_be_a_base()
}

/// `Url::query`, named [`url_query`].
#[verifier::external_body]
pub(crate) fn url_query_string(u: &Url) -> (r: Option<String>)
    ensures
        crate::text::opt_text(r) == url_query(url_text(*u)),
{
    u.query().map(|q| q.to_string())
}

/// `Url::query_pairs`: the pairs of the query, decoded, in order; named
/// [`url_query_pairs`].
#[verifier::external_body]
pub(crate) fn url_pairs(u: &Url) -> (r: Vec<(String, String)>)
    ensures
        pairs_view(r@) == url_query_pairs(url_text(*u)),
{
    u.query_pairs().map(|(k, v)| (k.into_owned(), v.into_owned())).collect()
}

/// `Url::set_query` with `None`; the text afterwards is named
/// [`url_without_query`].
#[verifier::external_body]
pub(crate) fn url_remove_query(u: &mut Url)
    ensures
        url_text(*final(u)) == url_without_query(url_text(*old(u))),
{
    u.set_query(None);
}

/// `Serializer::clear` on `Url::query_pairs_mut`: the query becomes the
/// empty query; the text afterwards is named [`url_with_empty_query`].
#[verifier::external_body]
pub(crate) fn url_clear_pairs(u: &mut Url)
    ensures
        url_text(*final(u)) == url_with_empty_query(url_text(*old(u))),
{
    u.query_pairs_mut().clear();
}

} // verus!
