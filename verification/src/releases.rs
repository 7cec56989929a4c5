//! Which release is newer than the running program, decided by the order
//! that the `semver` crate gives to versions.
//!
//! A [`Version`] is opaque to the proofs. What they know of one is its
//! text, as the crate displays it, named [`version_text`]; the crate's
//! parser and its order are named over texts. None of this is proved here:
//! it is what the library assumes of the crate.

use vstd::prelude::*;
use semver::Version;
use crate::text::{texts, trim_start_char, without_leading};

verus! {

/// The type `semver::Version`.
#[verifier::external_type_specification]
#[verifier::external_body]
pub struct ExVersion(semver::Version);

/// The text of a version, as it is displayed.
pub uninterp spec fn version_text(v: Version) -> Seq<char>;

/// What `Version::parse` makes of a text: the text of the version, or
/// `None` where the text is no version.
pub uninterp spec fn version_parse_text(input: Seq<char>) -> Option<Seq<char>>;

/// Whether the version with the text `a` comes after the version with the
/// text `b` in the order of the crate.
pub uninterp spec fn version_after(a: Seq<char>, b: Seq<char>) -> bool;

/// `Version::parse`. Whether a text is a version, and which, depends on the
/// text alone and is named [`version_parse_text`].
#[verifier::external_body]
fn parse_version(text: &str) -> (r: Option<Version>)
    ensures
        match r {
            Some(v) => version_parse_text(text@) == Some(version_text(v)),
            None => version_parse_text(text@) is None,
        },
{
    Version::parse(text).ok()
}

/// The operator `>` of `Version`: whether `a` comes after `b` in the order
/// of the crate, which depends on the two versions alone and is named
/// [`version_after`].
#[verifier::external_body]
fn version_is_after(a: &Version, b: &Version) -> (r: bool)
    ensures
        r == version_after(version_text(*a), version_text(*b)),
{
    a > b
}

/// The version that a release tag names: the tag without the `v` in front.
pub open spec fn tag_version(tag: Seq<char>) -> Option<Seq<char>> {
    version_parse_text(without_leading(tag, 'v'))
}

/// The newest release among `tags[from..]` that is newer than `latest`,
/// `found` if there is none. A tag that names no version is passed over,
/// and of two equal versions the earlier tag stays.
pub open spec fn newest_after(
    tags: Seq<Seq<char>>,
    latest: Seq<char>,
    found: Option<usize>,
    from: int,
) -> Option<usize>
    decreases tags.len() - from,
{
    if from < 0 || from >= tags.len() {
        found
    } else {
        match tag_version(tags[from]) {
            Some(version) => if version_after(version, latest) {
                newest_after(tags, version, Some(from as usize), from + 1)
            } else {
                newest_after(tags, latest, found, from + 1)
            },
            None => newest_after(tags, latest, found, from + 1),
        }
    }
}

/// The release to update to: the newest one that is newer than the running
/// version, if there is any. Without a running version that parses there is
/// none.
pub open spec fn spec_newest_release(tags: Seq<Seq<char>>, current: Seq<char>) -> Option<usize> {
    match version_parse_text(current) {
        Some(version) => newest_after(tags, version, None, 0),
        None => None,
    }
}

/// The index of the release to update to, among the releases with the tags
/// `tags`, for the running version `current`.
pub fn newest_release(tags: &Vec<String>, current: &str) -> (newest: Option<usize>)
    ensures
        newest == spec_newest_release(texts(tags@), current@),
        newest matches Some(index) ==> index < tags@.len(),
{
    let mut latest = match parse_version(current) {
        Some(version) => version,
        None => {
            return None;
        },
    };
    let mut found: Option<usize> = None;
    let mut i: usize = 0;
    while i < tags.len()
        invariant
            i <= tags.len(),
            found matches Some(index) ==> index < tags@.len(),
            spec_newest_release(texts(tags@), current@) == newest_after(
                texts(tags@),
                version_text(latest),
                found,
                i as int,
            ),
        decreases tags.len() - i,
    {
        assert(texts(tags@)[i as int] == tags@[i as int]@);
        let name = trim_start_char(tags[i].as_str(), 'v');
        match parse_version(name.as_str()) {
            Some(version) => {
                if version_is_after(&version, &latest) {
                    latest = version;
                    found = Some(i);
                }
            },
            None => {},
        }
        i = i + 1;
    }
    found
}

} // verus!
