//! The target of the redirection that announces the latest version.
//!
//! The `Location` header of the redirection holds an absolute URL. It is the
//! address of the archive, and for some applications its path spells the
//! version. The URL is parsed by the `url` crate; what that crate makes of a
//! text is taken on trust and named below.

use crate::outcome::{text_result, Failure};
use vstd::prelude::*;

verus! {

/// `url::Url`, a parsed absolute URL, as an opaque type: nothing is known
/// of what a value holds but what the names below say of it.
#[verifier::external_type_specification]
#[verifier::external_body]
pub struct ExUrl(url::Url);

/// `url::ParseError`, the reason why a text was rejected, as an opaque type.
#[verifier::external_type_specification]
#[verifier::external_body]
pub struct ExUrlParseError(url::ParseError);

/// The URL that `Url::parse` reads from a text, or `None` where the text is
/// no absolute URL.
pub uninterp spec fn url_parsed(text: Seq<char>) -> Option<url::Url>;

/// The serialization of a URL, as `Url::as_str` gives it.
pub uninterp spec fn url_text(url: url::Url) -> Seq<char>;

/// The segments of the path of a URL, as `Url::path_segments` yields them
/// in order, or `None` for a URL that cannot be a base.
pub uninterp spec fn url_segments(url: url::Url) -> Option<Seq<Seq<char>>>;

/// The texts of a sequence of strings.
pub open spec fn texts(strings: Seq<String>) -> Seq<Seq<char>> {
    Seq::new(strings.len(), |i: int| strings[i]@)
}

/// Calls `Url::parse`. Trusted: the outcome depends on the text alone, so it
/// is the named URL.
#[verifier::external_body]
fn parse_url(text: &str) -> (r: Result<url::Url, url::ParseError>)
    ensures
        match r {
            Ok(url) => url_parsed(text@) == Some(url),
            Err(_) => url_parsed(text@).is_none(),
        },
{
    url::Url::parse(text)
}

/// Calls `Url::as_str`. Trusted: the result is the named serialization.
#[verifier::external_body]
fn serialization<'a>(url: &'a url::Url) -> (r: &'a str)
    ensures
        r@ == url_text(*url),
{
    url.as_str()
}

/// Calls `Url::path_segments` and collects what the iterator yields, each
/// segment copied into a string of its own. Trusted: the result is the named
/// sequence of segments.
#[verifier::external_body]
fn path_segments(url: &url::Url) -> (r: Option<Vec<String>>)
    ensures
        match r {
            Some(segments) => url_segments(*url) == Some(texts(segments@)),
            None => url_segments(*url).is_none(),
        },
{
    match url.path_segments() {
        Some(segments) => Some(segments.map(String::from).collect()),
        None => None,
    }
}

/// The place of the version among the path segments of a redirection target.
pub const VERSION_SEGMENT: usize = 2;

/// The version that the path segments of a redirection target spell: the
/// third segment.
pub open spec fn spelled_version(segments: Option<Seq<Seq<char>>>) -> Result<
    Seq<char>,
    Failure,
> {
    match segments {
        None => Err(Failure::NoPathSegments),
        Some(list) => if list.len() <= VERSION_SEGMENT {
            Err(Failure::VersionSegmentMissing)
        } else {
            Ok(list[VERSION_SEGMENT as int])
        },
    }
}

/// Picks the version out of the path segments of a redirection target.
///
/// Fails with `NoPathSegments` exactly where there are no segments at all,
/// and with `VersionSegmentMissing` exactly where there are fewer than three.
pub fn version_from_segments(segments: Option<Vec<String>>) -> (r: Result<String, Failure>)
    ensures
        text_result(r) == spelled_version(
            match segments {
                Some(list) => Some(texts(list@)),
                None => None,
            },
        ),
{
    match segments {
        None => Err(Failure::NoPathSegments),
        Some(list) => {
            if list.len() <= VERSION_SEGMENT {
                Err(Failure::VersionSegmentMissing)
            } else {
                Ok(list[VERSION_SEGMENT].clone())
            }
        },
    }
}

/// A parsed redirection target.
pub struct Location {
    url: url::Url,
}

impl Location {
    /// The address to fetch the archive from: the URL in its serialized form.
    pub closed spec fn address_text(self) -> Seq<char> {
        url_text(self.url)
    }

    /// The version that the path of the URL spells.
    pub closed spec fn version_text(self) -> Result<Seq<char>, Failure> {
        spelled_version(url_segments(self.url))
    }

    /// Parses the text of a `Location` header.
    ///
    /// Fails with `LocationNotUrl` exactly where the text is no absolute URL.
    pub fn parse(text: &str) -> (r: Result<Location, Failure>)
        ensures
            match r {
                Ok(location) => {
                    &&& target_address(text@) == Ok::<Seq<char>, Failure>(location.address_text())
                    &&& target_version(text@) == location.version_text()
                },
                Err(failure) => {
                    &&& failure == Failure::LocationNotUrl
                    &&& target_address(text@) == Err::<Seq<char>, Failure>(failure)
                    &&& target_version(text@) == Err::<Seq<char>, Failure>(failure)
                },
            },
    {
        match parse_url(text) {
            Ok(url) => Ok(Location { url }),
            Err(_) => Err(Failure::LocationNotUrl),
        }
    }

    /// The address to fetch the archive from.
    pub fn address(&self) -> (r: String)
        ensures
            r@ == self.address_text(),
    {
        serialization(&self.url).to_owned()
    }

    /// The version that the path of the URL spells: its third segment.
    pub fn version(&self) -> (r: Result<String, Failure>)
        ensures
            text_result(r) == self.version_text(),
    {
        version_from_segments(path_segments(&self.url))
    }
}

/// The address that the text of a `Location` header leads to.
pub open spec fn target_address(text: Seq<char>) -> Result<Seq<char>, Failure> {
    match url_parsed(text) {
        None => Err(Failure::LocationNotUrl),
        Some(url) => Ok(url_text(url)),
    }
}

/// The version that the text of a `Location` header spells in its path.
pub open spec fn target_version(text: Seq<char>) -> Result<Seq<char>, Failure> {
    match url_parsed(text) {
        None => Err(Failure::LocationNotUrl),
        Some(url) => spelled_version(url_segments(url)),
    }
}

} // verus!
