//! Web addresses: parsed, given a path and a query, and written back as text
//! by the `Url` type that `reqwest` offers.
//!
//! What that type computes is not restated here. Each of its functions that
//! the library calls has a name for its result, and the contracts below say
//! how the library combines them. The names speak of the parsed address
//! itself: an address holds more than its text, and what a change makes of it
//! depends on all that it holds.

use reqwest::Url;
use vstd::prelude::*;
use vstd::utf8::encode_utf8;

verus! {

/// A parsed web address. The library sees nothing inside it.
#[verifier::external_type_specification]
#[verifier::external_body]
pub struct ExUrl(Url);

/// The text that a parsed address holds: what `Url::as_str` returns for it.
pub uninterp spec fn url_text(url: Url) -> Seq<char>;

/// What `Url::parse` makes of `text`: `None` where it refuses the text, else
/// the address it returns.
pub uninterp spec fn parsed_url(text: Seq<char>) -> Option<Url>;

/// The address that `url` is after `Url::set_path` was called on it with
/// `path`.
pub uninterp spec fn url_with_path(url: Url, path: Seq<char>) -> Url;

/// The address that `url` is after `Url::set_query` was called on it with
/// `Some(query)`.
pub uninterp spec fn url_with_query(url: Url, query: Seq<char>) -> Url;

/// The longest address, in bytes, that the library hands on to be changed.
pub const MAX_URL_BYTES: usize = 0x4000_0000;

/// The longest path or query, in bytes, that the library puts into an address.
pub const MAX_PART_BYTES: usize = 0x1000_0000;

/// The number of bytes that `text` takes in UTF-8.
pub open spec fn byte_len(text: Seq<char>) -> nat {
    encode_utf8(text).len()
}

/// Parses `text`, by `Url::parse`. The call returns for every text.
#[verifier::external_body]
fn parse_url(text: &str) -> (url: Option<Url>)
    ensures
        url == parsed_url(text@),
{
    Url::parse(text).ok()
}

/// The text of a parsed address, by `Url::as_str`.
#[verifier::external_body]
fn url_as_str(url: &Url) -> (text: &str)
    ensures
        text@ == url_text(*url),
{
    url.as_str()
}

/// Replaces the path of the address, by `Url::set_path`.
///
/// `Url` counts the bytes of its text in 32 bits and stops the program when
/// they no longer fit. The new path is at most three times as long as `path`,
/// plus a few separators, so the bounds asked here leave it ample room.
#[verifier::external_body]
fn set_url_path(url: &mut Url, path: &str)
    requires
        byte_len(url_text(*old(url))) <= MAX_URL_BYTES,
        byte_len(path@) <= MAX_PART_BYTES,
    ensures
        *final(url) == url_with_path(*old(url), path@),
{
    url.set_path(path)
}

/// Replaces the query of the address by `query`, by `Url::set_query`.
///
/// The bounds are asked for the same reason as in `set_url_path`: the new
/// query is at most three times as long as `query`.
#[verifier::external_body]
fn set_url_query(url: &mut Url, query: &str)
    requires
        byte_len(url_text(*old(url))) <= MAX_URL_BYTES,
        byte_len(query@) <= MAX_PART_BYTES,
    ensures
        *final(url) == url_with_query(*old(url), query@),
{
    url.set_query(Some(query))
}

/// The text of `text` as an address: the text of its parsed form, or `None`
/// where it is no address.
pub open spec fn normal_url(text: Seq<char>) -> Option<Seq<char>> {
    match parsed_url(text) {
        None => None,
        Some(parsed) => Some(url_text(parsed)),
    }
}

/// The text of the address at the endpoint `base` with the path replaced by
/// `path` and the query by `query`; `None` where `base` is no address, or
/// where the address or one of the parts is longer than the library handles.
pub open spec fn request_url(base: Seq<char>, path: Seq<char>, query: Seq<char>) -> Option<
    Seq<char>,
> {
    match parsed_url(base) {
        None => None,
        Some(parsed) => {
            let moved = url_with_path(parsed, path);
            if byte_len(url_text(parsed)) <= MAX_URL_BYTES && byte_len(path) <= MAX_PART_BYTES
                && byte_len(query) <= MAX_PART_BYTES && byte_len(url_text(moved))
                <= MAX_URL_BYTES {
                Some(url_text(url_with_query(moved, query)))
            } else {
                None
            }
        },
    }
}

/// Whether `text` is an address, and its parsed form written back as text.
pub fn normalize_url(text: &str) -> (normal: Option<String>)
    ensures
        match normal {
            Some(normal) => normal_url(text@) == Some(normal@),
            None => normal_url(text@) is None,
        },
{
    match parse_url(text) {
        None => None,
        Some(url) => Some(url_as_str(&url).to_owned()),
    }
}

/// Builds the address of a request: the endpoint `base`, with `path` as its
/// path and `query` as its query.
pub fn build_request_url(base: &str, path: &str, query: &str) -> (address: Option<String>)
    ensures
        match address {
            Some(address) => request_url(base@, path@, query@) == Some(address@),
            None => request_url(base@, path@, query@) is None,
        },
{
    match parse_url(base) {
        None => None,
        Some(url) => {
            let mut url = url;
            if url_as_str(&url).as_bytes().len() > MAX_URL_BYTES || path.as_bytes().len()
                > MAX_PART_BYTES || query.as_bytes().len() > MAX_PART_BYTES {
                return None;
            }
            set_url_path(&mut url, path);
            if url_as_str(&url).as_bytes().len() > MAX_URL_BYTES {
                return None;
            }
            set_url_query(&mut url, query);
            Some(url_as_str(&url).to_owned())
        },
    }
}

} // verus!
