//! The counter service's addresses and time stamps, computed by the `url`
//! and `chrono` crates.
use vstd::prelude::*;
use chrono::{DateTime, Utc};
use url::Url;

verus! {

/// The serialization of the URL that `url::Url::parse` gives for `input`;
/// `None` where it reports a parse error.
pub uninterp spec fn parsed_url(input: Seq<char>) -> Option<Seq<char>>;

/// The serialization of the URL that `url::Url::join` gives for `path`
/// against the URL `url::Url::parse` gives for `base`; `None` where either
/// reports a parse error.
pub uninterp spec fn joined_url(base: Seq<char>, path: Seq<char>) -> Option<Seq<char>>;

/// How `chrono` displays the UTC date-time `millis` milliseconds after the
/// Unix epoch (such as `2023-01-01 00:00:00 UTC`); `None` where
/// `chrono::DateTime::from_timestamp_millis` finds `millis` out of range.
pub uninterp spec fn utc_display(millis: i64) -> Option<Seq<char>>;

/// The text of an optional string.
pub open spec fn text_of(text: Option<String>) -> Option<Seq<char>> {
    match text {
        Some(t) => Some(t@),
        None => None,
    }
}

/// Calls `url::Url::parse` on `input` and serializes the URL it gives. The
/// contract names the result ([`parsed_url`]); what URL parsing yields is
/// left to the `url` crate.
#[verifier::external_body]
pub(crate) fn parse_url(input: &str) -> (url: Option<String>)
    ensures
        text_of(url) == parsed_url(input@),
{
    match Url::parse(input) {
        Ok(url) => Some(String::from(url)),
        Err(_) => None,
    }
}

/// Calls `url::Url::join` with `path` on the URL that `url::Url::parse`
/// gives for `base`, and serializes the result (the parsed base never leaves
/// this function). The contract names the result ([`joined_url`]).
#[verifier::external_body]
pub(crate) fn join_url(base: &str, path: &str) -> (url: Option<String>)
    ensures
        text_of(url) == joined_url(base@, path@),
{
    match Url::parse(base) {
        Ok(base) => match base.join(path) {
            Ok(url) => Some(String::from(url)),
            Err(_) => None,
        },
        Err(_) => None,
    }
}

/// Calls `chrono::DateTime::<Utc>::from_timestamp_millis` on `millis` and
/// displays the date-time it gives. The contract names the result
/// ([`utc_display`]); the calendar arithmetic and format are chrono's.
#[verifier::external_body]
pub(crate) fn utc_text(millis: i64) -> (text: Option<String>)
    ensures
        text_of(text) == utc_display(millis),
{
    match DateTime::<Utc>::from_timestamp_millis(millis) {
        Some(time) => Some(time.to_string()),
        None => None,
    }
}

} // verus!
