//! Request URLs: a base, the instrument's symbol joined to it, and the
//! parameters of the query.

use vstd::prelude::*;
use vstd::string::*;
use crate::decimal::{decimal, decimal_text};
use crate::error::LoadError;
use crate::interval::Interval;
use reqwest::Url;

verus! {

/// The provider's chart endpoint, the base where no other is given.
pub const BASE_URL: &'static str = "https://query1.finance.yahoo.com/v8/finance/chart/";

#[verifier::external_type_specification]
#[verifier::external_body]
pub struct ExUrl(reqwest::Url);

/// The text that a `Url` holds: its serialization, what `Url::as_str` gives.
pub uninterp spec fn url_text(url: Url) -> Seq<char>;

/// What `Url::parse` makes of a text: the serialization of the URL, or
/// nothing where the text is no absolute URL.
pub uninterp spec fn parsed_url(input: Seq<char>) -> Option<Seq<char>>;

/// What `Url::join` makes of a reference on the URL with the serialization
/// `base`: the serialization of the URL that the reference then names, or
/// nothing where there is none.
pub uninterp spec fn joined_url(base: Seq<char>, reference: Seq<char>) -> Option<Seq<char>>;

/// The serialization of a URL once `Serializer::append_pair` has put one pair
/// more at the end of its query.
pub uninterp spec fn url_with_pair(url: Seq<char>, key: Seq<char>, value: Seq<char>) -> Seq<char>;

/// The number of bytes of a text.
pub open spec fn byte_len(text: Seq<char>) -> nat {
    vstd::utf8::encode_utf8(text).len()
}

/// Whether a URL has room for one pair more: with each byte of the key and
/// of the value written as three at most, and two bytes to part them from
/// what is there and from each other, the URL stays within the four
/// gigabytes that a `Url` can index.
pub open spec fn pair_fits(url: Seq<char>, key: Seq<char>, value: Seq<char>) -> bool {
    byte_len(url) + 3 * byte_len(key) + 3 * byte_len(value) + 2 <= u32::MAX
}

/// `Url::parse`. The contract claims only that the outcome is a function of
/// the text: a URL comes back exactly where `parsed_url` has a
/// serialization, and holds it.
#[verifier::external_body]
fn parse_url(input: &str) -> (url: Option<Url>)
    ensures
        match parsed_url(input@) {
            Some(text) => url matches Some(u) && url_text(u) == text,
            None => url is None,
        },
{
    Url::parse(input).ok()
}

/// `Url::join`. The contract claims only that the outcome is a function of
/// the base's serialization and the reference.
#[verifier::external_body]
fn join_url(base: &Url, reference: &str) -> (url: Option<Url>)
    ensures
        match joined_url(url_text(*base), reference@) {
            Some(text) => url matches Some(u) && url_text(u) == text,
            None => url is None,
        },
{
    base.join(reference).ok()
}

/// `Url::as_str`: the serialization.
#[verifier::external_body]
fn url_str(url: &Url) -> (text: &str)
    ensures
        text@ == url_text(*url),
{
    url.as_str()
}

/// `Url::query_pairs_mut` and `Serializer::append_pair` on what it gives.
/// The source indexes the serialization by `u32` and panics beyond that
/// range; `pair_fits` keeps the call within it. The contract claims only
/// that the new serialization is a function of the old one, the key and the
/// value.
#[verifier::external_body]
fn append_pair(url: &mut Url, key: &str, value: &str)
    requires
        pair_fits(url_text(*old(url)), key@, value@),
    ensures
        url_text(*final(url)) == url_with_pair(url_text(*old(url)), key@, value@),
{
    url.query_pairs_mut().append_pair(key, value);
}

/// The text of a URL, for messages and errors.
pub fn url_string(url: &Url) -> (text: String)
    ensures
        text@ == url_text(*url),
{
    url_str(url).to_owned()
}

/// The URL of an instrument's chart: the symbol joined to the base.
/// `Err` holds the text that is at fault: the base where it is no URL, else
/// the symbol where it names none on that base.
pub open spec fn query_text(base: Seq<char>, symbol: Seq<char>) -> Result<Seq<char>, Seq<char>> {
    match parsed_url(base) {
        None => Err(base),
        Some(root) => match joined_url(root, symbol) {
            None => Err(symbol),
            Some(text) => Ok(text),
        },
    }
}

/// A URL with one pair more in its query. `Err` holds the URL that has no
/// room for the pair.
pub open spec fn text_with_pair(url: Seq<char>, key: Seq<char>, value: Seq<char>) -> Result<
    Seq<char>,
    Seq<char>,
> {
    if pair_fits(url, key, value) {
        Ok(url_with_pair(url, key, value))
    } else {
        Err(url)
    }
}

/// Whether `built` is the URL that `model` gives, or the configuration error
/// that holds the text at fault.
pub open spec fn built_as(built: Result<Url, LoadError>, model: Result<Seq<char>, Seq<char>>) -> bool {
    match model {
        Ok(text) => built matches Ok(url) && url_text(url) == text,
        Err(fault) => built matches Err(LoadError::ConfigurationError { url }) && url@ == fault,
    }
}

/// The base of the request URLs: the override where one is given.
pub fn base_url<'a>(base_override: Option<&'a str>) -> (base: &'a str)
    ensures
        base@ == match base_override {
            Some(text) => text@,
            None => BASE_URL@,
        },
{
    match base_override {
        Some(text) => text,
        None => BASE_URL,
    }
}

/// Builds the URL of an instrument's chart on the given base, or on the
/// provider's where none is given.
pub fn build_query(base_override: Option<&str>, symbol: &str) -> (built: Result<Url, LoadError>)
    ensures
        built_as(
            built,
            query_text(
                match base_override {
                    Some(text) => text@,
                    None => BASE_URL@,
                },
                symbol@,
            ),
        ),
{
    let base = base_url(base_override);
    match parse_url(base) {
        None => Err(LoadError::ConfigurationError { url: base.to_owned() }),
        Some(root) => match join_url(&root, symbol) {
            None => Err(LoadError::ConfigurationError { url: symbol.to_owned() }),
            Some(url) => Ok(url),
        },
    }
}

/// Puts one pair more at the end of a URL's query: the key and the value in
/// the form that a query takes. A URL without room for the pair is a
/// configuration error that holds the URL.
pub fn with_pair(url: Url, key: &str, value: &str) -> (built: Result<Url, LoadError>)
    ensures
        built_as(built, text_with_pair(url_text(url), key@, value@)),
{
    let text = url_str(&url);
    let room: u128 = (text.as_bytes().len() as u128) + 3 * (key.as_bytes().len() as u128) + 3 * (
    value.as_bytes().len() as u128) + 2;
    if room <= 0xFFFF_FFFF {
        let mut url = url;
        append_pair(&mut url, key, value);
        Ok(url)
    } else {
        Err(LoadError::ConfigurationError { url: text.to_owned() })
    }
}

/// The URL of the daily bars of a named range: `range` and `interval=1d`.
pub open spec fn daily_text(base: Seq<char>, symbol: Seq<char>, period: Interval) -> Result<
    Seq<char>,
    Seq<char>,
> {
    match query_text(base, symbol) {
        Err(fault) => Err(fault),
        Ok(url) => match text_with_pair(url, "range"@, period.spec_name()) {
            Err(fault) => Err(fault),
            Ok(ranged) => text_with_pair(ranged, "interval"@, "1d"@),
        },
    }
}

/// The URL of the daily bars between two instants, both included:
/// `period1`, `period2` and `interval=1d`.
pub open spec fn daily_range_text(base: Seq<char>, symbol: Seq<char>, start: i64, end: i64) -> Result<
    Seq<char>,
    Seq<char>,
> {
    match query_text(base, symbol) {
        Err(fault) => Err(fault),
        Ok(url) => match text_with_pair(url, "period1"@, decimal(start as int)) {
            Err(fault) => Err(fault),
            Ok(from) => match text_with_pair(from, "period2"@, decimal(end as int)) {
                Err(fault) => Err(fault),
                Ok(to) => text_with_pair(to, "interval"@, "1d"@),
            },
        },
    }
}

/// Builds the URL that asks for the daily bars of a named range.
pub fn daily_url(base_override: Option<&str>, symbol: &str, period: Interval) -> (built: Result<
    Url,
    LoadError,
>)
    ensures
        built_as(
            built,
            daily_text(
                match base_override {
                    Some(text) => text@,
                    None => BASE_URL@,
                },
                symbol@,
                period,
            ),
        ),
{
    let url = build_query(base_override, symbol)?;
    let ranged = with_pair(url, "range", period.name())?;
    with_pair(ranged, "interval", "1d")
}

/// Builds the URL that asks for the daily bars between two instants.
pub fn daily_range_url(base_override: Option<&str>, symbol: &str, start: i64, end: i64) -> (built:
    Result<Url, LoadError>)
    ensures
        built_as(
            built,
            daily_range_text(
                match base_override {
                    Some(text) => text@,
                    None => BASE_URL@,
                },
                symbol@,
                start,
                end,
            ),
        ),
{
    let url = build_query(base_override, symbol)?;
    let from = with_pair(url, "period1", decimal_text(start).as_str())?;
    let to = with_pair(from, "period2", decimal_text(end).as_str())?;
    with_pair(to, "interval", "1d")
}

} // verus!
