//! A load, step by step: the request, the provider's reply, the transfer of
//! the body. The caller does the network's part and reports what happened;
//! every decision is taken here.

use vstd::prelude::*;
use crate::error::{Diagnostic, LoadError};
use crate::interval::Interval;
use crate::json::{document, Json};
use crate::query::{
    daily_range_text, daily_range_url, daily_text, daily_url, url_string, url_text, BASE_URL,
};
use crate::records::Data;
use crate::scrape::{embedded_document, read_embedded_json};
use crate::verdict::{body_verdict, conveys, interpret};
use reqwest::Url;

verus! {

/// A request that is to be sent: a `GET` of its URL.
pub struct Request {
    pub url: Url,
}

/// What came of sending a request.
pub enum Reply {
    /// No answer came: the network failed.
    Unreachable { cause: String },
    /// An answer came, from `url`, with `status`; its body is not yet read.
    Status { url: String, status: u16 },
}

/// An answer with a status of success, whose body is to be read.
pub struct Answer {
    /// The URL of the request.
    pub url: String,
}

/// What came of reading a body.
pub enum Transfer {
    /// The body could not be read to its end.
    Broken { cause: String },
    /// The whole body, as text.
    Complete { body: String },
}

/// Whether a status is one of success.
pub open spec fn is_success(status: u16) -> bool {
    200 <= status < 300
}

/// Tells whether a status is one of success.
pub fn status_is_success(status: u16) -> (success: bool)
    ensures
        success == is_success(status),
{
    200 <= status && status < 300
}

/// Begins the load of a URL.
pub fn load(url: Url) -> (request: Request)
    ensures
        request.url == url,
{
    Request { url }
}

/// Whether `request` asks for the URL that `model` gives, or is the
/// configuration error that holds the text at fault.
pub open spec fn requests(request: Result<Request, LoadError>, model: Result<Seq<char>, Seq<char>>) -> bool {
    match model {
        Ok(text) => request matches Ok(r) && url_text(r.url) == text,
        Err(fault) => request matches Err(LoadError::ConfigurationError { url }) && url@ == fault,
    }
}

/// Begins the load of the daily bars of a named range.
pub fn load_daily(base_override: Option<&str>, symbol: &str, period: Interval) -> (request: Result<
    Request,
    LoadError,
>)
    ensures
        requests(
            request,
            daily_text(
                match base_override {
                    Some(text) => text@,
                    None => BASE_URL@,
                },
                symbol@,
                period,
            ),
        ),
{
    match daily_url(base_override, symbol, period) {
        Ok(url) => Ok(load(url)),
        Err(error) => Err(error),
    }
}

/// Begins the load of the daily bars between two instants, both included
/// and both in seconds since the epoch.
pub fn load_daily_range(base_override: Option<&str>, symbol: &str, start: i64, end: i64) -> (request:
    Result<Request, LoadError>)
    ensures
        requests(
            request,
            daily_range_text(
                match base_override {
                    Some(text) => text@,
                    None => BASE_URL@,
                },
                symbol@,
                start,
                end,
            ),
        ),
{
    match daily_range_url(base_override, symbol, start, end) {
        Ok(url) => Ok(load(url)),
        Err(error) => Err(error),
    }
}

impl Request {
    /// Takes the provider's reply. A failure of the network and a status
    /// that is no success each end the load with the error of their kind;
    /// after a status of success the body is to be read.
    pub fn on_reply(self, reply: Reply) -> (next: Result<Answer, LoadError>)
        ensures
            match reply {
                Reply::Unreachable { cause } => next matches Err(
                    LoadError::TransportError { cause: c },
                ) && c == cause,
                Reply::Status { url, status } => if is_success(status) {
                    next matches Ok(answer) && answer.url@ == url_text(self.url)
                } else {
                    next matches Err(LoadError::RemoteCallFailed { url: u, status: s }) && u == url
                        && s == status
                },
            },
    {
        match reply {
            Reply::Unreachable { cause } => Err(LoadError::TransportError { cause }),
            Reply::Status { url, status } => {
                if status_is_success(status) {
                    Ok(Answer { url: url_string(&self.url) })
                } else {
                    Err(LoadError::RemoteCallFailed { url, status })
                }
            },
        }
    }
}

impl Answer {
    /// Takes what came of reading the body. A body that could not be read
    /// ends the load with the error of that kind, which holds the request's
    /// URL; a body that was read is interpreted.
    pub fn on_transfer(self, transfer: Transfer) -> (result: Result<Data, LoadError>)
        ensures
            match transfer {
                Transfer::Broken { cause } => result matches Err(
                    LoadError::ResponseReadError { url, cause: c },
                ) && url == self.url && c == cause,
                Transfer::Complete { body } => conveys(result, body_verdict(document(body@))),
            },
            result matches Ok(data) ==> data.wf(),
    {
        match transfer {
            Transfer::Broken { cause } => Err(
                LoadError::ResponseReadError { url: self.url, cause },
            ),
            Transfer::Complete { body } => interpret(body.as_str()),
        }
    }

    /// Takes what came of reading the body of a scraped page, and reads the
    /// document that the page holds between its markers.
    pub fn on_page(self, transfer: Transfer, opening: &str, closing: &str) -> (result: Result<
        Json,
        LoadError,
    >)
        ensures
            match transfer {
                Transfer::Broken { cause } => result matches Err(
                    LoadError::ResponseReadError { url, cause: c },
                ) && url == self.url && c == cause,
                Transfer::Complete { body } => match embedded_document(body@, opening@, closing@) {
                    None => result matches Err(LoadError::ScrapeMarkerNotFound),
                    Some(None) => result matches Err(
                        LoadError::MalformedPayload { diagnostic: Diagnostic::Syntax { .. } },
                    ),
                    Some(Some(tree)) => result matches Ok(json) && json@ == tree,
                },
            },
    {
        match transfer {
            Transfer::Broken { cause } => Err(
                LoadError::ResponseReadError { url: self.url, cause },
            ),
            Transfer::Complete { body } => read_embedded_json(body.as_str(), opening, closing),
        }
    }
}

} // verus!
