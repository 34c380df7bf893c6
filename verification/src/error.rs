//! The ways in which a load can fail.

use vstd::prelude::*;
use crate::schema::Fault;

verus! {

/// What is wrong with a body that is no chart payload.
#[derive(Clone, Debug, PartialEq, Eq)]
pub enum Diagnostic {
    /// The body is no JSON document; `message` is the parser's own account.
    Syntax { message: String },
    /// The body is a document of another shape.
    Schema { fault: Fault },
}

/// Why a load ended without a record. Each kind ends the call: nothing is
/// tried again.
#[derive(Clone, Debug, PartialEq, Eq)]
pub enum LoadError {
    /// The base of the request URL, or what was joined to it, is no URL;
    /// `url` is the text at fault.
    ConfigurationError { url: String },
    /// The request did not get through on the network.
    TransportError { cause: String },
    /// The provider answered with a status that is no success.
    RemoteCallFailed { url: String, status: u16 },
    /// The body could not be read after a status of success.
    ResponseReadError { url: String, cause: String },
    /// The body is no chart payload.
    MalformedPayload { diagnostic: Diagnostic },
    /// The provider sent neither records nor an account of a failure, or both.
    InternalInconsistency,
    /// The provider sent its own account of a failure.
    ProviderReportedFailure { code: String, description: String },
    /// The provider sent an empty sequence of records.
    UnexpectedEmptyResult,
    /// A scraped page does not hold the marker of its embedded document.
    ScrapeMarkerNotFound,
}

} // verus!
