//! From the body of an answer to a record or to the kind of its failure.

use vstd::prelude::*;
use crate::error::{Diagnostic, LoadError};
use crate::json::{document, parse, Json, Tree};
use crate::payload::response_of;
use crate::records::{
    Chart, ChartView, Data, DataView, Outcome, OutcomeView, ProviderErrorView, Response,
};
use crate::schema::Fault;

verus! {

/// What a body comes to.
pub enum Verdict {
    /// The body holds a record.
    Record(DataView),
    /// The body is no JSON document.
    Unreadable,
    /// The body is a document of another shape than the payload's.
    Misshapen(Fault),
    /// The envelope holds neither records nor an account of a failure, or both.
    Inconsistent,
    /// The envelope holds the provider's account of a failure.
    Reported(ProviderErrorView),
    /// The envelope holds an empty sequence of records.
    Empty,
}

/// The one thing that an envelope holds. With records and an account of a
/// failure both there, or both absent, it holds no one thing; records that
/// are there but empty are none. Of several records the first counts.
pub open spec fn outcome_of(chart: ChartView) -> Result<OutcomeView, Verdict> {
    match (chart.result, chart.error) {
        (None, None) => Err(Verdict::Inconsistent),
        (Some(_), Some(_)) => Err(Verdict::Inconsistent),
        (None, Some(error)) => Ok(OutcomeView::Failure(error)),
        (Some(records), None) => if records.len() == 0 {
            Err(Verdict::Empty)
        } else {
            Ok(OutcomeView::Success(records[0]))
        },
    }
}

/// What an envelope comes to.
pub open spec fn chart_verdict(chart: ChartView) -> Verdict {
    match outcome_of(chart) {
        Ok(OutcomeView::Success(data)) => Verdict::Record(data),
        Ok(OutcomeView::Failure(error)) => Verdict::Reported(error),
        Err(verdict) => verdict,
    }
}

/// What a document comes to.
pub open spec fn tree_verdict(tree: Tree) -> Verdict {
    match response_of(tree) {
        Ok(chart) => chart_verdict(chart),
        Err(fault) => Verdict::Misshapen(fault),
    }
}

/// What a body comes to, given what the parser makes of it.
pub open spec fn body_verdict(parsed: Option<Tree>) -> Verdict {
    match parsed {
        Some(tree) => tree_verdict(tree),
        None => Verdict::Unreadable,
    }
}

/// Whether `result` says what `verdict` says: the record, or the error of
/// the verdict's kind with the verdict's details.
pub open spec fn conveys(result: Result<Data, LoadError>, verdict: Verdict) -> bool {
    match verdict {
        Verdict::Record(data) => result matches Ok(d) && d@ == data,
        Verdict::Unreadable => result matches Err(
            LoadError::MalformedPayload { diagnostic: Diagnostic::Syntax { .. } },
        ),
        Verdict::Misshapen(fault) => result matches Err(
            LoadError::MalformedPayload { diagnostic: Diagnostic::Schema { fault: f } },
        ) && f == fault,
        Verdict::Inconsistent => result matches Err(LoadError::InternalInconsistency),
        Verdict::Reported(error) => result matches Err(
            LoadError::ProviderReportedFailure { code, description },
        ) && code@ == error.code && description@ == error.description,
        Verdict::Empty => result matches Err(LoadError::UnexpectedEmptyResult),
    }
}

/// A result says one thing only: the kinds of failure stay apart, and with
/// them the details that each carries.
pub proof fn lemma_conveys_one_verdict(result: Result<Data, LoadError>, first: Verdict, second: Verdict)
    requires
        conveys(result, first),
        conveys(result, second),
    ensures
        first == second,
{
    match (first, second) {
        (Verdict::Reported(a), Verdict::Reported(b)) => {
            assert(a.code == b.code && a.description == b.description);
        },
        _ => {},
    }
}

impl Chart {
    /// Turns the envelope into the one thing that it holds.
    pub fn into_outcome(self) -> (outcome: Result<Outcome, LoadError>)
        ensures
            match outcome_of(self@) {
                Ok(o) => outcome matches Ok(x) && x@ == o,
                Err(Verdict::Empty) => outcome matches Err(LoadError::UnexpectedEmptyResult),
                Err(_) => outcome matches Err(LoadError::InternalInconsistency),
            },
            self.wf() ==> (outcome matches Ok(Outcome::Success(data)) ==> data.wf()),
    {
        match (self.result, self.error) {
            (None, None) => Err(LoadError::InternalInconsistency),
            (Some(_), Some(_)) => Err(LoadError::InternalInconsistency),
            (None, Some(error)) => Ok(Outcome::Failure(error)),
            (Some(records), None) => {
                if records.len() == 0 {
                    Err(LoadError::UnexpectedEmptyResult)
                } else {
                    let mut records = records;
                    let first = records.swap_remove(0);
                    Ok(Outcome::Success(first))
                }
            },
        }
    }
}

impl Outcome {
    /// The record, or the error that carries the provider's account.
    pub fn into_result(self) -> (result: Result<Data, LoadError>)
        ensures
            match self@ {
                OutcomeView::Success(data) => result matches Ok(d) && d@ == data,
                OutcomeView::Failure(error) => result matches Err(
                    LoadError::ProviderReportedFailure { code, description },
                ) && code@ == error.code && description@ == error.description,
            },
            self matches Outcome::Success(data) ==> (result matches Ok(d) && d == data),
    {
        match self {
            Outcome::Success(data) => Ok(data),
            Outcome::Failure(error) => Err(
                LoadError::ProviderReportedFailure {
                    code: error.code,
                    description: error.description,
                },
            ),
        }
    }
}

/// Judges a document: reads it as the body of an answer and settles what
/// its envelope holds.
pub fn judge(json: &Json) -> (result: Result<Data, LoadError>)
    ensures
        conveys(result, tree_verdict(json@)),
        result matches Ok(data) ==> data.wf(),
{
    match Response::decode(json) {
        Err(fault) => Err(LoadError::MalformedPayload { diagnostic: Diagnostic::Schema { fault } }),
        Ok(response) => match response.chart.into_outcome() {
            Err(error) => Err(error),
            Ok(outcome) => outcome.into_result(),
        },
    }
}

/// Interprets the body of an answer that came with a status of success.
///
/// The record comes back exactly where the body is a document of the
/// payload's shape whose envelope holds records alone, and at least one.
/// Every other body gives the error of its kind.
pub fn interpret(body: &str) -> (result: Result<Data, LoadError>)
    ensures
        conveys(result, body_verdict(document(body@))),
        result matches Ok(data) ==> data.wf(),
{
    match parse(body) {
        Err(message) => Err(
            LoadError::MalformedPayload { diagnostic: Diagnostic::Syntax { message } },
        ),
        Ok(json) => judge(&json),
    }
}

} // verus!
