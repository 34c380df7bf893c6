//! The field table of the chart payload: for each field of a record the key
//! under which a document holds it, and what its absence means.

use vstd::prelude::*;

verus! {

/// A field of one of the chart records.
#[derive(Clone, Copy, Debug, PartialEq, Eq)]
pub enum Field {
    /// The envelope's only member.
    Chart,
    /// The records of a successful answer.
    Result,
    /// The provider's own account of a failure.
    Error,
    Code,
    Description,
    Meta,
    Symbol,
    FirstTradeDate,
    CurrentPrice,
    PreviousClose,
    Timestamps,
    Indicators,
    Quotes,
    Opens,
    Highs,
    Lows,
    Closes,
    Volumes,
    /// The blocks of adjusted closes, a member of the indicators.
    AdjustedCloseBlocks,
    /// The adjusted closes themselves, a member of one block.
    AdjustedCloses,
}

/// What a record makes of a field whose member is absent from the document.
#[derive(Clone, Copy, Debug, PartialEq, Eq)]
pub enum Absence {
    /// The document is rejected.
    Rejected,
    /// The field is an empty sequence.
    Empty,
    /// The field is there as nothing.
    Nothing,
}

/// Why a document is no chart payload.
#[derive(Clone, Copy, Debug, PartialEq, Eq)]
pub enum Fault {
    /// The document is not an object.
    Root,
    /// The member of a field that must be there is absent.
    Missing(Field),
    /// The value found for a field has not the shape of that field.
    Mismatch(Field),
}

impl Field {
    /// The key of the member that holds this field.
    pub open spec fn spec_key(self) -> Seq<char> {
        match self {
            Field::Chart => "chart"@,
            Field::Result => "result"@,
            Field::Error => "error"@,
            Field::Code => "code"@,
            Field::Description => "description"@,
            Field::Meta => "meta"@,
            Field::Symbol => "symbol"@,
            Field::FirstTradeDate => "firstTradeDate"@,
            Field::CurrentPrice => "regularMarketPrice"@,
            Field::PreviousClose => "chartPreviousClose"@,
            Field::Timestamps => "timestamp"@,
            Field::Indicators => "indicators"@,
            Field::Quotes => "quote"@,
            Field::Opens => "open"@,
            Field::Highs => "high"@,
            Field::Lows => "low"@,
            Field::Closes => "close"@,
            Field::Volumes => "volume"@,
            Field::AdjustedCloseBlocks => "adjclose"@,
            Field::AdjustedCloses => "adjclose"@,
        }
    }

    /// The key of the member that holds this field.
    pub fn key(&self) -> (key: &'static str)
        ensures
            key@ == self.spec_key(),
    {
        match self {
            Field::Chart => "chart",
            Field::Result => "result",
            Field::Error => "error",
            Field::Code => "code",
            Field::Description => "description",
            Field::Meta => "meta",
            Field::Symbol => "symbol",
            Field::FirstTradeDate => "firstTradeDate",
            Field::CurrentPrice => "regularMarketPrice",
            Field::PreviousClose => "chartPreviousClose",
            Field::Timestamps => "timestamp",
            Field::Indicators => "indicators",
            Field::Quotes => "quote",
            Field::Opens => "open",
            Field::Highs => "high",
            Field::Lows => "low",
            Field::Closes => "close",
            Field::Volumes => "volume",
            Field::AdjustedCloseBlocks => "adjclose",
            Field::AdjustedCloses => "adjclose",
        }
    }

    /// What the absence of this field's member means.
    pub open spec fn spec_absence(self) -> Absence {
        match self {
            Field::Result | Field::Error => Absence::Nothing,
            Field::Timestamps
            | Field::Quotes
            | Field::Opens
            | Field::Highs
            | Field::Lows
            | Field::Closes
            | Field::Volumes
            | Field::AdjustedCloseBlocks
            | Field::AdjustedCloses => Absence::Empty,
            _ => Absence::Rejected,
        }
    }

    /// What the absence of this field's member means.
    pub fn absence(&self) -> (policy: Absence)
        ensures
            policy == self.spec_absence(),
    {
        match self {
            Field::Result | Field::Error => Absence::Nothing,
            Field::Timestamps
            | Field::Quotes
            | Field::Opens
            | Field::Highs
            | Field::Lows
            | Field::Closes
            | Field::Volumes
            | Field::AdjustedCloseBlocks
            | Field::AdjustedCloses => Absence::Empty,
            _ => Absence::Rejected,
        }
    }
}

} // verus!
