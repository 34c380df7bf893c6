//! The records of a chart payload, and their mathematical models.

use vstd::prelude::*;
use crate::instant::is_instant;
use crate::json::Real;

verus! {

/// What a chart says of its instrument.
#[derive(Clone, Debug, PartialEq, Eq)]
pub struct Meta {
    pub symbol: String,
    /// The first trade, in seconds since the epoch.
    pub first_trade_date: i64,
    /// The price now, as the double that the provider's number reads as.
    pub current_price: Real,
    /// The close before the chart begins, as a double too.
    pub previous_close: Real,
}

/// One block of quotes: a value per sample in each sequence, or nothing where
/// the provider had none.
#[derive(Clone, Debug, PartialEq, Eq)]
pub struct OHLCV {
    pub opens: Vec<Option<Real>>,
    pub highs: Vec<Option<Real>>,
    pub lows: Vec<Option<Real>>,
    pub closes: Vec<Option<Real>>,
    pub volumes: Vec<Option<u64>>,
}

/// One block of adjusted closes.
#[derive(Clone, Debug, PartialEq, Eq)]
pub struct AdjustedClose {
    pub adjusted_closes: Vec<Option<Real>>,
}

/// The blocks of a chart.
#[derive(Clone, Debug, PartialEq, Eq)]
pub struct Indicators {
    pub quotes: Vec<OHLCV>,
    pub adjusted_closes: Vec<AdjustedClose>,
}

/// The chart of one instrument: the record that a load returns.
#[derive(Clone, Debug, PartialEq, Eq)]
pub struct Data {
    pub meta: Meta,
    /// One per sample, in seconds since the epoch.
    pub timestamps: Vec<i64>,
    pub indicators: Indicators,
}

/// The provider's own account of a failure.
#[derive(Clone, Debug, PartialEq, Eq)]
pub struct ProviderError {
    pub code: String,
    pub description: String,
}

/// The inner envelope, as the provider sends it: each part may be absent.
#[derive(Clone, Debug, PartialEq, Eq)]
pub struct Chart {
    pub result: Option<Vec<Data>>,
    pub error: Option<ProviderError>,
}

/// The body of an answer.
#[derive(Clone, Debug, PartialEq, Eq)]
pub struct Response {
    pub chart: Chart,
}

/// What an envelope comes to once it is known to hold one thing only.
#[derive(Clone, Debug, PartialEq, Eq)]
pub enum Outcome {
    Success(Data),
    Failure(ProviderError),
}

pub struct MetaView {
    pub symbol: Seq<char>,
    pub first_trade_date: i64,
    pub current_price: Real,
    pub previous_close: Real,
}

pub struct OHLCVView {
    pub opens: Seq<Option<Real>>,
    pub highs: Seq<Option<Real>>,
    pub lows: Seq<Option<Real>>,
    pub closes: Seq<Option<Real>>,
    pub volumes: Seq<Option<u64>>,
}

pub struct AdjustedCloseView {
    pub adjusted_closes: Seq<Option<Real>>,
}

pub struct IndicatorsView {
    pub quotes: Seq<OHLCVView>,
    pub adjusted_closes: Seq<AdjustedCloseView>,
}

pub struct DataView {
    pub meta: MetaView,
    pub timestamps: Seq<i64>,
    pub indicators: IndicatorsView,
}

pub struct ProviderErrorView {
    pub code: Seq<char>,
    pub description: Seq<char>,
}

pub struct ChartView {
    pub result: Option<Seq<DataView>>,
    pub error: Option<ProviderErrorView>,
}

pub enum OutcomeView {
    Success(DataView),
    Failure(ProviderErrorView),
}

/// The models of the records of a sequence, in their order.
pub open spec fn views<T: View>(records: Vec<T>) -> Seq<T::V> {
    Seq::new(records.len() as nat, |i: int| records[i]@)
}

impl View for Meta {
    type V = MetaView;

    open spec fn view(&self) -> MetaView {
        MetaView {
            symbol: self.symbol@,
            first_trade_date: self.first_trade_date,
            current_price: self.current_price,
            previous_close: self.previous_close,
        }
    }
}

impl View for OHLCV {
    type V = OHLCVView;

    open spec fn view(&self) -> OHLCVView {
        OHLCVView {
            opens: self.opens@,
            highs: self.highs@,
            lows: self.lows@,
            closes: self.closes@,
            volumes: self.volumes@,
        }
    }
}

impl View for AdjustedClose {
    type V = AdjustedCloseView;

    open spec fn view(&self) -> AdjustedCloseView {
        AdjustedCloseView { adjusted_closes: self.adjusted_closes@ }
    }
}

impl View for Indicators {
    type V = IndicatorsView;

    open spec fn view(&self) -> IndicatorsView {
        IndicatorsView {
            quotes: views(self.quotes),
            adjusted_closes: views(self.adjusted_closes),
        }
    }
}

impl View for Data {
    type V = DataView;

    open spec fn view(&self) -> DataView {
        DataView { meta: self.meta@, timestamps: self.timestamps@, indicators: self.indicators@ }
    }
}

impl View for ProviderError {
    type V = ProviderErrorView;

    open spec fn view(&self) -> ProviderErrorView {
        ProviderErrorView { code: self.code@, description: self.description@ }
    }
}

impl View for Chart {
    type V = ChartView;

    open spec fn view(&self) -> ChartView {
        ChartView {
            result: match self.result {
                Some(records) => Some(views(records)),
                None => None,
            },
            error: match self.error {
                Some(error) => Some(error@),
                None => None,
            },
        }
    }
}

impl View for Outcome {
    type V = OutcomeView;

    open spec fn view(&self) -> OutcomeView {
        match self {
            Outcome::Success(data) => OutcomeView::Success(data@),
            Outcome::Failure(error) => OutcomeView::Failure(error@),
        }
    }
}

impl MetaView {
    /// The first trade is an instant that the calendar can show.
    pub open spec fn wf(self) -> bool {
        is_instant(self.first_trade_date)
    }
}

impl DataView {
    /// The record's parts are well formed.
    pub open spec fn wf(self) -> bool {
        self.meta.wf()
    }
}

impl Meta {
    /// The first trade is an instant that the calendar can show.
    pub open spec fn wf(&self) -> bool {
        self@.wf()
    }
}

impl Data {
    /// The record's parts are well formed.
    pub open spec fn wf(&self) -> bool {
        self@.wf()
    }
}

impl Chart {
    /// Each record of the envelope is well formed.
    pub open spec fn wf(&self) -> bool {
        self.result matches Some(records) ==> forall|k: int|
            0 <= k < records.len() ==> (#[trigger] records[k]).wf()
    }
}

} // verus!
