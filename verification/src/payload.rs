//! The chart payload: what each record is in a document, and the decoders
//! that read it.

use vstd::prelude::*;
use crate::decode::{
    count_series, instant_field, locate, read_count_series, read_instant_field, read_real_field,
    read_real_series, read_seconds_series, read_text_field, real_field, real_series,
    seconds_series, text_field, find_field,
};
use crate::json::{lemma_array_view, Json, Tree};
use crate::records::{
    views, AdjustedClose, AdjustedCloseView, Chart, ChartView, Data, DataView, Indicators,
    IndicatorsView, Meta, MetaView, ProviderError, ProviderErrorView, Response, OHLCV, OHLCVView,
};
use crate::schema::{Fault, Field};

verus! {

/// Whether `i` is the place of the first fault among `readings`.
pub open spec fn is_first_fault<T>(readings: Seq<Result<T, Fault>>, i: int) -> bool {
    &&& 0 <= i < readings.len()
    &&& readings[i] is Err
    &&& forall|j: int| 0 <= j < i ==> (#[trigger] readings[j]) is Ok
}

/// All the readings, or the first fault among them.
pub open spec fn gather<T>(readings: Seq<Result<T, Fault>>) -> Result<Seq<T>, Fault> {
    if exists|i: int| is_first_fault(readings, i) {
        Err(readings[choose|i: int| is_first_fault(readings, i)]->Err_0)
    } else {
        Ok(Seq::new(readings.len(), |i: int| readings[i]->Ok_0))
    }
}

/// A fault with none before it is the one that is reported.
pub proof fn lemma_gather_fault<T>(readings: Seq<Result<T, Fault>>, i: int)
    requires
        is_first_fault(readings, i),
    ensures
        gather(readings) == Err::<Seq<T>, Fault>(readings[i]->Err_0),
{
    let chosen = choose|c: int| is_first_fault(readings, c);
    if i < chosen {
        assert(readings[i] is Ok);
    } else if chosen < i {
        assert(readings[chosen] is Ok);
    }
}

/// Where every reading is there, they are reported in their order.
pub proof fn lemma_gather_all<T>(readings: Seq<Result<T, Fault>>, values: Seq<T>)
    requires
        values.len() == readings.len(),
        forall|k: int| 0 <= k < readings.len() ==> #[trigger] readings[k] == Ok::<T, Fault>(values[k]),
    ensures
        gather(readings) == Ok::<Seq<T>, Fault>(values),
{
    assert forall|c: int| !is_first_fault(readings, c) by {
        if 0 <= c < readings.len() {
            assert(readings[c] is Ok);
        }
    }
    assert(values =~= Seq::new(readings.len(), |i: int| readings[i]->Ok_0));
}

/// A block of quotes: an object whose sequences are each there or empty.
pub open spec fn ohlcv_of(tree: Tree) -> Result<OHLCVView, Fault> {
    if !(tree is Object) {
        Err(Fault::Mismatch(Field::Quotes))
    } else if real_series(tree, Field::Opens) is Err {
        Err(real_series(tree, Field::Opens)->Err_0)
    } else if real_series(tree, Field::Highs) is Err {
        Err(real_series(tree, Field::Highs)->Err_0)
    } else if real_series(tree, Field::Lows) is Err {
        Err(real_series(tree, Field::Lows)->Err_0)
    } else if real_series(tree, Field::Closes) is Err {
        Err(real_series(tree, Field::Closes)->Err_0)
    } else if count_series(tree, Field::Volumes) is Err {
        Err(count_series(tree, Field::Volumes)->Err_0)
    } else {
        Ok(
            OHLCVView {
                opens: real_series(tree, Field::Opens)->Ok_0,
                highs: real_series(tree, Field::Highs)->Ok_0,
                lows: real_series(tree, Field::Lows)->Ok_0,
                closes: real_series(tree, Field::Closes)->Ok_0,
                volumes: count_series(tree, Field::Volumes)->Ok_0,
            },
        )
    }
}

/// A block of adjusted closes.
pub open spec fn adjusted_close_of(tree: Tree) -> Result<AdjustedCloseView, Fault> {
    if !(tree is Object) {
        Err(Fault::Mismatch(Field::AdjustedCloseBlocks))
    } else {
        match real_series(tree, Field::AdjustedCloses) {
            Err(fault) => Err(fault),
            Ok(closes) => Ok(AdjustedCloseView { adjusted_closes: closes }),
        }
    }
}

/// The readings of the items of an array as blocks of quotes.
pub open spec fn ohlcv_readings(items: Seq<Tree>) -> Seq<Result<OHLCVView, Fault>> {
    Seq::new(items.len(), |i: int| ohlcv_of(items[i]))
}

/// The readings of the items of an array as blocks of adjusted closes.
pub open spec fn adjusted_close_readings(items: Seq<Tree>) -> Seq<Result<AdjustedCloseView, Fault>> {
    Seq::new(items.len(), |i: int| adjusted_close_of(items[i]))
}

/// The field of the blocks of quotes.
pub open spec fn quotes_of(object: Tree) -> Result<Seq<OHLCVView>, Fault> {
    match locate(object, Field::Quotes) {
        Err(fault) => Err(fault),
        Ok(None) => Ok(Seq::empty()),
        Ok(Some(Tree::Array(items))) => gather(ohlcv_readings(items)),
        Ok(Some(_)) => Err(Fault::Mismatch(Field::Quotes)),
    }
}

/// The field of the blocks of adjusted closes.
pub open spec fn adjusted_closes_of(object: Tree) -> Result<Seq<AdjustedCloseView>, Fault> {
    match locate(object, Field::AdjustedCloseBlocks) {
        Err(fault) => Err(fault),
        Ok(None) => Ok(Seq::empty()),
        Ok(Some(Tree::Array(items))) => gather(adjusted_close_readings(items)),
        Ok(Some(_)) => Err(Fault::Mismatch(Field::AdjustedCloseBlocks)),
    }
}

/// The blocks of a chart.
pub open spec fn indicators_of(tree: Tree) -> Result<IndicatorsView, Fault> {
    if !(tree is Object) {
        Err(Fault::Mismatch(Field::Indicators))
    } else if quotes_of(tree) is Err {
        Err(quotes_of(tree)->Err_0)
    } else if adjusted_closes_of(tree) is Err {
        Err(adjusted_closes_of(tree)->Err_0)
    } else {
        Ok(
            IndicatorsView {
                quotes: quotes_of(tree)->Ok_0,
                adjusted_closes: adjusted_closes_of(tree)->Ok_0,
            },
        )
    }
}

/// What a chart says of its instrument: each of the four fields must be there.
pub open spec fn meta_of(tree: Tree) -> Result<MetaView, Fault> {
    if !(tree is Object) {
        Err(Fault::Mismatch(Field::Meta))
    } else if text_field(tree, Field::Symbol) is Err {
        Err(text_field(tree, Field::Symbol)->Err_0)
    } else if instant_field(tree, Field::FirstTradeDate) is Err {
        Err(instant_field(tree, Field::FirstTradeDate)->Err_0)
    } else if real_field(tree, Field::CurrentPrice) is Err {
        Err(real_field(tree, Field::CurrentPrice)->Err_0)
    } else if real_field(tree, Field::PreviousClose) is Err {
        Err(real_field(tree, Field::PreviousClose)->Err_0)
    } else {
        Ok(
            MetaView {
                symbol: text_field(tree, Field::Symbol)->Ok_0,
                first_trade_date: instant_field(tree, Field::FirstTradeDate)->Ok_0,
                current_price: real_field(tree, Field::CurrentPrice)->Ok_0,
                previous_close: real_field(tree, Field::PreviousClose)->Ok_0,
            },
        )
    }
}

/// The member of a record that is a record itself: it must be there.
pub open spec fn part(object: Tree, field: Field) -> Result<Tree, Fault> {
    match locate(object, field) {
        Err(fault) => Err(fault),
        Ok(None) => Err(Fault::Missing(field)),
        Ok(Some(value)) => Ok(value),
    }
}

/// The chart of one instrument.
pub open spec fn data_of(tree: Tree) -> Result<DataView, Fault> {
    if !(tree is Object) {
        Err(Fault::Mismatch(Field::Result))
    } else if part(tree, Field::Meta) is Err {
        Err(part(tree, Field::Meta)->Err_0)
    } else if meta_of(part(tree, Field::Meta)->Ok_0) is Err {
        Err(meta_of(part(tree, Field::Meta)->Ok_0)->Err_0)
    } else if seconds_series(tree, Field::Timestamps) is Err {
        Err(seconds_series(tree, Field::Timestamps)->Err_0)
    } else if part(tree, Field::Indicators) is Err {
        Err(part(tree, Field::Indicators)->Err_0)
    } else if indicators_of(part(tree, Field::Indicators)->Ok_0) is Err {
        Err(indicators_of(part(tree, Field::Indicators)->Ok_0)->Err_0)
    } else {
        Ok(
            DataView {
                meta: meta_of(part(tree, Field::Meta)->Ok_0)->Ok_0,
                timestamps: seconds_series(tree, Field::Timestamps)->Ok_0,
                indicators: indicators_of(part(tree, Field::Indicators)->Ok_0)->Ok_0,
            },
        )
    }
}

/// The readings of the items of an array as charts.
pub open spec fn data_readings(items: Seq<Tree>) -> Seq<Result<DataView, Fault>> {
    Seq::new(items.len(), |i: int| data_of(items[i]))
}

/// The provider's account of a failure: a code and a description.
pub open spec fn provider_error_of(tree: Tree) -> Result<ProviderErrorView, Fault> {
    if !(tree is Object) {
        Err(Fault::Mismatch(Field::Error))
    } else if text_field(tree, Field::Code) is Err {
        Err(text_field(tree, Field::Code)->Err_0)
    } else if text_field(tree, Field::Description) is Err {
        Err(text_field(tree, Field::Description)->Err_0)
    } else {
        Ok(
            ProviderErrorView {
                code: text_field(tree, Field::Code)->Ok_0,
                description: text_field(tree, Field::Description)->Ok_0,
            },
        )
    }
}

/// The records of an answer, where it has any: absent and `null` are nothing.
pub open spec fn result_of(object: Tree) -> Result<Option<Seq<DataView>>, Fault> {
    match locate(object, Field::Result) {
        Err(fault) => Err(fault),
        Ok(None) => Ok(None),
        Ok(Some(Tree::Array(items))) => match gather(data_readings(items)) {
            Ok(records) => Ok(Some(records)),
            Err(fault) => Err(fault),
        },
        Ok(Some(_)) => Err(Fault::Mismatch(Field::Result)),
    }
}

/// The account of a failure, where the answer has one: absent and `null` are
/// nothing.
pub open spec fn error_of(object: Tree) -> Result<Option<ProviderErrorView>, Fault> {
    match locate(object, Field::Error) {
        Err(fault) => Err(fault),
        Ok(None) => Ok(None),
        Ok(Some(value)) => match provider_error_of(value) {
            Ok(error) => Ok(Some(error)),
            Err(fault) => Err(fault),
        },
    }
}

/// The inner envelope.
pub open spec fn chart_of(tree: Tree) -> Result<ChartView, Fault> {
    if !(tree is Object) {
        Err(Fault::Mismatch(Field::Chart))
    } else if result_of(tree) is Err {
        Err(result_of(tree)->Err_0)
    } else if error_of(tree) is Err {
        Err(error_of(tree)->Err_0)
    } else {
        Ok(ChartView { result: result_of(tree)->Ok_0, error: error_of(tree)->Ok_0 })
    }
}

/// The body of an answer: an object whose member `chart` is the envelope.
pub open spec fn response_of(tree: Tree) -> Result<ChartView, Fault> {
    if !(tree is Object) {
        Err(Fault::Root)
    } else {
        match part(tree, Field::Chart) {
            Err(fault) => Err(fault),
            Ok(value) => chart_of(value),
        }
    }
}

/// Whether a decoder's outcome is what the model says of the document.
pub open spec fn agrees<T: View>(reading: Result<T, Fault>, model: Result<T::V, Fault>) -> bool {
    match model {
        Ok(m) => reading matches Ok(v) && v@ == m,
        Err(fault) => reading matches Err(f) && f == fault,
    }
}

/// Finds the member of a record that is a record itself.
pub fn find_part<'a>(object: &'a Json, field: Field) -> (found: Result<&'a Json, Fault>)
    ensures
        match part(object@, field) {
            Ok(tree) => found matches Ok(json) && json@ == tree,
            Err(fault) => found matches Err(f) && f == fault,
        },
{
    match find_field(object, field) {
        Err(fault) => Err(fault),
        Ok(None) => Err(Fault::Missing(field)),
        Ok(Some(value)) => Ok(value),
    }
}

impl OHLCV {
    /// Reads a block of quotes.
    pub fn decode(json: &Json) -> (reading: Result<OHLCV, Fault>)
        ensures
            agrees(reading, ohlcv_of(json@)),
    {
        match json {
            Json::Object(_) => {},
            _ => {
                return Err(Fault::Mismatch(Field::Quotes));
            },
        }
        let opens = read_real_series(json, Field::Opens)?;
        let highs = read_real_series(json, Field::Highs)?;
        let lows = read_real_series(json, Field::Lows)?;
        let closes = read_real_series(json, Field::Closes)?;
        let volumes = read_count_series(json, Field::Volumes)?;
        Ok(OHLCV { opens, highs, lows, closes, volumes })
    }
}

impl AdjustedClose {
    /// Reads a block of adjusted closes.
    pub fn decode(json: &Json) -> (reading: Result<AdjustedClose, Fault>)
        ensures
            agrees(reading, adjusted_close_of(json@)),
    {
        match json {
            Json::Object(_) => {},
            _ => {
                return Err(Fault::Mismatch(Field::AdjustedCloseBlocks));
            },
        }
        let adjusted_closes = read_real_series(json, Field::AdjustedCloses)?;
        Ok(AdjustedClose { adjusted_closes })
    }
}

/// Reads the field of the blocks of quotes.
pub fn read_quotes(object: &Json) -> (reading: Result<Vec<OHLCV>, Fault>)
    ensures
        match quotes_of(object@) {
            Ok(s) => reading matches Ok(v) && views(v) == s,
            Err(fault) => reading matches Err(f) && f == fault,
        },
{
    let value = match find_field(object, Field::Quotes) {
        Err(fault) => {
            return Err(fault);
        },
        Ok(None) => {
            let none: Vec<OHLCV> = Vec::new();
            assert(views(none) =~= Seq::<OHLCVView>::empty());
            return Ok(none);
        },
        Ok(Some(value)) => value,
    };
    match value {
        Json::Array(items) => {
            proof {
                lemma_array_view(*value);
            }
            let ghost model = value@->Array_0;
            let ghost readings = ohlcv_readings(model);
            let mut out: Vec<OHLCV> = Vec::new();
            let mut i: usize = 0;
            while i < items.len()
                invariant
                    i <= items.len(),
                    model.len() == items.len(),
                    locate(object@, Field::Quotes) == Ok::<Option<Tree>, Fault>(Some(Tree::Array(model))),
                    readings == ohlcv_readings(model),
                    forall|k: int| 0 <= k < items.len() ==> model[k] == #[trigger] items[k]@,
                    out.len() == i,
                    forall|k: int| 0 <= k < i ==> #[trigger] readings[k] == Ok::<OHLCVView, Fault>(out[k]@),
                decreases items.len() - i,
            {
                match OHLCV::decode(&items[i]) {
                    Ok(record) => out.push(record),
                    Err(fault) => {
                        proof {
                            assert(readings[i as int] == Err::<OHLCVView, Fault>(fault));
                            lemma_gather_fault(readings, i as int);
                        }
                        return Err(fault);
                    },
                }
                i += 1;
            }
            proof {
                lemma_gather_all(readings, views(out));
            }
            Ok(out)
        },
        _ => Err(Fault::Mismatch(Field::Quotes)),
    }
}

/// Reads the field of the blocks of adjusted closes.
pub fn read_adjusted_closes(object: &Json) -> (reading: Result<Vec<AdjustedClose>, Fault>)
    ensures
        match adjusted_closes_of(object@) {
            Ok(s) => reading matches Ok(v) && views(v) == s,
            Err(fault) => reading matches Err(f) && f == fault,
        },
{
    let value = match find_field(object, Field::AdjustedCloseBlocks) {
        Err(fault) => {
            return Err(fault);
        },
        Ok(None) => {
            let none: Vec<AdjustedClose> = Vec::new();
            assert(views(none) =~= Seq::<AdjustedCloseView>::empty());
            return Ok(none);
        },
        Ok(Some(value)) => value,
    };
    match value {
        Json::Array(items) => {
            proof {
                lemma_array_view(*value);
            }
            let ghost model = value@->Array_0;
            let ghost readings = adjusted_close_readings(model);
            let mut out: Vec<AdjustedClose> = Vec::new();
            let mut i: usize = 0;
            while i < items.len()
                invariant
                    i <= items.len(),
                    model.len() == items.len(),
                    locate(object@, Field::AdjustedCloseBlocks) == Ok::<Option<Tree>, Fault>(Some(Tree::Array(model))),
                    readings == adjusted_close_readings(model),
                    forall|k: int| 0 <= k < items.len() ==> model[k] == #[trigger] items[k]@,
                    out.len() == i,
                    forall|k: int| 0 <= k < i ==> #[trigger] readings[k] == Ok::<AdjustedCloseView, Fault>(out[k]@),
                decreases items.len() - i,
            {
                match AdjustedClose::decode(&items[i]) {
                    Ok(record) => out.push(record),
                    Err(fault) => {
                        proof {
                            assert(readings[i as int] == Err::<AdjustedCloseView, Fault>(fault));
                            lemma_gather_fault(readings, i as int);
                        }
                        return Err(fault);
                    },
                }
                i += 1;
            }
            proof {
                lemma_gather_all(readings, views(out));
            }
            Ok(out)
        },
        _ => Err(Fault::Mismatch(Field::AdjustedCloseBlocks)),
    }
}

impl Indicators {
    /// Reads the blocks of a chart.
    pub fn decode(json: &Json) -> (reading: Result<Indicators, Fault>)
        ensures
            agrees(reading, indicators_of(json@)),
    {
        match json {
            Json::Object(_) => {},
            _ => {
                return Err(Fault::Mismatch(Field::Indicators));
            },
        }
        let quotes = read_quotes(json)?;
        let adjusted_closes = read_adjusted_closes(json)?;
        Ok(Indicators { quotes, adjusted_closes })
    }
}

impl Meta {
    /// Reads what a chart says of its instrument.
    pub fn decode(json: &Json) -> (reading: Result<Meta, Fault>)
        ensures
            agrees(reading, meta_of(json@)),
            reading matches Ok(meta) ==> meta.wf(),
    {
        match json {
            Json::Object(_) => {},
            _ => {
                return Err(Fault::Mismatch(Field::Meta));
            },
        }
        let symbol = read_text_field(json, Field::Symbol)?;
        let first_trade_date = read_instant_field(json, Field::FirstTradeDate)?;
        let current_price = read_real_field(json, Field::CurrentPrice)?;
        let previous_close = read_real_field(json, Field::PreviousClose)?;
        Ok(Meta { symbol, first_trade_date, current_price, previous_close })
    }
}

impl Data {
    /// Reads the chart of one instrument.
    pub fn decode(json: &Json) -> (reading: Result<Data, Fault>)
        ensures
            agrees(reading, data_of(json@)),
            reading matches Ok(data) ==> data.wf(),
    {
        match json {
            Json::Object(_) => {},
            _ => {
                return Err(Fault::Mismatch(Field::Result));
            },
        }
        let meta = Meta::decode(find_part(json, Field::Meta)?)?;
        let timestamps = read_seconds_series(json, Field::Timestamps)?;
        let indicators = Indicators::decode(find_part(json, Field::Indicators)?)?;
        Ok(Data { meta, timestamps, indicators })
    }
}

impl ProviderError {
    /// Reads the provider's account of a failure.
    pub fn decode(json: &Json) -> (reading: Result<ProviderError, Fault>)
        ensures
            agrees(reading, provider_error_of(json@)),
    {
        match json {
            Json::Object(_) => {},
            _ => {
                return Err(Fault::Mismatch(Field::Error));
            },
        }
        let code = read_text_field(json, Field::Code)?;
        let description = read_text_field(json, Field::Description)?;
        Ok(ProviderError { code, description })
    }
}

/// Reads the records of an answer, where it has any.
pub fn read_result(object: &Json) -> (reading: Result<Option<Vec<Data>>, Fault>)
    ensures
        match result_of(object@) {
            Ok(Some(s)) => reading matches Ok(Some(v)) && views(v) == s,
            Ok(None) => reading matches Ok(None),
            Err(fault) => reading matches Err(f) && f == fault,
        },
        reading matches Ok(Some(v)) ==> forall|k: int| 0 <= k < v.len() ==> (#[trigger] v[k]).wf(),
{
    let value = match find_field(object, Field::Result) {
        Err(fault) => {
            return Err(fault);
        },
        Ok(None) => {
            return Ok(None);
        },
        Ok(Some(value)) => value,
    };
    match value {
        Json::Array(items) => {
            proof {
                lemma_array_view(*value);
            }
            let ghost model = value@->Array_0;
            let ghost readings = data_readings(model);
            let mut out: Vec<Data> = Vec::new();
            let mut i: usize = 0;
            while i < items.len()
                invariant
                    i <= items.len(),
                    model.len() == items.len(),
                    locate(object@, Field::Result) == Ok::<Option<Tree>, Fault>(Some(Tree::Array(model))),
                    readings == data_readings(model),
                    forall|k: int| 0 <= k < items.len() ==> model[k] == #[trigger] items[k]@,
                    out.len() == i,
                    forall|k: int| 0 <= k < i ==> #[trigger] readings[k] == Ok::<DataView, Fault>(out[k]@),
                    forall|k: int| 0 <= k < i ==> (#[trigger] out[k]).wf(),
                decreases items.len() - i,
            {
                match Data::decode(&items[i]) {
                    Ok(record) => out.push(record),
                    Err(fault) => {
                        proof {
                            assert(readings[i as int] == Err::<DataView, Fault>(fault));
                            lemma_gather_fault(readings, i as int);
                        }
                        return Err(fault);
                    },
                }
                i += 1;
            }
            proof {
                lemma_gather_all(readings, views(out));
            }
            Ok(Some(out))
        },
        _ => Err(Fault::Mismatch(Field::Result)),
    }
}

/// Reads the account of a failure, where the answer has one.
pub fn read_error(object: &Json) -> (reading: Result<Option<ProviderError>, Fault>)
    ensures
        match error_of(object@) {
            Ok(Some(e)) => reading matches Ok(Some(v)) && v@ == e,
            Ok(None) => reading matches Ok(None),
            Err(fault) => reading matches Err(f) && f == fault,
        },
{
    match find_field(object, Field::Error)? {
        None => Ok(None),
        Some(value) => Ok(Some(ProviderError::decode(value)?)),
    }
}

impl Chart {
    /// Reads the inner envelope.
    pub fn decode(json: &Json) -> (reading: Result<Chart, Fault>)
        ensures
            agrees(reading, chart_of(json@)),
            reading matches Ok(chart) ==> chart.wf(),
    {
        match json {
            Json::Object(_) => {},
            _ => {
                return Err(Fault::Mismatch(Field::Chart));
            },
        }
        let result = read_result(json)?;
        let error = read_error(json)?;
        Ok(Chart { result, error })
    }
}

impl Response {
    /// Reads the body of an answer.
    pub fn decode(json: &Json) -> (reading: Result<Response, Fault>)
        ensures
            match response_of(json@) {
                Ok(chart) => reading matches Ok(response) && response.chart@ == chart,
                Err(fault) => reading matches Err(f) && f == fault,
            },
            reading matches Ok(response) ==> response.chart.wf(),
    {
        match json {
            Json::Object(_) => {},
            _ => {
                return Err(Fault::Root);
            },
        }
        let chart = Chart::decode(find_part(json, Field::Chart)?)?;
        Ok(Response { chart })
    }
}

} // verus!
