//! The document that holds a given record, and the law that reading it
//! gives the record back.

use vstd::prelude::*;
use crate::decode::{
    count_array, count_series, instant_field, optional_count, optional_real, real_array,
    real_field, real_series, seconds, seconds_array, seconds_series, text_field,
};
use crate::json::{lemma_lookup_at, Number, Real, Tree};
use crate::payload::{
    adjusted_close_of, adjusted_close_readings, adjusted_closes_of, data_of, data_readings,
    error_of, indicators_of, lemma_gather_all, meta_of, ohlcv_of, ohlcv_readings, part,
    provider_error_of, quotes_of, response_of, result_of,
};
use crate::records::{
    AdjustedCloseView, ChartView, DataView, IndicatorsView, MetaView, OHLCVView,
    ProviderErrorView,
};
use crate::schema::{Fault, Field};
use crate::verdict::{chart_verdict, tree_verdict, Verdict};

verus! {

/// The member that holds `field` with the value `value`.
pub open spec fn entry(field: Field, value: Tree) -> (Seq<char>, Tree) {
    (field.spec_key(), value)
}

/// A double, as a number of a document.
pub open spec fn real_tree(x: Real) -> Tree {
    Tree::Number(Number { unsigned: None, signed: None, real: Some(x) })
}

/// A number of seconds, as a number of a document.
pub open spec fn seconds_tree(s: i64) -> Tree {
    Tree::Number(
        Number {
            unsigned: if s >= 0 {
                Some(s as u64)
            } else {
                None
            },
            signed: Some(s),
            real: None,
        },
    )
}

/// A double or a gap.
pub open spec fn optional_real_tree(x: Option<Real>) -> Tree {
    match x {
        Some(r) => real_tree(r),
        None => Tree::Null,
    }
}

/// A count or a gap.
pub open spec fn optional_count_tree(x: Option<u64>) -> Tree {
    match x {
        Some(c) => Tree::Number(
            Number {
                unsigned: Some(c),
                signed: if c <= i64::MAX {
                    Some(c as i64)
                } else {
                    None
                },
                real: None,
            },
        ),
        None => Tree::Null,
    }
}

/// A sequence of doubles and gaps, as an array.
pub open spec fn real_series_tree(series: Seq<Option<Real>>) -> Tree {
    Tree::Array(Seq::new(series.len(), |i: int| optional_real_tree(series[i])))
}

/// A sequence of counts and gaps, as an array.
pub open spec fn count_series_tree(series: Seq<Option<u64>>) -> Tree {
    Tree::Array(Seq::new(series.len(), |i: int| optional_count_tree(series[i])))
}

/// A sequence of numbers of seconds, as an array.
pub open spec fn seconds_series_tree(series: Seq<i64>) -> Tree {
    Tree::Array(Seq::new(series.len(), |i: int| seconds_tree(series[i])))
}

/// A block of quotes, as an object.
pub open spec fn ohlcv_tree(block: OHLCVView) -> Tree {
    Tree::Object(
        seq![
            entry(Field::Opens, real_series_tree(block.opens)),
            entry(Field::Highs, real_series_tree(block.highs)),
            entry(Field::Lows, real_series_tree(block.lows)),
            entry(Field::Closes, real_series_tree(block.closes)),
            entry(Field::Volumes, count_series_tree(block.volumes)),
        ],
    )
}

/// A block of adjusted closes, as an object.
pub open spec fn adjusted_close_tree(block: AdjustedCloseView) -> Tree {
    Tree::Object(seq![entry(Field::AdjustedCloses, real_series_tree(block.adjusted_closes))])
}

/// The blocks of a chart, as an object.
pub open spec fn indicators_tree(indicators: IndicatorsView) -> Tree {
    Tree::Object(
        seq![
            entry(
                Field::Quotes,
                Tree::Array(
                    Seq::new(indicators.quotes.len(), |i: int| ohlcv_tree(indicators.quotes[i])),
                ),
            ),
            entry(
                Field::AdjustedCloseBlocks,
                Tree::Array(
                    Seq::new(
                        indicators.adjusted_closes.len(),
                        |i: int| adjusted_close_tree(indicators.adjusted_closes[i]),
                    ),
                ),
            ),
        ],
    )
}

/// What a chart says of its instrument, as an object.
pub open spec fn meta_tree(meta: MetaView) -> Tree {
    Tree::Object(
        seq![
            entry(Field::Symbol, Tree::Text(meta.symbol)),
            entry(Field::FirstTradeDate, seconds_tree(meta.first_trade_date)),
            entry(Field::CurrentPrice, real_tree(meta.current_price)),
            entry(Field::PreviousClose, real_tree(meta.previous_close)),
        ],
    )
}

/// The chart of one instrument, as an object.
pub open spec fn data_tree(data: DataView) -> Tree {
    Tree::Object(
        seq![
            entry(Field::Meta, meta_tree(data.meta)),
            entry(Field::Timestamps, seconds_series_tree(data.timestamps)),
            entry(Field::Indicators, indicators_tree(data.indicators)),
        ],
    )
}

/// The account of a failure, as an object.
pub open spec fn provider_error_tree(error: ProviderErrorView) -> Tree {
    Tree::Object(
        seq![
            entry(Field::Code, Tree::Text(error.code)),
            entry(Field::Description, Tree::Text(error.description)),
        ],
    )
}

/// The body of an answer whose envelope holds the given parts; a part that
/// is nothing is written as `null`.
pub open spec fn response_tree(chart: ChartView) -> Tree {
    Tree::Object(
        seq![
            entry(
                Field::Chart,
                Tree::Object(
                    seq![
                        entry(
                            Field::Result,
                            match chart.result {
                                Some(records) => Tree::Array(
                                    Seq::new(records.len(), |i: int| data_tree(records[i])),
                                ),
                                None => Tree::Null,
                            },
                        ),
                        entry(
                            Field::Error,
                            match chart.error {
                                Some(error) => provider_error_tree(error),
                                None => Tree::Null,
                            },
                        ),
                    ],
                ),
            ),
        ],
    )
}

/// Two texts that differ in one place are not the same text.
proof fn lemma_differ(a: Seq<char>, b: Seq<char>, i: int)
    requires
        0 <= i < a.len(),
        i < b.len(),
        a[i] != b[i],
    ensures
        a != b,
{
}

/// The keys of the fields of one record are all different.
pub proof fn lemma_keys_differ()
    ensures
        Field::Opens.spec_key() != Field::Highs.spec_key(),
        Field::Opens.spec_key() != Field::Lows.spec_key(),
        Field::Opens.spec_key() != Field::Closes.spec_key(),
        Field::Opens.spec_key() != Field::Volumes.spec_key(),
        Field::Highs.spec_key() != Field::Lows.spec_key(),
        Field::Highs.spec_key() != Field::Closes.spec_key(),
        Field::Highs.spec_key() != Field::Volumes.spec_key(),
        Field::Lows.spec_key() != Field::Closes.spec_key(),
        Field::Lows.spec_key() != Field::Volumes.spec_key(),
        Field::Closes.spec_key() != Field::Volumes.spec_key(),
        Field::Quotes.spec_key() != Field::AdjustedCloseBlocks.spec_key(),
        Field::Symbol.spec_key() != Field::FirstTradeDate.spec_key(),
        Field::Symbol.spec_key() != Field::CurrentPrice.spec_key(),
        Field::Symbol.spec_key() != Field::PreviousClose.spec_key(),
        Field::FirstTradeDate.spec_key() != Field::CurrentPrice.spec_key(),
        Field::FirstTradeDate.spec_key() != Field::PreviousClose.spec_key(),
        Field::CurrentPrice.spec_key() != Field::PreviousClose.spec_key(),
        Field::Meta.spec_key() != Field::Timestamps.spec_key(),
        Field::Meta.spec_key() != Field::Indicators.spec_key(),
        Field::Timestamps.spec_key() != Field::Indicators.spec_key(),
        Field::Code.spec_key() != Field::Description.spec_key(),
        Field::Result.spec_key() != Field::Error.spec_key(),
{
    reveal_strlit("open");
    reveal_strlit("high");
    reveal_strlit("low");
    reveal_strlit("close");
    reveal_strlit("volume");
    reveal_strlit("quote");
    reveal_strlit("adjclose");
    reveal_strlit("symbol");
    reveal_strlit("firstTradeDate");
    reveal_strlit("regularMarketPrice");
    reveal_strlit("chartPreviousClose");
    reveal_strlit("meta");
    reveal_strlit("timestamp");
    reveal_strlit("indicators");
    reveal_strlit("code");
    reveal_strlit("description");
    reveal_strlit("result");
    reveal_strlit("error");
    lemma_differ("open"@, "high"@, 0);
    lemma_differ("open"@, "low"@, 0);
    lemma_differ("open"@, "close"@, 0);
    lemma_differ("open"@, "volume"@, 0);
    lemma_differ("high"@, "low"@, 0);
    lemma_differ("high"@, "close"@, 0);
    lemma_differ("high"@, "volume"@, 0);
    lemma_differ("low"@, "close"@, 0);
    lemma_differ("low"@, "volume"@, 0);
    lemma_differ("close"@, "volume"@, 0);
    lemma_differ("quote"@, "adjclose"@, 0);
    lemma_differ("symbol"@, "firstTradeDate"@, 0);
    lemma_differ("symbol"@, "regularMarketPrice"@, 0);
    lemma_differ("symbol"@, "chartPreviousClose"@, 0);
    lemma_differ("firstTradeDate"@, "regularMarketPrice"@, 0);
    lemma_differ("firstTradeDate"@, "chartPreviousClose"@, 0);
    lemma_differ("regularMarketPrice"@, "chartPreviousClose"@, 0);
    lemma_differ("meta"@, "timestamp"@, 0);
    lemma_differ("meta"@, "indicators"@, 0);
    lemma_differ("timestamp"@, "indicators"@, 0);
    lemma_differ("code"@, "description"@, 0);
    lemma_differ("result"@, "error"@, 0);
}

/// An array of doubles and gaps is read back as it was written.
pub proof fn lemma_real_series_reads_back(series: Seq<Option<Real>>)
    ensures
        real_array(real_series_tree(series)) == Some(series),
{
    let items = real_series_tree(series)->Array_0;
    assert forall|i: int| 0 <= i < items.len() implies (#[trigger] optional_real(items[i]))
        == Some(series[i]) by {}
    assert(real_array(real_series_tree(series)) is Some);
    assert(real_array(real_series_tree(series)).unwrap() =~= series);
}

/// An array of counts and gaps is read back as it was written.
pub proof fn lemma_count_series_reads_back(series: Seq<Option<u64>>)
    ensures
        count_array(count_series_tree(series)) == Some(series),
{
    let items = count_series_tree(series)->Array_0;
    assert forall|i: int| 0 <= i < items.len() implies (#[trigger] optional_count(items[i]))
        == Some(series[i]) by {}
    assert(count_array(count_series_tree(series)) is Some);
    assert(count_array(count_series_tree(series)).unwrap() =~= series);
}

/// An array of numbers of seconds is read back as it was written.
pub proof fn lemma_seconds_series_reads_back(series: Seq<i64>)
    ensures
        seconds_array(seconds_series_tree(series)) == Some(series),
{
    let items = seconds_series_tree(series)->Array_0;
    assert forall|i: int| 0 <= i < items.len() implies (#[trigger] seconds(items[i])) == Some(
        series[i],
    ) by {}
    assert(seconds_array(seconds_series_tree(series)) is Some);
    assert(seconds_array(seconds_series_tree(series)).unwrap() =~= series);
}

/// A block of quotes is read back as it was written.
pub proof fn lemma_ohlcv_reads_back(block: OHLCVView)
    ensures
        ohlcv_of(ohlcv_tree(block)) == Ok::<OHLCVView, Fault>(block),
{
    let tree = ohlcv_tree(block);
    let members = tree->Object_0;
    lemma_keys_differ();
    lemma_lookup_at(members, Field::Opens.spec_key(), 0);
    lemma_lookup_at(members, Field::Highs.spec_key(), 1);
    lemma_lookup_at(members, Field::Lows.spec_key(), 2);
    lemma_lookup_at(members, Field::Closes.spec_key(), 3);
    lemma_lookup_at(members, Field::Volumes.spec_key(), 4);
    lemma_real_series_reads_back(block.opens);
    lemma_real_series_reads_back(block.highs);
    lemma_real_series_reads_back(block.lows);
    lemma_real_series_reads_back(block.closes);
    lemma_count_series_reads_back(block.volumes);
    assert(real_series(tree, Field::Opens) == Ok::<Seq<Option<Real>>, Fault>(block.opens));
    assert(real_series(tree, Field::Highs) == Ok::<Seq<Option<Real>>, Fault>(block.highs));
    assert(real_series(tree, Field::Lows) == Ok::<Seq<Option<Real>>, Fault>(block.lows));
    assert(real_series(tree, Field::Closes) == Ok::<Seq<Option<Real>>, Fault>(block.closes));
    assert(count_series(tree, Field::Volumes) == Ok::<Seq<Option<u64>>, Fault>(block.volumes));
}

/// A block of adjusted closes is read back as it was written.
pub proof fn lemma_adjusted_close_reads_back(block: AdjustedCloseView)
    ensures
        adjusted_close_of(adjusted_close_tree(block)) == Ok::<AdjustedCloseView, Fault>(block),
{
    let tree = adjusted_close_tree(block);
    lemma_lookup_at(tree->Object_0, Field::AdjustedCloses.spec_key(), 0);
    lemma_real_series_reads_back(block.adjusted_closes);
    assert(real_series(tree, Field::AdjustedCloses) == Ok::<Seq<Option<Real>>, Fault>(
        block.adjusted_closes,
    ));
}

/// The blocks of a chart are read back as they were written.
pub proof fn lemma_indicators_read_back(indicators: IndicatorsView)
    ensures
        indicators_of(indicators_tree(indicators)) == Ok::<IndicatorsView, Fault>(indicators),
{
    let tree = indicators_tree(indicators);
    let members = tree->Object_0;
    lemma_keys_differ();
    lemma_lookup_at(members, Field::Quotes.spec_key(), 0);
    lemma_lookup_at(members, Field::AdjustedCloseBlocks.spec_key(), 1);
    let quotes = members[0].1->Array_0;
    assert forall|k: int| 0 <= k < quotes.len() implies #[trigger] ohlcv_readings(quotes)[k]
        == Ok::<OHLCVView, Fault>(indicators.quotes[k]) by {
        lemma_ohlcv_reads_back(indicators.quotes[k]);
    }
    lemma_gather_all(ohlcv_readings(quotes), indicators.quotes);
    let closes = members[1].1->Array_0;
    assert forall|k: int|
        0 <= k < closes.len() implies #[trigger] adjusted_close_readings(closes)[k] == Ok::<
        AdjustedCloseView,
        Fault,
    >(indicators.adjusted_closes[k]) by {
        lemma_adjusted_close_reads_back(indicators.adjusted_closes[k]);
    }
    lemma_gather_all(adjusted_close_readings(closes), indicators.adjusted_closes);
    assert(quotes_of(tree) == Ok::<Seq<OHLCVView>, Fault>(indicators.quotes));
    assert(adjusted_closes_of(tree) == Ok::<Seq<AdjustedCloseView>, Fault>(
        indicators.adjusted_closes,
    ));
}

/// What a chart says of its instrument is read back as it was written.
pub proof fn lemma_meta_reads_back(meta: MetaView)
    requires
        meta.wf(),
    ensures
        meta_of(meta_tree(meta)) == Ok::<MetaView, Fault>(meta),
{
    let tree = meta_tree(meta);
    let members = tree->Object_0;
    lemma_keys_differ();
    lemma_lookup_at(members, Field::Symbol.spec_key(), 0);
    lemma_lookup_at(members, Field::FirstTradeDate.spec_key(), 1);
    lemma_lookup_at(members, Field::CurrentPrice.spec_key(), 2);
    lemma_lookup_at(members, Field::PreviousClose.spec_key(), 3);
    assert(text_field(tree, Field::Symbol) == Ok::<Seq<char>, Fault>(meta.symbol));
    assert(instant_field(tree, Field::FirstTradeDate) == Ok::<i64, Fault>(meta.first_trade_date));
    assert(real_field(tree, Field::CurrentPrice) == Ok::<Real, Fault>(meta.current_price));
    assert(real_field(tree, Field::PreviousClose) == Ok::<Real, Fault>(meta.previous_close));
}

/// A chart is read back as it was written.
pub proof fn lemma_data_reads_back(data: DataView)
    requires
        data.wf(),
    ensures
        data_of(data_tree(data)) == Ok::<DataView, Fault>(data),
{
    let tree = data_tree(data);
    let members = tree->Object_0;
    lemma_keys_differ();
    lemma_lookup_at(members, Field::Meta.spec_key(), 0);
    lemma_lookup_at(members, Field::Timestamps.spec_key(), 1);
    lemma_lookup_at(members, Field::Indicators.spec_key(), 2);
    lemma_meta_reads_back(data.meta);
    lemma_seconds_series_reads_back(data.timestamps);
    lemma_indicators_read_back(data.indicators);
    assert(part(tree, Field::Meta) == Ok::<Tree, Fault>(meta_tree(data.meta)));
    assert(seconds_series(tree, Field::Timestamps) == Ok::<Seq<i64>, Fault>(data.timestamps));
    assert(part(tree, Field::Indicators) == Ok::<Tree, Fault>(indicators_tree(data.indicators)));
}

/// The account of a failure is read back as it was written.
pub proof fn lemma_provider_error_reads_back(error: ProviderErrorView)
    ensures
        provider_error_of(provider_error_tree(error)) == Ok::<ProviderErrorView, Fault>(error),
{
    let tree = provider_error_tree(error);
    let members = tree->Object_0;
    lemma_keys_differ();
    lemma_lookup_at(members, Field::Code.spec_key(), 0);
    lemma_lookup_at(members, Field::Description.spec_key(), 1);
    assert(text_field(tree, Field::Code) == Ok::<Seq<char>, Fault>(error.code));
    assert(text_field(tree, Field::Description) == Ok::<Seq<char>, Fault>(error.description));
}

/// Whether each record of an envelope is well formed.
pub open spec fn records_wf(chart: ChartView) -> bool {
    chart.result matches Some(records) ==> forall|k: int|
        0 <= k < records.len() ==> (#[trigger] records[k]).wf()
}

/// Reading is the inverse of writing: the body that holds an envelope is
/// read back as that envelope, whatever the envelope holds.
pub proof fn lemma_response_reads_back(chart: ChartView)
    requires
        records_wf(chart),
    ensures
        response_of(response_tree(chart)) == Ok::<ChartView, Fault>(chart),
{
    let tree = response_tree(chart);
    lemma_lookup_at(tree->Object_0, Field::Chart.spec_key(), 0);
    let inner = tree->Object_0[0].1;
    let members = inner->Object_0;
    lemma_keys_differ();
    lemma_lookup_at(members, Field::Result.spec_key(), 0);
    lemma_lookup_at(members, Field::Error.spec_key(), 1);
    assert(part(tree, Field::Chart) == Ok::<Tree, Fault>(inner));
    match chart.result {
        Some(records) => {
            let items = members[0].1->Array_0;
            assert forall|k: int| 0 <= k < items.len() implies #[trigger] data_readings(items)[k]
                == Ok::<DataView, Fault>(records[k]) by {
                lemma_data_reads_back(records[k]);
            }
            lemma_gather_all(data_readings(items), records);
        },
        None => {},
    }
    assert(result_of(inner) == Ok::<Option<Seq<DataView>>, Fault>(chart.result));
    match chart.error {
        Some(error) => {
            lemma_provider_error_reads_back(error);
        },
        None => {},
    }
    assert(error_of(inner) == Ok::<Option<ProviderErrorView>, Fault>(chart.error));
}

/// A load of the body that holds an envelope comes to what the envelope
/// holds. So a body with one well-formed record and no account of a failure
/// is loaded as that record; one with an account alone is the provider's
/// failure; one with no records is the empty result; one with neither part,
/// or with both, is inconsistent.
pub proof fn lemma_load_of_written_body(chart: ChartView)
    requires
        records_wf(chart),
    ensures
        tree_verdict(response_tree(chart)) == chart_verdict(chart),
        chart.error is None && chart.result is Some && chart.result->Some_0.len() > 0
            ==> tree_verdict(response_tree(chart)) == Verdict::Record(chart.result->Some_0[0]),
        chart.result is None && chart.error is Some ==> tree_verdict(response_tree(chart))
            == Verdict::Reported(chart.error->Some_0),
        chart.error is None && chart.result is Some && chart.result->Some_0.len() == 0
            ==> tree_verdict(response_tree(chart)) == Verdict::Empty,
        chart.result is None && chart.error is None ==> tree_verdict(response_tree(chart))
            == Verdict::Inconsistent,
        chart.result is Some && chart.error is Some ==> tree_verdict(response_tree(chart))
            == Verdict::Inconsistent,
{
    lemma_response_reads_back(chart);
}

} // verus!
