use yahoo_finance::error::{Diagnostic, LoadError};
use yahoo_finance::json::{parse, Json, Member, Number, Real};
use yahoo_finance::payload::{read_error, read_result};
use yahoo_finance::records::{
    AdjustedClose, Chart, Data, Indicators, Meta, Outcome, ProviderError, Response, OHLCV,
};
use yahoo_finance::schema::{Absence, Fault, Field};
use yahoo_finance::verdict::{interpret, judge};

fn double(x: f64) -> Real {
    Real { bits: x.to_bits() }
}

fn known(x: f64) -> Option<Real> {
    Some(double(x))
}

fn document(text: &str) -> Json {
    parse(text).expect("a JSON document")
}

fn schema(fault: Fault) -> LoadError {
    LoadError::MalformedPayload { diagnostic: Diagnostic::Schema { fault } }
}

const FIXTURE: &str = r#"{
  "chart": {
    "result": [
      {
        "meta": {
          "currency": "USD",
          "symbol": "AAPL",
          "firstTradeDate": 345479400,
          "regularMarketPrice": 189.5,
          "chartPreviousClose": 187
        },
        "timestamp": [1700000000, 1700086400, 1700172800],
        "indicators": {
          "quote": [
            {
              "open": [188.25, null, 190.0],
              "high": [190.5, null, 191.75],
              "low": [187.0, null, 189.5],
              "close": [189.5, null, 191.0],
              "volume": [51234000, null, 0]
            }
          ],
          "adjclose": [
            { "adjclose": [189.25, null, 190.75] }
          ]
        }
      }
    ],
    "error": null
  }
}"#;

fn fixture() -> Data {
    Data {
        meta: Meta {
            symbol: "AAPL".to_string(),
            first_trade_date: 345479400,
            current_price: double(189.5),
            previous_close: double(187.0),
        },
        timestamps: vec![1700000000, 1700086400, 1700172800],
        indicators: Indicators {
            quotes: vec![OHLCV {
                opens: vec![known(188.25), None, known(190.0)],
                highs: vec![known(190.5), None, known(191.75)],
                lows: vec![known(187.0), None, known(189.5)],
                closes: vec![known(189.5), None, known(191.0)],
                volumes: vec![Some(51234000), None, Some(0)],
            }],
            adjusted_closes: vec![AdjustedClose {
                adjusted_closes: vec![known(189.25), None, known(190.75)],
            }],
        },
    }
}

#[test]
fn well_formed_payload_gives_the_fixture() {
    let data = interpret(FIXTURE).expect("a record");
    assert_eq!(data, fixture());
    assert_eq!(data.meta.symbol, "AAPL");
    assert_eq!(data.timestamps.len(), data.indicators.quotes[0].opens.len());
    assert_eq!(data.timestamps.len(), data.indicators.quotes[0].volumes.len());
    assert_eq!(data.timestamps.len(), data.indicators.adjusted_closes[0].adjusted_closes.len());
}

#[test]
fn prices_come_back_as_the_doubles_they_were() {
    let data = interpret(FIXTURE).expect("a record");
    assert_eq!(f64::from_bits(data.meta.current_price.bits), 189.5);
    assert_eq!(f64::from_bits(data.meta.previous_close.bits), 187.0);
    assert_eq!(f64::from_bits(data.indicators.quotes[0].opens[0].unwrap().bits), 188.25);
}

#[test]
fn provider_error_block_is_reported() {
    let body = r#"{"chart":{"result":null,"error":{"code":"Not Found","description":"No data found"}}}"#;
    assert_eq!(
        interpret(body),
        Err(LoadError::ProviderReportedFailure {
            code: "Not Found".to_string(),
            description: "No data found".to_string(),
        })
    );
}

#[test]
fn empty_result_is_unexpected() {
    let body = r#"{"chart":{"result":[],"error":null}}"#;
    assert_eq!(interpret(body), Err(LoadError::UnexpectedEmptyResult));
}

#[test]
fn neither_result_nor_error_is_inconsistent() {
    let body = r#"{"chart":{"result":null,"error":null}}"#;
    assert_eq!(interpret(body), Err(LoadError::InternalInconsistency));
    assert_eq!(interpret(r#"{"chart":{}}"#), Err(LoadError::InternalInconsistency));
}

#[test]
fn result_and_error_together_are_inconsistent() {
    let body = r#"{"chart":{"result":[],"error":{"code":"c","description":"d"}}}"#;
    assert_eq!(interpret(body), Err(LoadError::InternalInconsistency));
}

#[test]
fn garbage_is_a_malformed_payload() {
    match interpret("<html>not json</html>") {
        Err(LoadError::MalformedPayload { diagnostic: Diagnostic::Syntax { message } }) => {
            assert!(!message.is_empty());
        }
        other => panic!("unexpected outcome: {:?}", other),
    }
    assert!(matches!(
        interpret(""),
        Err(LoadError::MalformedPayload { diagnostic: Diagnostic::Syntax { .. } })
    ));
}

#[test]
fn documents_of_another_shape_name_their_fault() {
    assert_eq!(interpret("[1, 2]"), Err(schema(Fault::Root)));
    assert_eq!(interpret("{}"), Err(schema(Fault::Missing(Field::Chart))));
    assert_eq!(interpret(r#"{"chart": 3}"#), Err(schema(Fault::Mismatch(Field::Chart))));
    assert_eq!(
        interpret(r#"{"chart":{"result":{}}}"#),
        Err(schema(Fault::Mismatch(Field::Result)))
    );
    assert_eq!(
        interpret(r#"{"chart":{"result":[7]}}"#),
        Err(schema(Fault::Mismatch(Field::Result)))
    );
    assert_eq!(
        interpret(r#"{"chart":{"result":[{}]}}"#),
        Err(schema(Fault::Missing(Field::Meta)))
    );
    assert_eq!(
        interpret(r#"{"chart":{"error":{"code":"c"}}}"#),
        Err(schema(Fault::Missing(Field::Description)))
    );
    assert_eq!(
        interpret(r#"{"chart":{"error":{"code":1,"description":"d"}}}"#),
        Err(schema(Fault::Mismatch(Field::Code)))
    );
    assert_eq!(
        interpret(r#"{"chart":{"error":"down"}}"#),
        Err(schema(Fault::Mismatch(Field::Error)))
    );
}

#[test]
fn only_the_first_record_is_returned() {
    let record = r#"{"meta":{"symbol":"S","firstTradeDate":0,"regularMarketPrice":1,"chartPreviousClose":2},"indicators":{}}"#;
    let other = r#"{"meta":{"symbol":"T","firstTradeDate":0,"regularMarketPrice":1,"chartPreviousClose":2},"indicators":{}}"#;
    let body = format!(r#"{{"chart":{{"result":[{},{}]}}}}"#, record, other);
    let data = interpret(&body).expect("a record");
    assert_eq!(data.meta.symbol, "S");
    assert!(data.timestamps.is_empty());
    assert!(data.indicators.quotes.is_empty());
    assert!(data.indicators.adjusted_closes.is_empty());
}

#[test]
fn a_fault_in_a_later_record_rejects_the_body() {
    let record = r#"{"meta":{"symbol":"S","firstTradeDate":0,"regularMarketPrice":1,"chartPreviousClose":2},"indicators":{}}"#;
    let body = format!(r#"{{"chart":{{"result":[{},{{"meta":{{}}}}]}}}}"#, record);
    assert_eq!(interpret(&body), Err(schema(Fault::Missing(Field::Symbol))));
}

#[test]
fn ohlcv_with_opens_only() {
    let block = OHLCV::decode(&document(r#"{"open":[1.0,null,3.0]}"#)).expect("a block");
    assert_eq!(block.opens, vec![known(1.0), None, known(3.0)]);
    assert!(block.highs.is_empty());
    assert!(block.lows.is_empty());
    assert!(block.closes.is_empty());
    assert!(block.volumes.is_empty());
}

#[test]
fn ohlcv_faults() {
    assert_eq!(OHLCV::decode(&document("[]")), Err(Fault::Mismatch(Field::Quotes)));
    assert_eq!(
        OHLCV::decode(&document(r#"{"open":null}"#)),
        Err(Fault::Mismatch(Field::Opens))
    );
    assert_eq!(
        OHLCV::decode(&document(r#"{"high":["1.0"]}"#)),
        Err(Fault::Mismatch(Field::Highs))
    );
    assert_eq!(
        OHLCV::decode(&document(r#"{"low":[true],"close":7}"#)),
        Err(Fault::Mismatch(Field::Lows))
    );
    assert_eq!(
        OHLCV::decode(&document(r#"{"close":7,"volume":[1.5]}"#)),
        Err(Fault::Mismatch(Field::Closes))
    );
    assert_eq!(
        OHLCV::decode(&document(r#"{"volume":[1.5]}"#)),
        Err(Fault::Mismatch(Field::Volumes))
    );
    assert_eq!(
        OHLCV::decode(&document(r#"{"volume":[-1]}"#)),
        Err(Fault::Mismatch(Field::Volumes))
    );
}

#[test]
fn integers_are_read_as_doubles_where_a_double_is_due() {
    let block = OHLCV::decode(&document(r#"{"open":[2, -3, 18446744073709551615]}"#))
        .expect("a block");
    assert_eq!(block.opens, vec![known(2.0), known(-3.0), known(18446744073709551615.0)]);
}

#[test]
fn volumes_take_the_whole_range_of_counts() {
    let block = OHLCV::decode(&document(r#"{"volume":[0, 18446744073709551615, null]}"#))
        .expect("a block");
    assert_eq!(block.volumes, vec![Some(0), Some(u64::MAX), None]);
}

#[test]
fn adjusted_close_block() {
    let block = AdjustedClose::decode(&document(r#"{"adjclose":[null, 2.5]}"#)).expect("a block");
    assert_eq!(block.adjusted_closes, vec![None, known(2.5)]);
    let empty = AdjustedClose::decode(&document("{}")).expect("a block");
    assert!(empty.adjusted_closes.is_empty());
    assert_eq!(
        AdjustedClose::decode(&document("null")),
        Err(Fault::Mismatch(Field::AdjustedCloseBlocks))
    );
    assert_eq!(
        AdjustedClose::decode(&document(r#"{"adjclose":{}}"#)),
        Err(Fault::Mismatch(Field::AdjustedCloses))
    );
}

#[test]
fn indicators_default_to_no_blocks() {
    let indicators = Indicators::decode(&document("{}")).expect("indicators");
    assert!(indicators.quotes.is_empty());
    assert!(indicators.adjusted_closes.is_empty());
    assert_eq!(
        Indicators::decode(&document(r#"{"quote":{}}"#)),
        Err(Fault::Mismatch(Field::Quotes))
    );
    assert_eq!(
        Indicators::decode(&document(r#"{"quote":[{}, 1]}"#)),
        Err(Fault::Mismatch(Field::Quotes))
    );
    assert_eq!(
        Indicators::decode(&document(r#"{"adjclose":[{"adjclose":[false]}]}"#)),
        Err(Fault::Mismatch(Field::AdjustedCloses))
    );
    assert_eq!(
        Indicators::decode(&document("7")),
        Err(Fault::Mismatch(Field::Indicators))
    );
}

#[test]
fn meta_needs_each_of_its_fields() {
    let whole = r#"{"symbol":"S","firstTradeDate":-86400,"regularMarketPrice":1.5,"chartPreviousClose":2}"#;
    assert_eq!(
        Meta::decode(&document(whole)),
        Ok(Meta {
            symbol: "S".to_string(),
            first_trade_date: -86400,
            current_price: double(1.5),
            previous_close: double(2.0),
        })
    );
    assert_eq!(Meta::decode(&document("[]")), Err(Fault::Mismatch(Field::Meta)));
    assert_eq!(Meta::decode(&document("{}")), Err(Fault::Missing(Field::Symbol)));
    assert_eq!(
        Meta::decode(&document(r#"{"symbol":"S"}"#)),
        Err(Fault::Missing(Field::FirstTradeDate))
    );
    assert_eq!(
        Meta::decode(&document(r#"{"symbol":"S","firstTradeDate":1}"#)),
        Err(Fault::Missing(Field::CurrentPrice))
    );
    assert_eq!(
        Meta::decode(&document(r#"{"symbol":"S","firstTradeDate":1,"regularMarketPrice":1}"#)),
        Err(Fault::Missing(Field::PreviousClose))
    );
    assert_eq!(
        Meta::decode(&document(r#"{"symbol":null}"#)),
        Err(Fault::Mismatch(Field::Symbol))
    );
    assert_eq!(
        Meta::decode(&document(r#"{"symbol":"S","firstTradeDate":1.5}"#)),
        Err(Fault::Mismatch(Field::FirstTradeDate))
    );
    assert_eq!(
        Meta::decode(&document(r#"{"symbol":"S","firstTradeDate":1,"regularMarketPrice":"1"}"#)),
        Err(Fault::Mismatch(Field::CurrentPrice))
    );
}

#[test]
fn first_trade_date_must_be_an_instant() {
    let far = r#"{"symbol":"S","firstTradeDate":9223372036854775807,"regularMarketPrice":1,"chartPreviousClose":2}"#;
    assert_eq!(Meta::decode(&document(far)), Err(Fault::Mismatch(Field::FirstTradeDate)));
    let beyond = r#"{"symbol":"S","firstTradeDate":9223372036854775808,"regularMarketPrice":1,"chartPreviousClose":2}"#;
    assert_eq!(Meta::decode(&document(beyond)), Err(Fault::Mismatch(Field::FirstTradeDate)));
    let early = r#"{"symbol":"S","firstTradeDate":-9223372036854775808,"regularMarketPrice":1,"chartPreviousClose":2}"#;
    assert_eq!(Meta::decode(&document(early)), Err(Fault::Mismatch(Field::FirstTradeDate)));
}

#[test]
fn timestamps_are_integers() {
    let record = r#"{"meta":{"symbol":"S","firstTradeDate":0,"regularMarketPrice":1,"chartPreviousClose":2},"timestamp":[1, 2.5],"indicators":{}}"#;
    assert_eq!(Data::decode(&document(record)), Err(Fault::Mismatch(Field::Timestamps)));
    let gap = r#"{"meta":{"symbol":"S","firstTradeDate":0,"regularMarketPrice":1,"chartPreviousClose":2},"timestamp":[1, null],"indicators":{}}"#;
    assert_eq!(Data::decode(&document(gap)), Err(Fault::Mismatch(Field::Timestamps)));
    let missing = r#"{"meta":{"symbol":"S","firstTradeDate":0,"regularMarketPrice":1,"chartPreviousClose":2}}"#;
    assert_eq!(Data::decode(&document(missing)), Err(Fault::Missing(Field::Indicators)));
}

#[test]
fn provider_error_decodes() {
    assert_eq!(
        ProviderError::decode(&document(r#"{"code":"c","description":"d","more":1}"#)),
        Ok(ProviderError { code: "c".to_string(), description: "d".to_string() })
    );
}

#[test]
fn chart_parts_may_be_absent_or_null() {
    let chart = Chart::decode(&document(r#"{"result":null}"#)).expect("a chart");
    assert_eq!(chart, Chart { result: None, error: None });
    assert_eq!(read_result(&document("{}")), Ok(None));
    assert_eq!(read_result(&document(r#"{"result":[]}"#)), Ok(Some(vec![])));
    assert_eq!(read_error(&document(r#"{"error":null}"#)), Ok(None));
    let response = Response::decode(&document(r#"{"chart":{"result":[]}}"#)).expect("a response");
    assert_eq!(response.chart, Chart { result: Some(vec![]), error: None });
}

#[test]
fn envelope_to_outcome() {
    let error = ProviderError { code: "c".to_string(), description: "d".to_string() };
    assert_eq!(
        Chart { result: None, error: None }.into_outcome(),
        Err(LoadError::InternalInconsistency)
    );
    assert_eq!(
        Chart { result: Some(vec![fixture()]), error: Some(error.clone()) }.into_outcome(),
        Err(LoadError::InternalInconsistency)
    );
    assert_eq!(
        Chart { result: Some(vec![]), error: None }.into_outcome(),
        Err(LoadError::UnexpectedEmptyResult)
    );
    assert_eq!(
        Chart { result: None, error: Some(error.clone()) }.into_outcome(),
        Ok(Outcome::Failure(error.clone()))
    );
    assert_eq!(
        Chart { result: Some(vec![fixture()]), error: None }.into_outcome(),
        Ok(Outcome::Success(fixture()))
    );
    assert_eq!(Outcome::Success(fixture()).into_result(), Ok(fixture()));
    assert_eq!(
        Outcome::Failure(error).into_result(),
        Err(LoadError::ProviderReportedFailure {
            code: "c".to_string(),
            description: "d".to_string()
        })
    );
}

#[test]
fn judge_takes_a_document_built_by_hand() {
    let error = Json::Object(vec![
        Member { key: "code".to_string(), value: Json::Text("Not Found".to_string()) },
        Member { key: "description".to_string(), value: Json::Text("No data found".to_string()) },
    ]);
    let chart = Json::Object(vec![
        Member { key: "result".to_string(), value: Json::Null },
        Member { key: "error".to_string(), value: error },
    ]);
    let body = Json::Object(vec![Member { key: "chart".to_string(), value: chart }]);
    assert_eq!(
        judge(&body),
        Err(LoadError::ProviderReportedFailure {
            code: "Not Found".to_string(),
            description: "No data found".to_string(),
        })
    );
}

#[test]
fn parse_gives_the_tree_of_the_text() {
    let json = document(r#"{"a":[1,-2,1.5,"x",true,null],"b":{}}"#);
    let expected = Json::Object(vec![
        Member {
            key: "a".to_string(),
            value: Json::Array(vec![
                Json::Number(Number { unsigned: Some(1), signed: Some(1), real: known(1.0) }),
                Json::Number(Number { unsigned: None, signed: Some(-2), real: known(-2.0) }),
                Json::Number(Number { unsigned: None, signed: None, real: known(1.5) }),
                Json::Text("x".to_string()),
                Json::Bool(true),
                Json::Null,
            ]),
        },
        Member { key: "b".to_string(), value: Json::Object(vec![]) },
    ]);
    assert_eq!(json, expected);
    assert!(parse("{").is_err());
}

#[test]
fn member_is_the_first_under_its_key() {
    let object = Json::Object(vec![
        Member { key: "k".to_string(), value: Json::Bool(true) },
        Member { key: "k".to_string(), value: Json::Bool(false) },
    ]);
    assert_eq!(object.member("k"), Some(&Json::Bool(true)));
    assert_eq!(object.member("j"), None);
    assert_eq!(Json::Null.member("k"), None);
}

#[test]
fn field_table() {
    assert_eq!(Field::Chart.key(), "chart");
    assert_eq!(Field::FirstTradeDate.key(), "firstTradeDate");
    assert_eq!(Field::CurrentPrice.key(), "regularMarketPrice");
    assert_eq!(Field::PreviousClose.key(), "chartPreviousClose");
    assert_eq!(Field::Timestamps.key(), "timestamp");
    assert_eq!(Field::Quotes.key(), "quote");
    assert_eq!(Field::AdjustedCloseBlocks.key(), "adjclose");
    assert_eq!(Field::AdjustedCloses.key(), "adjclose");
    assert_eq!(Field::Opens.key(), "open");
    assert_eq!(Field::Volumes.key(), "volume");
    assert_eq!(Field::Meta.absence(), Absence::Rejected);
    assert_eq!(Field::Symbol.absence(), Absence::Rejected);
    assert_eq!(Field::Opens.absence(), Absence::Empty);
    assert_eq!(Field::Timestamps.absence(), Absence::Empty);
    assert_eq!(Field::Result.absence(), Absence::Nothing);
    assert_eq!(Field::Error.absence(), Absence::Nothing);
}
