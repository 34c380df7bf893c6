use yahoo_finance::decimal::decimal_text;
use yahoo_finance::error::{Diagnostic, LoadError};
use yahoo_finance::interval::Interval;
use yahoo_finance::json::Json;
use yahoo_finance::loader::{
    load, load_daily, load_daily_range, status_is_success, Answer, Reply, Transfer,
};
use yahoo_finance::query::{
    base_url, build_query, daily_range_url, daily_url, url_string, with_pair, BASE_URL,
};

const STUB: &str = "http://localhost:8080/v8/finance/chart/";

#[test]
fn url_builder_rejects_a_base_that_is_no_url() {
    assert_eq!(
        build_query(Some("not a url"), "AAPL"),
        Err(LoadError::ConfigurationError { url: "not a url".to_string() })
    );
    assert_eq!(
        daily_url(Some("not a url"), "AAPL", Interval::OneYear),
        Err(LoadError::ConfigurationError { url: "not a url".to_string() })
    );
    assert!(matches!(
        load_daily_range(Some("not a url"), "AAPL", 0, 1),
        Err(LoadError::ConfigurationError { .. })
    ));
}

#[test]
fn url_builder_rejects_a_symbol_that_names_no_url() {
    assert_eq!(
        build_query(Some(STUB), "http://[bad"),
        Err(LoadError::ConfigurationError { url: "http://[bad".to_string() })
    );
}

#[test]
fn url_builder_joins_the_symbol_to_the_base() {
    let url = build_query(Some(STUB), "AAPL").expect("a url");
    assert_eq!(url.as_str(), "http://localhost:8080/v8/finance/chart/AAPL");
    let default = build_query(None, "MSFT").expect("a url");
    assert_eq!(default.as_str(), "https://query1.finance.yahoo.com/v8/finance/chart/MSFT");
    assert_eq!(BASE_URL, "https://query1.finance.yahoo.com/v8/finance/chart/");
    assert_eq!(base_url(None), BASE_URL);
    assert_eq!(base_url(Some(STUB)), STUB);
}

#[test]
fn url_builder_encodes_the_symbol() {
    let url = build_query(Some(STUB), "BRK B").expect("a url");
    assert_eq!(url.as_str(), "http://localhost:8080/v8/finance/chart/BRK%20B");
    assert_eq!(url_string(&url), "http://localhost:8080/v8/finance/chart/BRK%20B");
}

#[test]
fn range_query_has_range_and_interval() {
    let url = daily_url(Some(STUB), "AAPL", Interval::OneYear).expect("a url");
    assert_eq!(url.as_str(), "http://localhost:8080/v8/finance/chart/AAPL?range=1y&interval=1d");
    let pairs: Vec<(String, String)> =
        url.query_pairs().map(|(k, v)| (k.into_owned(), v.into_owned())).collect();
    assert_eq!(
        pairs,
        vec![
            ("range".to_string(), "1y".to_string()),
            ("interval".to_string(), "1d".to_string())
        ]
    );
}

#[test]
fn explicit_range_query_has_both_ends_and_interval() {
    let url = daily_range_url(Some(STUB), "AAPL", 1577836800, 1609459199).expect("a url");
    assert_eq!(
        url.as_str(),
        "http://localhost:8080/v8/finance/chart/AAPL?period1=1577836800&period2=1609459199&interval=1d"
    );
    let early = daily_range_url(Some(STUB), "AAPL", -86400, 0).expect("a url");
    assert_eq!(early.query(), Some("period1=-86400&period2=0&interval=1d"));
}

#[test]
fn with_pair_appends_in_query_form() {
    let url = build_query(Some(STUB), "AAPL").expect("a url");
    let one = with_pair(url, "a b", "c&d").expect("a url");
    assert_eq!(one.query(), Some("a+b=c%26d"));
    let two = with_pair(one, "e", "").expect("a url");
    assert_eq!(two.query(), Some("a+b=c%26d&e="));
}

#[test]
fn every_interval_has_its_name() {
    let names = [
        (Interval::OneDay, "1d"),
        (Interval::FiveDays, "5d"),
        (Interval::OneMonth, "1mo"),
        (Interval::ThreeMonths, "3mo"),
        (Interval::SixMonths, "6mo"),
        (Interval::OneYear, "1y"),
        (Interval::TwoYears, "2y"),
        (Interval::FiveYears, "5y"),
        (Interval::TenYears, "10y"),
        (Interval::YearToDate, "ytd"),
        (Interval::Max, "max"),
    ];
    for (interval, name) in names {
        assert_eq!(interval.name(), name);
        let request = load_daily(Some(STUB), "X", interval).expect("a request");
        assert_eq!(request.url.query(), Some(format!("range={}&interval=1d", name).as_str()));
    }
}

#[test]
fn decimal_text_of_integers() {
    assert_eq!(decimal_text(0), "0");
    assert_eq!(decimal_text(7), "7");
    assert_eq!(decimal_text(10), "10");
    assert_eq!(decimal_text(-1), "-1");
    assert_eq!(decimal_text(1609459199), "1609459199");
    assert_eq!(decimal_text(i64::MAX), "9223372036854775807");
    assert_eq!(decimal_text(i64::MIN), "-9223372036854775808");
}

#[test]
fn status_of_success() {
    assert!(!status_is_success(199));
    assert!(status_is_success(200));
    assert!(status_is_success(204));
    assert!(status_is_success(299));
    assert!(!status_is_success(300));
    assert!(!status_is_success(404));
    assert!(!status_is_success(500));
}

#[test]
fn non_success_status_is_a_failed_call() {
    let request = load_daily(Some(STUB), "AAPL", Interval::OneMonth).expect("a request");
    let reply = Reply::Status { url: "http://localhost:8080/moved".to_string(), status: 404 };
    match request.on_reply(reply) {
        Err(LoadError::RemoteCallFailed { url, status }) => {
            assert_eq!(url, "http://localhost:8080/moved");
            assert_eq!(status, 404);
        }
        _ => panic!("a status of 404 must fail the call"),
    }
}

#[test]
fn transport_failure_is_its_own_kind() {
    let request = load(build_query(Some(STUB), "AAPL").expect("a url"));
    match request.on_reply(Reply::Unreachable { cause: "connection refused".to_string() }) {
        Err(LoadError::TransportError { cause }) => assert_eq!(cause, "connection refused"),
        _ => panic!("a failure of the network must be a transport error"),
    }
}

#[test]
fn success_status_leads_to_the_body() {
    let request = load_daily_range(Some(STUB), "AAPL", 1, 2).expect("a request");
    let reply = Reply::Status { url: "http://localhost:8080/elsewhere".to_string(), status: 200 };
    let answer = match request.on_reply(reply) {
        Ok(answer) => answer,
        Err(_) => panic!("a status of 200 must lead on"),
    };
    assert_eq!(
        answer.url,
        "http://localhost:8080/v8/finance/chart/AAPL?period1=1&period2=2&interval=1d"
    );
    let broken = Answer { url: answer.url.clone() };
    assert_eq!(
        broken.on_transfer(Transfer::Broken { cause: "reset".to_string() }),
        Err(LoadError::ResponseReadError {
            url: "http://localhost:8080/v8/finance/chart/AAPL?period1=1&period2=2&interval=1d"
                .to_string(),
            cause: "reset".to_string(),
        })
    );
    let body = r#"{"chart":{"result":[],"error":null}}"#.to_string();
    assert_eq!(answer.on_transfer(Transfer::Complete { body }), Err(LoadError::UnexpectedEmptyResult));
}

#[test]
fn a_scraped_page_is_read_between_its_markers() {
    let request = load(build_query(Some("http://localhost:8080/quote/"), "AAPL").expect("a url"));
    let reply = Reply::Status { url: "http://localhost:8080/quote/AAPL".to_string(), status: 200 };
    let answer = match request.on_reply(reply) {
        Ok(answer) => answer,
        Err(_) => panic!("a status of 200 must lead on"),
    };
    assert_eq!(answer.url, "http://localhost:8080/quote/AAPL");
    let page = "<p>data = [true]; end</p>".to_string();
    assert_eq!(
        Answer { url: answer.url.clone() }
            .on_page(Transfer::Complete { body: page.clone() }, "data = ", ";"),
        Ok(Json::Array(vec![Json::Bool(true)]))
    );
    assert_eq!(
        Answer { url: answer.url.clone() }
            .on_page(Transfer::Complete { body: page.clone() }, "json = ", ";"),
        Err(LoadError::ScrapeMarkerNotFound)
    );
    assert!(matches!(
        Answer { url: answer.url.clone() }.on_page(Transfer::Complete { body: page }, "<p>", ";"),
        Err(LoadError::MalformedPayload { diagnostic: Diagnostic::Syntax { .. } })
    ));
    assert_eq!(
        answer.on_page(Transfer::Broken { cause: "reset".to_string() }, "data = ", ";"),
        Err(LoadError::ResponseReadError {
            url: "http://localhost:8080/quote/AAPL".to_string(),
            cause: "reset".to_string(),
        })
    );
}
