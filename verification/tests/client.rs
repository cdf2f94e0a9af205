use std::collections::HashMap;
use twelve_data_inav::client::{
    detect_format, judge_status, request_delimiter, screen_json, StatusField,
};
use twelve_data_inav::text::{first_non_white, push_decimal, white_space};
use twelve_data_inav::{
    accept_response, request_url, ClientError, CsvParseable, DataResponse, ResponseFormat,
    TwelveData, API_URL,
};

#[derive(Debug)]
struct Rows(Vec<HashMap<String, String>>);

impl CsvParseable for Rows {
    type CsvRecord = HashMap<String, String>;

    fn from_csv_records(records: Vec<Self::CsvRecord>) -> Self {
        Rows(records)
    }
}

fn accept(status: u16, body: &str) -> Result<DataResponse<Rows>, ClientError> {
    accept_response(status, body.to_string(), None)
}

fn data_error<T: std::fmt::Debug>(r: Result<T, ClientError>) -> String {
    match r {
        Err(ClientError::DataError(m)) => m,
        other => panic!("expected a data error, got {:?}", other),
    }
}

#[test]
fn client_keeps_key_and_transport() {
    let td = TwelveData::new("demo-key", 7u32);
    assert_eq!(td.api_key(), "demo-key");
    assert_eq!(*td.client(), 7);
}

#[test]
fn request_url_joins_endpoint_and_params() {
    assert_eq!(API_URL, "https://api.twelvedata.com");
    assert_eq!(
        request_url("time_series", "symbol=AAPL&interval=1day&outputsize=10"),
        "https://api.twelvedata.com/time_series?symbol=AAPL&interval=1day&outputsize=10"
    );
    assert_eq!(request_url("price", ""), "https://api.twelvedata.com/price?");
}

#[test]
fn non_200_status_is_refused() {
    assert_eq!(data_error(accept(404, "{}")), "HTTP status 404");
    assert_eq!(data_error(accept(500, "a;b")), "HTTP status 500");
    assert_eq!(data_error(accept(0, "")), "HTTP status 0");
    assert_eq!(data_error(accept(65535, "")), "HTTP status 65535");
    assert_eq!(data_error(accept(201, "{}")), "HTTP status 201");
}

#[test]
fn decimal_rendering() {
    for n in [0u16, 7, 10, 99, 100, 404, 1000, 65535] {
        let mut s = String::from("n=");
        push_decimal(&mut s, n);
        assert_eq!(s, format!("n={}", n));
    }
}

#[test]
fn format_detection() {
    assert_eq!(detect_format("{\"a\":1}"), ResponseFormat::Json);
    assert_eq!(detect_format("[1,2]"), ResponseFormat::Json);
    assert_eq!(detect_format(" \t\r\n{}"), ResponseFormat::Json);
    assert_eq!(detect_format("\u{3000}\u{a0}["), ResponseFormat::Json);
    assert_eq!(detect_format(""), ResponseFormat::Csv);
    assert_eq!(detect_format("   "), ResponseFormat::Csv);
    assert_eq!(detect_format("datetime;open\n"), ResponseFormat::Csv);
    // U+200B ZERO WIDTH SPACE is not white space.
    assert_eq!(detect_format("\u{200b}{}"), ResponseFormat::Csv);
}

#[test]
fn white_space_matches_std() {
    for u in 0u32..0x3100 {
        if let Some(c) = char::from_u32(u) {
            assert_eq!(white_space(c), c.is_whitespace(), "code point {:x}", u);
        }
    }
    assert_eq!(first_non_white("  \u{2028}x y"), Some('x'));
    assert_eq!(first_non_white(" \n "), None);
}

#[test]
fn json_reply_accepted() {
    let r = accept(200, r#"{"status":"ok","values":[]}"#).unwrap();
    assert!(r.is_json());
    assert_eq!(r.status_code, 200);
    assert_eq!(r.raw(), r#"{"status":"ok","values":[]}"#);
    assert!(accept(200, r#"{"price":"190.5"}"#).unwrap().is_json());
    assert!(accept(200, "  [1, 2, 3]").unwrap().is_json());
}

#[test]
fn json_error_reply_refused_with_its_message() {
    assert_eq!(
        data_error(accept(200, r#"{"code":401,"message":"bad api key","status":"error"}"#)),
        "bad api key"
    );
    assert_eq!(data_error(accept(200, r#"{"status":"error"}"#)), "<unknown reason>");
    assert_eq!(data_error(accept(200, r#"{"status":"error","message":7}"#)), "<unknown reason>");
}

#[test]
fn json_status_must_be_text() {
    assert_eq!(
        data_error(accept(200, r#"{"status":5}"#)),
        "status value in the response is not a string"
    );
    assert_eq!(
        data_error(accept(200, r#"{"status":null}"#)),
        "status value in the response is not a string"
    );
}

#[test]
fn malformed_json_is_a_json_error() {
    assert!(matches!(accept(200, "{not json"), Err(ClientError::Json(_))));
    assert!(matches!(screen_json("[1,"), Err(ClientError::Json(_))));
    assert!(screen_json("[1]").is_ok());
}

#[test]
fn csv_reply_accepted_with_delimiter() {
    let body = "symbol|price\nAAPL|190.5\n";
    let r: DataResponse<Rows> =
        accept_response(200, body.to_string(), Some("|".to_string())).unwrap();
    assert!(r.is_csv());
    assert_eq!(r.delimiter.as_deref(), Some("|"));
    let rows = r
        .parse_csv(|rec: &csv::StringRecord, hdr: Option<&csv::StringRecord>| {
            rec.deserialize(hdr).map_err(|e| ClientError::DataError(e.to_string()))
        })
        .unwrap();
    assert_eq!(rows.0[0]["price"], "190.5");
}

#[test]
fn request_delimiter_reads_the_member() {
    let v: serde_json::Value = serde_json::from_str(r#"{"symbol":"AAPL","delimiter":","}"#).unwrap();
    assert_eq!(request_delimiter(&v).as_deref(), Some(","));
    let v: serde_json::Value = serde_json::from_str(r#"{"delimiter":5}"#).unwrap();
    assert_eq!(request_delimiter(&v), None);
    let v: serde_json::Value = serde_json::from_str(r#"{"symbol":"AAPL"}"#).unwrap();
    assert_eq!(request_delimiter(&v), None);
    let v: serde_json::Value = serde_json::from_str(r#"[","]"#).unwrap();
    assert_eq!(request_delimiter(&v), None);
}

#[test]
fn judge_status_cases() {
    assert!(judge_status(&StatusField::Missing, None).is_ok());
    assert!(judge_status(&StatusField::Text("ok".to_string()), Some("ignored")).is_ok());
    assert_eq!(
        data_error(judge_status(&StatusField::NotText, None)),
        "status value in the response is not a string"
    );
    assert_eq!(
        data_error(judge_status(&StatusField::Text("error".to_string()), Some("quota"))),
        "quota"
    );
    assert_eq!(
        data_error(judge_status(&StatusField::Text("error".to_string()), None)),
        "<unknown reason>"
    );
    assert!(judge_status(&StatusField::Text("Error".to_string()), None).is_ok());
}
