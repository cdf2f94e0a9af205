use std::collections::HashMap;
use twelve_data_inav::{ClientError, CsvParseable, DataResponse, ResponseFormat};

/// Records of a CSV reply, each row keyed by the header.
#[derive(Debug)]
struct Rows(Vec<HashMap<String, String>>);

impl CsvParseable for Rows {
    type CsvRecord = HashMap<String, String>;

    fn from_csv_records(records: Vec<Self::CsvRecord>) -> Self {
        Rows(records)
    }
}

fn json_rows(text: &str) -> Result<Rows, ClientError> {
    let v: serde_json::Value = serde_json::from_str(text).map_err(ClientError::Json)?;
    let mut out = Vec::new();
    for item in v["values"].as_array().cloned().unwrap_or_default() {
        let mut m = HashMap::new();
        for (k, val) in item.as_object().unwrap() {
            m.insert(k.clone(), val.as_str().unwrap_or_default().to_string());
        }
        out.push(m);
    }
    Ok(Rows(out))
}

fn record(
    rec: &csv::StringRecord,
    hdr: Option<&csv::StringRecord>,
) -> Result<HashMap<String, String>, ClientError> {
    rec.deserialize(hdr).map_err(|e| ClientError::DataError(e.to_string()))
}

fn data_error(r: Result<Rows, ClientError>) -> String {
    match r {
        Err(ClientError::DataError(m)) => m,
        other => panic!("expected a data error, got {:?}", other),
    }
}

const CSV_BODY: &str = "datetime;open;high;low;close;volume\n\
2024-01-05;181.99;182.76;180.17;181.18;62303300\n\
2024-01-04;182.15;183.09;180.88;181.91;71983600\n\
2024-01-03;184.22;185.88;183.43;184.25;58414500\n\
2024-01-02;187.15;188.44;183.89;185.64;82488700\n\
2023-12-29;193.90;194.40;191.73;192.53;42628800\n";

#[test]
fn content_types() {
    assert_eq!(ResponseFormat::Json.content_type(), "application/json");
    assert_eq!(ResponseFormat::Csv.content_type(), "text/csv");
}

#[test]
fn new_response_has_no_delimiter() {
    let r: DataResponse<Rows> = DataResponse::new("a;b\n".to_string(), 200, ResponseFormat::Csv);
    assert!(r.delimiter.is_none());
    assert!(r.is_csv());
    assert!(!r.is_json());
    assert_eq!(r.raw(), "a;b\n");
    assert_eq!(*r.format(), ResponseFormat::Csv);
    assert_eq!(r.csv_delimiter(), b';');
}

#[test]
fn with_delimiter_sets_only_the_delimiter() {
    let r: DataResponse<Rows> = DataResponse::new("{}".to_string(), 201, ResponseFormat::Json)
        .with_delimiter(Some("|".to_string()));
    assert_eq!(r.delimiter.as_deref(), Some("|"));
    assert_eq!(r.status_code, 201);
    assert_eq!(r.raw(), "{}");
    assert!(r.is_json());
    let r = r.with_delimiter(None);
    assert!(r.delimiter.is_none());
}

#[test]
fn csv_delimiter_choice() {
    let with = |d: Option<&str>| -> u8 {
        let r: DataResponse<Rows> = DataResponse::new(String::new(), 200, ResponseFormat::Csv)
            .with_delimiter(d.map(|s| s.to_string()));
        r.csv_delimiter()
    };
    assert_eq!(with(None), b';');
    assert_eq!(with(Some("")), b';');
    assert_eq!(with(Some(",")), b',');
    assert_eq!(with(Some("|;")), b'|');
    assert_eq!(with(Some("\t")), b'\t');
    // A non-ASCII delimiter is cast to `u8`: the low byte of its code point.
    assert_eq!(with(Some("\u{20ac}")), 0xAC);
    assert_eq!(with(Some("\u{e9};")), 0xE9);
}

#[test]
fn into_parts_gives_status_type_and_body() {
    let r: DataResponse<Rows> = DataResponse::new("x;y\n".to_string(), 200, ResponseFormat::Csv);
    let (status, content_type, body) = r.into_parts();
    assert_eq!(status, 200);
    assert_eq!(content_type, "text/csv");
    assert_eq!(body, "x;y\n");
    let r: DataResponse<Rows> = DataResponse::new("{}".to_string(), 404, ResponseFormat::Json);
    assert_eq!(r.into_parts(), (404, "application/json", "{}".to_string()));
}

#[test]
fn parse_json_refuses_csv() {
    let r: DataResponse<Rows> = DataResponse::new(CSV_BODY.to_string(), 200, ResponseFormat::Csv);
    assert_eq!(data_error(r.parse_json(json_rows)), "Cannot parse JSON from CSV response");
}

#[test]
fn parse_csv_refuses_json() {
    let r: DataResponse<Rows> = DataResponse::new("{}".to_string(), 200, ResponseFormat::Json);
    assert_eq!(data_error(r.parse_csv(record)), "Cannot parse CSV from JSON response");
}

#[test]
fn parse_json_hands_the_body_to_the_decoder() {
    let body = r#"{"values":[{"close":"1.5"},{"close":"2.5"}],"status":"ok"}"#;
    let r: DataResponse<Rows> = DataResponse::new(body.to_string(), 200, ResponseFormat::Json);
    let rows = r.parse_json(json_rows).unwrap();
    assert_eq!(rows.0.len(), 2);
    assert_eq!(rows.0[1]["close"], "2.5");
}

#[test]
fn parse_csv_reads_records_with_default_delimiter() {
    let r: DataResponse<Rows> = DataResponse::new(CSV_BODY.to_string(), 200, ResponseFormat::Csv);
    let rows = r.parse_csv(record).unwrap();
    assert_eq!(rows.0.len(), 5);
    let first = &rows.0[0];
    assert_eq!(first["datetime"], "2024-01-05");
    assert!(first["open"].parse::<f64>().unwrap() > 0.0);
    assert!(first["high"].parse::<f64>().unwrap() > 0.0);
    assert!(first["low"].parse::<f64>().unwrap() > 0.0);
    assert!(first["close"].parse::<f64>().unwrap() > 0.0);
    assert_eq!(rows.0[4]["close"], "192.53");
}

#[test]
fn parse_csv_uses_the_configured_delimiter() {
    let body = "symbol,price\nAAPL,190.5\n";
    let r: DataResponse<Rows> = DataResponse::new(body.to_string(), 200, ResponseFormat::Csv)
        .with_delimiter(Some(",".to_string()));
    let rows = r.parse_csv(record).unwrap();
    assert_eq!(rows.0.len(), 1);
    assert_eq!(rows.0[0]["price"], "190.5");

    // With the default `;` the whole line is one field.
    let r: DataResponse<Rows> = DataResponse::new(body.to_string(), 200, ResponseFormat::Csv);
    let rows = r.parse_csv(record).unwrap();
    assert_eq!(rows.0[0]["symbol,price"], "AAPL,190.5");
}

#[test]
fn parse_csv_header_only_gives_no_records() {
    let r: DataResponse<Rows> = DataResponse::new("a;b\n".to_string(), 200, ResponseFormat::Csv);
    assert_eq!(r.parse_csv(record).unwrap().0.len(), 0);
    let r: DataResponse<Rows> = DataResponse::new(String::new(), 200, ResponseFormat::Csv);
    assert_eq!(r.parse_csv(record).unwrap().0.len(), 0);
}

#[test]
fn parse_csv_reports_unreadable_row() {
    let body = "a;b\n1;2\n3;4;5\n6;7\n";
    let r: DataResponse<Rows> = DataResponse::new(body.to_string(), 200, ResponseFormat::Csv);
    let msg = data_error(r.parse_csv(record));
    // The message is the csv error's own text.
    let mut rdr = csv::ReaderBuilder::new().delimiter(b';').from_reader(body.as_bytes());
    let expected = rdr.records().find_map(|x| x.err()).unwrap().to_string();
    assert_eq!(msg, expected);
    assert!(msg.contains("found record with 3 fields"));
}

#[test]
fn parse_csv_reads_with_non_ascii_delimiter_byte() {
    // The delimiter "\u{e9}" is cast to the byte 0xE9, which does not occur
    // in this body, so each line is one field.
    let body = "price\n1.0\n";
    let r: DataResponse<Rows> = DataResponse::new(body.to_string(), 200, ResponseFormat::Csv)
        .with_delimiter(Some("\u{e9}".to_string()));
    let rows = r.parse_csv(record).unwrap();
    assert_eq!(rows.0.len(), 1);
    assert_eq!(rows.0[0]["price"], "1.0");
}

#[test]
fn parse_csv_gives_the_records_in_order() {
    let body = "n\n1\n2\n3\n";
    let r: DataResponse<Rows> = DataResponse::new(body.to_string(), 200, ResponseFormat::Csv);
    let rows = r.parse_csv(record).unwrap();
    let got: Vec<&str> = rows.0.iter().map(|m| m["n"].as_str()).collect();
    assert_eq!(got, vec!["1", "2", "3"]);
}

#[test]
fn parse_csv_stops_at_first_decoding_error() {
    let body = "a;b\n1;2\n3;4\n";
    let r: DataResponse<Rows> = DataResponse::new(body.to_string(), 200, ResponseFormat::Csv);
    let mut calls = std::cell::Cell::new(0);
    let res = r.parse_csv(|rec: &csv::StringRecord, _hdr: Option<&csv::StringRecord>| {
        calls.set(calls.get() + 1);
        if &rec[0] == "1" {
            Err(ClientError::DataError("first row refused".to_string()))
        } else {
            Ok(HashMap::new())
        }
    });
    assert_eq!(data_error(res), "first row refused");
    assert_eq!(*calls.get_mut(), 1);
}

#[test]
fn parse_csv_passes_the_header_to_each_record() {
    let body = "a;b\n1;2\n";
    let r: DataResponse<Rows> = DataResponse::new(body.to_string(), 200, ResponseFormat::Csv);
    let rows = r
        .parse_csv(|rec: &csv::StringRecord, hdr: Option<&csv::StringRecord>| {
            let hdr = hdr.expect("header row");
            let mut m = HashMap::new();
            m.insert(hdr[1].to_string(), rec[1].to_string());
            Ok(m)
        })
        .unwrap();
    assert_eq!(rows.0[0]["b"], "2");
}

#[test]
fn parse_dispatches_on_format() {
    let r: DataResponse<Rows> = DataResponse::new(CSV_BODY.to_string(), 200, ResponseFormat::Csv);
    assert_eq!(r.parse(json_rows, record).unwrap().0.len(), 5);
    let body = r#"{"values":[{"close":"1.5"}]}"#;
    let r: DataResponse<Rows> = DataResponse::new(body.to_string(), 200, ResponseFormat::Json);
    assert_eq!(r.parse(json_rows, record).unwrap().0.len(), 1);
}
