//! Response handling for both JSON and CSV formats.

use crate::csv_reader::{
    csv_fields, csv_pending, csv_rows, csv_started, error_text, new_builder, new_record, open_reader,
    read_headers, read_record, set_delimiter,
};
use crate::error::{is_data_error, ClientError};
use std::marker::PhantomData;
use vstd::prelude::*;
use vstd::utf8::encode_utf8;
use vstd::string::StringExecFns;

verus! {

broadcast use vstd::string::group_string_axioms;

/// Format of an API response.
#[derive(Debug, Clone, Copy, PartialEq, Eq, Structural)]
pub enum ResponseFormat {
    /// JSON response format
    Json,
    /// CSV response format
    Csv,
}

/// The HTTP Content-Type value of a format.
pub open spec fn content_type_of(f: ResponseFormat) -> Seq<char> {
    match f {
        ResponseFormat::Json => "application/json"@,
        ResponseFormat::Csv => "text/csv"@,
    }
}

impl ResponseFormat {
    /// Returns the HTTP Content-Type header value for this format.
    pub fn content_type(&self) -> (r: &'static str)
        ensures
            r@ == content_type_of(*self),
    {
        match self {
            ResponseFormat::Json => "application/json",
            ResponseFormat::Csv => "text/csv",
        }
    }
}

/// A response body together with the facts needed to decode it.
///
/// `T` is the type the body decodes into.
#[derive(Debug)]
pub struct DataResponse<T> {
    pub raw_body: String,
    pub status_code: u16,
    pub format: ResponseFormat,
    pub delimiter: Option<String>,
    pub _phantom: PhantomData<T>,
}

/// The message given when JSON decoding is asked of a CSV response.
pub open spec fn not_json_message() -> Seq<char> {
    "Cannot parse JSON from CSV response"@
}

/// The message given when CSV decoding is asked of a JSON response.
pub open spec fn not_csv_message() -> Seq<char> {
    "Cannot parse CSV from JSON response"@
}

/// The delimiter character used for CSV: the first character of the
/// configured delimiter, or `;` (the service default) when none is set or
/// it is empty.
pub open spec fn csv_delimiter_char(delimiter: Option<Seq<char>>) -> char {
    match delimiter {
        Some(d) => if d.len() > 0 { d[0] } else { ';' },
        None => ';',
    }
}

/// The byte handed to the CSV reader: the delimiter character cast to `u8`,
/// which keeps the low eight bits of its code point (the character itself
/// for an ASCII character).
pub open spec fn csv_delimiter_byte(delimiter: Option<Seq<char>>) -> u8 {
    ((csv_delimiter_char(delimiter) as u32) % 256) as u8
}

/// The view of an optional owned string.
pub open spec fn opt_view(s: Option<String>) -> Option<Seq<char>> {
    match s {
        Some(t) => Some(t@),
        None => None,
    }
}

impl<T> DataResponse<T> {
    /// Creates a new response with no delimiter set.
    pub fn new(raw_body: String, status_code: u16, format: ResponseFormat) -> (r: Self)
        ensures
            r.raw_body == raw_body,
            r.status_code == status_code,
            r.format == format,
            r.delimiter is None,
    {
        DataResponse { raw_body, status_code, format, delimiter: None, _phantom: PhantomData }
    }

    /// Sets the CSV delimiter used for parsing.
    pub fn with_delimiter(self, delimiter: Option<String>) -> (r: Self)
        ensures
            r.raw_body == self.raw_body,
            r.status_code == self.status_code,
            r.format == self.format,
            r.delimiter == delimiter,
    {
        let mut s = self;
        s.delimiter = delimiter;
        s
    }

    /// Returns the format of this response.
    pub fn format(&self) -> (r: &ResponseFormat)
        ensures
            *r == self.format,
    {
        &self.format
    }

    /// Returns `true` if this response is in JSON format.
    pub fn is_json(&self) -> (r: bool)
        ensures
            r == (self.format == ResponseFormat::Json),
    {
        match self.format {
            ResponseFormat::Json => true,
            ResponseFormat::Csv => false,
        }
    }

    /// Returns `true` if this response is in CSV format.
    pub fn is_csv(&self) -> (r: bool)
        ensures
            r == (self.format == ResponseFormat::Csv),
    {
        match self.format {
            ResponseFormat::Json => false,
            ResponseFormat::Csv => true,
        }
    }

    /// Returns the raw response body.
    pub fn raw(&self) -> (r: &str)
        ensures
            r@ == self.raw_body@,
    {
        self.raw_body.as_str()
    }

    /// Returns `(status_code, content_type, body)`.
    pub fn into_parts(self) -> (r: (u16, &'static str, String))
        ensures
            r.0 == self.status_code,
            r.1@ == content_type_of(self.format),
            r.2 == self.raw_body,
    {
        let ct = self.format.content_type();
        (self.status_code, ct, self.raw_body)
    }

    /// The byte the CSV reader is given as its field delimiter: the first
    /// character of the delimiter (`;` when none is set) cast to `u8`.
    pub fn csv_delimiter(&self) -> (b: u8)
        ensures
            b == csv_delimiter_byte(opt_view(self.delimiter)),
    {
        let c = match &self.delimiter {
            Some(d) => first_char_or(d.as_str(), ';'),
            None => ';',
        };
        let u = c as u32;
        (u % 256) as u8
    }
}

fn first_char_or(s: &str, default: char) -> (c: char)
    ensures
        c == (if s@.len() > 0 { s@[0] } else { default }),
{
    let mut it = s.chars();
    match it.next() {
        Some(c) => c,
        None => default,
    }
}

/// Types that can be built from the records of a CSV reply.
///
/// Implement this trait to enable CSV parsing for custom response types.
pub trait CsvParseable: Sized {
    /// The intermediate record type each CSV row is decoded into.
    type CsvRecord;

    /// Converts the decoded records into the final response type.
    fn from_csv_records(records: Vec<Self::CsvRecord>) -> Self;
}

/// The header row handed to every record decoding: the fields of the first
/// row, an empty record where there is no row, `None` where reading the
/// first row fails.
pub open spec fn header_of(rows: Seq<Result<Seq<Seq<char>>, Seq<char>>>) -> Option<Seq<Seq<char>>> {
    if rows.len() == 0 {
        Some(Seq::empty())
    } else {
        match rows[0] {
            Ok(fields) => Some(fields),
            Err(_) => None,
        }
    }
}

/// The rows after the header row.
pub open spec fn data_rows(rows: Seq<Result<Seq<Seq<char>>, Seq<char>>>) -> Seq<Result<Seq<Seq<char>>, Seq<char>>> {
    if rows.len() == 0 {
        rows
    } else {
        rows.drop_first()
    }
}

/// The fields of an optional record.
pub open spec fn opt_fields(h: Option<&csv::StringRecord>) -> Option<Seq<Seq<char>>> {
    match h {
        Some(rec) => Some(csv_fields(*rec)),
        None => None,
    }
}

/// The fields of an optional owned record.
pub open spec fn header_fields(h: Option<csv::StringRecord>) -> Option<Seq<Seq<char>>> {
    match h {
        Some(rec) => Some(csv_fields(rec)),
        None => None,
    }
}

/// `out` is a possible result of `decode` on a record with the given fields
/// under the given header.
pub open spec fn decodes<R, F: Fn(&csv::StringRecord, Option<&csv::StringRecord>) -> Result<R, ClientError>>(
    decode: F,
    fields: Seq<Seq<char>>,
    header: Option<Seq<Seq<char>>>,
    out: Result<R, ClientError>,
) -> bool {
    exists|rec: &csv::StringRecord, hdr: Option<&csv::StringRecord>|
        csv_fields(*rec) == fields && opt_fields(hdr) == header && #[trigger] decode.ensures(
            (rec, hdr),
            out,
        )
}

/// Every data row was read, and `v[i]` is what `decode` gave for row `i`.
pub open spec fn all_decoded<R, F: Fn(&csv::StringRecord, Option<&csv::StringRecord>) -> Result<R, ClientError>>(
    decode: F,
    rows: Seq<Result<Seq<Seq<char>>, Seq<char>>>,
    v: Seq<R>,
) -> bool {
    &&& v.len() == data_rows(rows).len()
    &&& forall|i: int|
        0 <= i < v.len() ==> (#[trigger] data_rows(rows)[i]) is Ok && decodes(
            decode,
            data_rows(rows)[i]->Ok_0,
            header_of(rows),
            Ok(v[i]),
        )
}

/// Reading stopped at data row `k` with the error `e`: every earlier row was
/// read and decoded; row `k` could not be read (and `e` is a `DataError`
/// with the reader's error text), or `decode` gave `Err(e)` for it.
pub open spec fn fails_at<R, F: Fn(&csv::StringRecord, Option<&csv::StringRecord>) -> Result<R, ClientError>>(
    decode: F,
    rows: Seq<Result<Seq<Seq<char>>, Seq<char>>>,
    k: int,
    e: ClientError,
) -> bool {
    &&& 0 <= k < data_rows(rows).len()
    &&& forall|i: int|
        0 <= i < k ==> (#[trigger] data_rows(rows)[i]) is Ok && exists|x: R|
            decodes(decode, data_rows(rows)[i]->Ok_0, header_of(rows), Ok(x))
    &&& match data_rows(rows)[k] {
        Err(text) => e matches ClientError::DataError(m) && m@ == text,
        Ok(fields) => decodes(decode, fields, header_of(rows), Err(e)),
    }
}

/// Reads the records of a CSV text with the given delimiter, the first row
/// being the header, and decodes each with `decode`, stopping at the first
/// row that cannot be read or decoded.
pub fn read_csv_records<R, F: Fn(&csv::StringRecord, Option<&csv::StringRecord>) -> Result<R, ClientError>>(
    data: &str,
    delimiter: u8,
    decode: F,
) -> (r: Result<Vec<R>, ClientError>)
    requires
        forall|rec: &csv::StringRecord, hdr: Option<&csv::StringRecord>|
            #[trigger] decode.requires((rec, hdr)),
    ensures
        r matches Ok(v) ==> all_decoded(decode, csv_rows(encode_utf8(data@), delimiter), v@),
        r matches Err(e) ==> exists|k: int|
            #[trigger] fails_at(decode, csv_rows(encode_utf8(data@), delimiter), k, e),
{
    let ghost rows = csv_rows(encode_utf8(data@), delimiter);
    let mut builder = new_builder();
    set_delimiter(&mut builder, delimiter);
    let bytes = data.as_bytes();
    let mut reader = open_reader(&builder, bytes);
    let headers = read_headers(&mut reader);
    let mut rec = new_record();
    let mut out: Vec<R> = Vec::new();
    assert(csv_pending(reader) =~= data_rows(rows).skip(0));
    loop
        invariant
            forall|rec: &csv::StringRecord, hdr: Option<&csv::StringRecord>|
                #[trigger] decode.requires((rec, hdr)),
            rows == csv_rows(encode_utf8(data@), delimiter),
            csv_started(reader),
            out@.len() <= data_rows(rows).len(),
            csv_pending(reader) == data_rows(rows).skip(out@.len() as int),
            header_fields(headers) == header_of(rows),
            forall|i: int|
                0 <= i < out@.len() ==> (#[trigger] data_rows(rows)[i]) is Ok && decodes(
                    decode,
                    data_rows(rows)[i]->Ok_0,
                    header_of(rows),
                    Ok(out@[i]),
                ),
        ensures
            all_decoded(decode, rows, out@),
        decreases data_rows(rows).len() - out@.len(),
    {
        let ghost k = out@.len() as int;
        match read_record(&mut reader, &mut rec) {
            Err(e) => {
                let msg = error_text(&e);
                proof {
                    assert(fails_at(decode, rows, k, ClientError::DataError(msg)));
                }
                return Err(ClientError::DataError(msg));
            },
            Ok(false) => {
                break ;
            },
            Ok(true) => {
                let hdr = headers.as_ref();
                let item = decode(&rec, hdr);
                assert(decodes(decode, data_rows(rows)[k]->Ok_0, header_of(rows), item));
                match item {
                    Ok(x) => {
                        out.push(x);
                        assert(csv_pending(reader) =~= data_rows(rows).skip(out@.len() as int));
                    },
                    Err(e) => {
                        proof {
                            assert forall|i: int| 0 <= i < k implies (#[trigger] data_rows(rows)[i]) is Ok
                                && exists|x: R| decodes(decode, data_rows(rows)[i]->Ok_0, header_of(rows), Ok(x)) by {
                                assert(decodes(decode, data_rows(rows)[i]->Ok_0, header_of(rows), Ok(out@[i])));
                            }
                            assert(fails_at(decode, rows, k, e));
                        }
                        return Err(e);
                    },
                }
            },
        }
    }
    Ok(out)
}

/// What `parse_json` gives: an error on a CSV response; otherwise a result
/// that `decode` gives for the body.
pub open spec fn json_parsed<T, F: Fn(&str) -> Result<T, ClientError>>(
    resp: DataResponse<T>,
    decode: F,
    r: Result<T, ClientError>,
) -> bool {
    if resp.format != ResponseFormat::Json {
        is_data_error(r, not_json_message())
    } else {
        exists|s: &str| s@ == resp.raw_body@ && #[trigger] decode.ensures((s,), r)
    }
}

/// The rows the CSV reader yields for a response's body under the
/// response's delimiter.
pub open spec fn response_rows<T>(resp: DataResponse<T>) -> Seq<Result<Seq<Seq<char>>, Seq<char>>> {
    csv_rows(encode_utf8(resp.raw_body@), csv_delimiter_byte(opt_view(resp.delimiter)))
}

/// What `parse_csv` gives: an error on a JSON response; otherwise, where every data row was read and decoded, what
/// `from_csv_records` gives for the decoded records in row order, and on
/// failure the error of the first row that could not be read or decoded.
pub open spec fn csv_parsed<T: CsvParseable, F: Fn(&csv::StringRecord, Option<&csv::StringRecord>) -> Result<T::CsvRecord, ClientError>>(
    resp: DataResponse<T>,
    decode: F,
    r: Result<T, ClientError>,
) -> bool {
    if resp.format != ResponseFormat::Csv {
        is_data_error(r, not_csv_message())
    } else {
        &&& r matches Ok(x) ==> exists|recs: Vec<T::CsvRecord>|
            #[trigger] all_decoded(decode, response_rows(resp), recs@) && call_ensures(
                T::from_csv_records,
                (recs,),
                x,
            )
        &&& r matches Err(e) ==> exists|k: int| #[trigger] fails_at(decode, response_rows(resp), k, e)
    }
}

/// What `parse` gives: what `parse_json` gives on a JSON response, what
/// `parse_csv` gives on a CSV response.
pub open spec fn parsed<T: CsvParseable, FJ: Fn(&str) -> Result<T, ClientError>, FC: Fn(&csv::StringRecord, Option<&csv::StringRecord>) -> Result<T::CsvRecord, ClientError>>(
    resp: DataResponse<T>,
    decode_json: FJ,
    decode_record: FC,
    r: Result<T, ClientError>,
) -> bool {
    match resp.format {
        ResponseFormat::Json => json_parsed(resp, decode_json, r),
        ResponseFormat::Csv => csv_parsed(resp, decode_record, r),
    }
}

/// `parse` never refuses a response for its format: on a JSON response its
/// result is one the JSON decoder gives for the body, and on a CSV response
/// it succeeds or fails only as the records read and decoded dictate.
pub proof fn lemma_parse_follows_format<T: CsvParseable, FJ: Fn(&str) -> Result<T, ClientError>, FC: Fn(&csv::StringRecord, Option<&csv::StringRecord>) -> Result<T::CsvRecord, ClientError>>(
    resp: DataResponse<T>,
    decode_json: FJ,
    decode_record: FC,
    r: Result<T, ClientError>,
)
    requires
        parsed(resp, decode_json, decode_record, r),
    ensures
        resp.format == ResponseFormat::Json ==> exists|s: &str|
            s@ == resp.raw_body@ && #[trigger] decode_json.ensures((s,), r),
        resp.format == ResponseFormat::Csv ==> (r matches Ok(x) ==> exists|recs: Vec<T::CsvRecord>|
            #[trigger] all_decoded(decode_record, response_rows(resp), recs@) && call_ensures(
                T::from_csv_records,
                (recs,),
                x,
            )),
        resp.format == ResponseFormat::Csv ==> (r matches Err(e) ==> exists|k: int|
            #[trigger] fails_at(decode_record, response_rows(resp), k, e)),
{
}

impl<T> DataResponse<T> {
    /// Parses the response as JSON: `decode` is given the body. A CSV
    /// response is refused.
    pub fn parse_json<F: Fn(&str) -> Result<T, ClientError>>(&self, decode: F) -> (r: Result<T, ClientError>)
        requires
            forall|s: &str| #[trigger] decode.requires((s,)),
        ensures
            json_parsed(*self, decode, r),
    {
        if !self.is_json() {
            return Err(ClientError::DataError(String::from_str("Cannot parse JSON from CSV response")));
        }
        let body = self.raw_body.as_str();
        decode(body)
    }
}

impl<T: CsvParseable> DataResponse<T> {
    /// Parses the response as CSV: the body is read with the response's
    /// delimiter (`;` by default), its first row taken as the header, each
    /// further row decoded with `decode_record`, and the records converted
    /// with [`CsvParseable::from_csv_records`]. A JSON response is refused.
    pub fn parse_csv<F: Fn(&csv::StringRecord, Option<&csv::StringRecord>) -> Result<T::CsvRecord, ClientError>>(
        &self,
        decode_record: F,
    ) -> (r: Result<T, ClientError>)
        requires
            forall|rec: &csv::StringRecord, hdr: Option<&csv::StringRecord>|
                #[trigger] decode_record.requires((rec, hdr)),
        ensures
            csv_parsed(*self, decode_record, r),
    {
        if !self.is_csv() {
            return Err(ClientError::DataError(String::from_str("Cannot parse CSV from JSON response")));
        }
        let delimiter = self.csv_delimiter();
        let body = self.raw_body.as_str();
        assert(csv_rows(encode_utf8(body@), delimiter) == response_rows(*self));
        match read_csv_records(body, delimiter, decode_record) {
            Ok(records) => {
                assert(all_decoded(decode_record, response_rows(*self), records@));
                let ghost recs = records;
                let convert = T::from_csv_records;
                let x = convert(records);
                assert(call_ensures(T::from_csv_records, (recs,), x));
                Ok(x)
            },
            Err(e) => {
                Err(e)
            },
        }
    }

    /// Parses the response according to its format: JSON bodies with
    /// `decode_json`, CSV bodies record by record with `decode_record`.
    pub fn parse<FJ: Fn(&str) -> Result<T, ClientError>, FC: Fn(&csv::StringRecord, Option<&csv::StringRecord>) -> Result<T::CsvRecord, ClientError>>(
        &self,
        decode_json: FJ,
        decode_record: FC,
    ) -> (r: Result<T, ClientError>)
        requires
            forall|s: &str| #[trigger] decode_json.requires((s,)),
            forall|rec: &csv::StringRecord, hdr: Option<&csv::StringRecord>|
                #[trigger] decode_record.requires((rec, hdr)),
        ensures
            parsed(*self, decode_json, decode_record, r),
    {
        match self.format {
            ResponseFormat::Json => self.parse_json(decode_json),
            ResponseFormat::Csv => self.parse_csv(decode_record),
        }
    }
}

/// The two formats have different content types.
pub proof fn lemma_content_types_differ()
    ensures
        content_type_of(ResponseFormat::Json) != content_type_of(ResponseFormat::Csv),
{
    reveal_strlit("application/json");
    reveal_strlit("text/csv");
    assert(content_type_of(ResponseFormat::Json).len() != content_type_of(ResponseFormat::Csv).len());
}

/// CSV is read with `;` unless a delimiter is set; a set delimiter is read
/// by its first character: that character's byte where it is ASCII, and in
/// every case the low eight bits of its code point.
pub proof fn lemma_csv_delimiter(d: Seq<char>)
    ensures
        csv_delimiter_byte(None) == 59,
        d.len() == 0 ==> csv_delimiter_byte(Some(d)) == 59,
        d.len() > 0 && (d[0] as u32) < 128 ==> csv_delimiter_byte(Some(d)) == d[0] as u32,
        d.len() > 0 ==> csv_delimiter_byte(Some(d)) == (d[0] as u32) % 256,
{
}

/// A CSV response whose delimiter is set is read with the byte of the
/// delimiter's first character where that character is ASCII: a successful
/// parse is `from_csv_records` of the records that reading the body with
/// that byte yields, decoded in row order, and a failed one carries the
/// error of the first row that this reading could not read or decode.
pub proof fn lemma_parse_csv_uses_set_delimiter<T: CsvParseable, F: Fn(&csv::StringRecord, Option<&csv::StringRecord>) -> Result<T::CsvRecord, ClientError>>(
    resp: DataResponse<T>,
    decode: F,
    r: Result<T, ClientError>,
    d: Seq<char>,
)
    requires
        csv_parsed(resp, decode, r),
        resp.format == ResponseFormat::Csv,
        opt_view(resp.delimiter) == Some(d),
        d.len() > 0,
        (d[0] as u32) < 128,
    ensures
        r matches Ok(x) ==> exists|recs: Vec<T::CsvRecord>|
            #[trigger] all_decoded(
                decode,
                csv_rows(encode_utf8(resp.raw_body@), d[0] as u32 as u8),
                recs@,
            ) && call_ensures(T::from_csv_records, (recs,), x),
        r matches Err(e) ==> exists|k: int|
            #[trigger] fails_at(decode, csv_rows(encode_utf8(resp.raw_body@), d[0] as u32 as u8), k, e),
{
    assert(csv_delimiter_byte(opt_view(resp.delimiter)) == d[0] as u32 as u8);
}

/// A CSV response with no delimiter set is read with `;`.
pub proof fn lemma_parse_csv_default_delimiter<T: CsvParseable, F: Fn(&csv::StringRecord, Option<&csv::StringRecord>) -> Result<T::CsvRecord, ClientError>>(
    resp: DataResponse<T>,
    decode: F,
    r: Result<T, ClientError>,
)
    requires
        csv_parsed(resp, decode, r),
        resp.format == ResponseFormat::Csv,
        resp.delimiter is None,
    ensures
        r matches Ok(x) ==> exists|recs: Vec<T::CsvRecord>|
            #[trigger] all_decoded(decode, csv_rows(encode_utf8(resp.raw_body@), 59u8), recs@)
                && call_ensures(T::from_csv_records, (recs,), x),
        r matches Err(e) ==> exists|k: int|
            #[trigger] fails_at(decode, csv_rows(encode_utf8(resp.raw_body@), 59u8), k, e),
{
}

} // verus!
