//! The client and the decisions it takes on each exchange with the service.
//!
//! A request is sent in three steps: the URL is built here, the transport
//! (supplied by the caller) performs the HTTP GET, and the reply is handed
//! back to [`accept_response`], which decides whether it is usable.

use crate::error::{is_data_error, ClientError};
use crate::json::{as_str, is_string, json_document, json_member, json_string, member, parse_document};
use crate::response::{opt_view, DataResponse, ResponseFormat};
use crate::text::{decimal, first_non_white, is_white_space, push_decimal, trim_start};
use vstd::prelude::*;
use vstd::string::StringExecFns;

verus! {

/// The base URL of the service.
pub const API_URL: &'static str = "https://api.twelvedata.com";

/// The URL of an endpoint with its encoded query parameters.
pub open spec fn url_of(endpoint: Seq<char>, params: Seq<char>) -> Seq<char> {
    API_URL@ + "/"@ + endpoint + "?"@ + params
}

/// Builds the URL of a request: `{API_URL}/{endpoint}?{params}`.
pub fn request_url(endpoint: &str, params: &str) -> (url: String)
    ensures
        url@ == url_of(endpoint@, params@),
{
    let mut url = String::from_str(API_URL);
    url.append("/");
    url.append(endpoint);
    url.append("?");
    url.append(params);
    url
}

/// Main client for interacting with the Twelve Data API.
///
/// `C` is the transport that performs the HTTP requests.
pub struct TwelveData<C> {
    api_key: String,
    client: C,
}

impl<C> TwelveData<C> {
    /// The API key the client sends with each request.
    pub closed spec fn key(&self) -> Seq<char> {
        self.api_key@
    }

    /// The transport the client was made with.
    pub closed spec fn transport(&self) -> C {
        self.client
    }

    /// Creates a new client from an API key and a transport.
    pub fn new(api_key: &str, client: C) -> (r: Self)
        ensures
            r.key() == api_key@,
            r.transport() == client,
    {
        TwelveData { api_key: api_key.to_owned(), client }
    }

    /// The API key.
    pub fn api_key(&self) -> (r: &str)
        ensures
            r@ == self.key(),
    {
        self.api_key.as_str()
    }

    /// The transport.
    pub fn client(&self) -> (r: &C)
        ensures
            *r == self.transport(),
    {
        &self.client
    }
}

/// The format a body is in: JSON where its first character after leading
/// white space is `{` or `[`, CSV otherwise.
pub open spec fn format_of_body(body: Seq<char>) -> ResponseFormat {
    let t = trim_start(body);
    if t.len() > 0 && (t[0] == '{' || t[0] == '[') {
        ResponseFormat::Json
    } else {
        ResponseFormat::Csv
    }
}

/// Determines the format of a response body.
pub fn detect_format(body: &str) -> (f: ResponseFormat)
    ensures
        f == format_of_body(body@),
{
    match first_non_white(body) {
        Some(c) => if c == '{' || c == '[' {
            ResponseFormat::Json
        } else {
            ResponseFormat::Csv
        },
        None => ResponseFormat::Csv,
    }
}

/// What the `status` member of a JSON reply is.
#[derive(Debug, PartialEq, Eq)]
pub enum StatusField {
    /// The reply has no `status` member (or is not an object).
    Missing,
    /// The `status` member is not a string.
    NotText,
    /// The `status` member is this string.
    Text(String),
}

/// The message of a reply whose status is not a string.
pub open spec fn status_not_text_message() -> Seq<char> {
    "status value in the response is not a string"@
}

/// The message used when an error reply gives no reason.
pub open spec fn unknown_reason() -> Seq<char> {
    "<unknown reason>"@
}

impl View for StatusField {
    /// `None` for a missing member, `Some(None)` for one that is not a
    /// string, `Some(Some(s))` for the string `s`.
    type V = Option<Option<Seq<char>>>;

    open spec fn view(&self) -> Option<Option<Seq<char>>> {
        match self {
            StatusField::Missing => None,
            StatusField::NotText => Some(None),
            StatusField::Text(s) => Some(Some(s@)),
        }
    }
}

/// The verdict on a JSON reply, given its `status` member (as
/// [`StatusField`] views it) and its `message` string: `None` when the reply
/// is usable, otherwise the text of the error.
pub open spec fn status_verdict(status: Option<Option<Seq<char>>>, message: Option<Seq<char>>) -> Option<Seq<char>> {
    match status {
        None => None,
        Some(None) => Some(status_not_text_message()),
        Some(Some(s)) => if s == "error"@ {
            Some(
                match message {
                    Some(m) => m,
                    None => unknown_reason(),
                },
            )
        } else {
            None
        },
    }
}

/// The view of an optional string slice.
pub open spec fn opt_str_view(s: Option<&str>) -> Option<Seq<char>> {
    match s {
        Some(t) => Some(t@),
        None => None,
    }
}

/// The verdict on a JSON reply: a reply with a non-string `status` is
/// refused, one whose `status` is `"error"` is refused with its `message`
/// (or `<unknown reason>`), every other reply is accepted.
pub fn judge_status(status: &StatusField, message: Option<&str>) -> (r: Result<(), ClientError>)
    ensures
        match status_verdict(status@, opt_str_view(message)) {
            None => r is Ok,
            Some(m) => is_data_error(r, m),
        },
{
    match status {
        StatusField::Missing => Ok(()),
        StatusField::NotText => Err(
            ClientError::DataError(String::from_str("status value in the response is not a string")),
        ),
        StatusField::Text(s) => {
            if *s == String::from_str("error") {
                let reason = match message {
                    Some(m) => m,
                    None => "<unknown reason>",
                };
                Err(ClientError::DataError(String::from_str(reason)))
            } else {
                Ok(())
            }
        },
    }
}

/// The `status` member of a parsed reply, as [`StatusField`] views it.
pub open spec fn reply_status(doc: serde_json::Value) -> Option<Option<Seq<char>>> {
    match json_member(doc, "status"@) {
        None => None,
        Some(st) => Some(json_string(st)),
    }
}

/// The `message` member of a parsed reply, where it is a string.
pub open spec fn reply_message(doc: serde_json::Value) -> Option<Seq<char>> {
    match json_member(doc, "message"@) {
        Some(m) => json_string(m),
        None => None,
    }
}

/// Reads the `status` member of a parsed reply.
fn read_status(doc: &serde_json::Value) -> (r: StatusField)
    ensures
        r@ == reply_status(*doc),
{
    match member(doc, "status") {
        None => StatusField::Missing,
        Some(st) => {
            if !is_string(st) {
                StatusField::NotText
            } else {
                match as_str(st) {
                    Some(s) => StatusField::Text(String::from_str(s)),
                    None => StatusField::NotText,
                }
            }
        },
    }
}

/// Reads the `message` member of a parsed reply, where it is a string.
fn read_message<'a>(doc: &'a serde_json::Value) -> (r: Option<&'a str>)
    ensures
        opt_str_view(r) == reply_message(*doc),
{
    match member(doc, "message") {
        Some(m) => as_str(m),
        None => None,
    }
}

/// Screens a body that is in JSON format: it must parse, and the service
/// must not report an error in it.
pub fn screen_json(body: &str) -> (r: Result<(), ClientError>)
    ensures
        json_document(body@) is None ==> r matches Err(ClientError::Json(_)),
        json_document(body@) matches Some(doc) ==> match status_verdict(
            reply_status(doc),
            reply_message(doc),
        ) {
            None => r is Ok,
            Some(m) => is_data_error(r, m),
        },
{
    let doc = match parse_document(body) {
        Ok(doc) => doc,
        Err(e) => return Err(ClientError::Json(e)),
    };
    let status = read_status(&doc);
    let message = match &status {
        StatusField::Text(s) => if *s == String::from_str("error") {
            read_message(&doc)
        } else {
            None
        },
        _ => None,
    };
    judge_status(&status, message)
}

/// The CSV delimiter a request asks for: the `delimiter` member of its
/// encoded parameters, where that member is a string.
pub open spec fn delimiter_member(params: serde_json::Value) -> Option<Seq<char>> {
    match json_member(params, "delimiter"@) {
        Some(m) => json_string(m),
        None => None,
    }
}

/// Reads the CSV delimiter a request asks for from its parameters encoded
/// as JSON (see [`delimiter_member`]).
pub fn request_delimiter(params: &serde_json::Value) -> (r: Option<String>)
    ensures
        opt_view(r) == delimiter_member(*params),
{
    match member(params, "delimiter") {
        Some(m) => match as_str(m) {
            Some(d) => Some(String::from_str(d)),
            None => None,
        },
        None => None,
    }
}

/// The message for a reply with a status code other than 200.
pub open spec fn http_status_message(status: u16) -> Seq<char> {
    "HTTP status "@ + decimal(status as nat)
}

/// What the client makes of a reply: an error for any status code other
/// than 200; otherwise the body's format is detected, a JSON body is
/// screened by [`screen_json`], and the body is returned with its status
/// code, format and the CSV delimiter the request asked for.
pub open spec fn accepted<T>(
    status: u16,
    body: Seq<char>,
    delimiter: Option<Seq<char>>,
    r: Result<DataResponse<T>, ClientError>,
) -> bool {
    if status != 200 {
        is_data_error(r, http_status_message(status))
    } else if format_of_body(body) == ResponseFormat::Json && json_document(body) is None {
        r matches Err(ClientError::Json(_))
    } else if format_of_body(body) == ResponseFormat::Json && status_verdict(
        reply_status(json_document(body)->0),
        reply_message(json_document(body)->0),
    ) is Some {
        is_data_error(
            r,
            status_verdict(
                reply_status(json_document(body)->0),
                reply_message(json_document(body)->0),
            )->0,
        )
    } else {
        r matches Ok(d) && d.raw_body@ == body && d.status_code == status && d.format
            == format_of_body(body) && opt_view(d.delimiter) == delimiter
    }
}

/// Decides what to make of a reply from the service (see [`accepted`]).
pub fn accept_response<T>(status: u16, body: String, delimiter: Option<String>) -> (r: Result<
    DataResponse<T>,
    ClientError,
>)
    ensures
        accepted(status, body@, opt_view(delimiter), r),
{
    if status != 200 {
        let mut msg = String::from_str("HTTP status ");
        push_decimal(&mut msg, status);
        return Err(ClientError::DataError(msg));
    }
    let format = detect_format(body.as_str());
    if format == ResponseFormat::Json {
        screen_json(body.as_str())?;
    }
    Ok(DataResponse::new(body, status, format).with_delimiter(delimiter))
}

/// Leading white space never changes the detected format: a body is read as
/// JSON or CSV by its first character that is not white space.
pub proof fn lemma_leading_white_space_ignored(ws: Seq<char>, body: Seq<char>)
    requires
        forall|i: int| 0 <= i < ws.len() ==> is_white_space(#[trigger] ws[i]),
    ensures
        format_of_body(ws + body) == format_of_body(body),
{
    lemma_trim_start_skips(ws, body);
}

proof fn lemma_trim_start_skips(ws: Seq<char>, body: Seq<char>)
    requires
        forall|i: int| 0 <= i < ws.len() ==> is_white_space(#[trigger] ws[i]),
    ensures
        trim_start(ws + body) == trim_start(body),
    decreases ws.len(),
{
    if ws.len() == 0 {
        assert(ws + body =~= body);
    } else {
        assert(is_white_space(ws[0]));
        assert((ws + body)[0] == ws[0]);
        assert((ws + body).drop_first() =~= ws.drop_first() + body);
        lemma_trim_start_skips(ws.drop_first(), body);
    }
}

/// Only a reply with status code 200 is ever accepted, and an accepted
/// reply carries its body unchanged.
pub proof fn lemma_accepted_reply<T>(
    status: u16,
    body: Seq<char>,
    delimiter: Option<Seq<char>>,
    r: Result<DataResponse<T>, ClientError>,
)
    requires
        accepted(status, body, delimiter, r),
        r is Ok,
    ensures
        status == 200,
        r->Ok_0.raw_body@ == body,
        r->Ok_0.status_code == 200,
        r->Ok_0.format == format_of_body(body),
        opt_view(r->Ok_0.delimiter) == delimiter,
{
}

/// The URL of a request is the base URL, `/`, the endpoint, `?` and the whole
/// encoded query, in that order: each part stands at its place, and nothing
/// is added, dropped or cut.
pub proof fn lemma_request_url_layout(endpoint: Seq<char>, params: Seq<char>, url: Seq<char>)
    requires
        url == url_of(endpoint, params),
    ensures
        url.len() == API_URL@.len() + endpoint.len() + params.len() + 2,
        url.subrange(0, API_URL@.len() as int) == API_URL@,
        url[API_URL@.len() as int] == '/',
        url.subrange((API_URL@.len() + 1) as int, (API_URL@.len() + 1 + endpoint.len()) as int) == endpoint,
        url[(API_URL@.len() + 1 + endpoint.len()) as int] == '?',
        url.subrange(url.len() - params.len(), url.len() as int) == params,
{
    reveal_strlit("/");
    reveal_strlit("?");
    let n = API_URL@.len() as int;
    let e = endpoint.len() as int;
    assert(url =~= API_URL@ + seq!['/'] + endpoint + seq!['?'] + params);
    assert(url.subrange(0, n) =~= API_URL@);
    assert(url.subrange(n + 1, n + 1 + e) =~= endpoint);
    assert(url.subrange(url.len() - params.len(), url.len() as int) =~= params);
}

/// The delimiter read from a request is its `delimiter` member whenever that
/// member is a string, whatever its characters; there is none when the
/// member is missing or is not a string.
pub proof fn lemma_request_delimiter_member(
    params: serde_json::Value,
    r: Option<Seq<char>>,
)
    requires
        r == delimiter_member(params),
    ensures
        json_member(params, "delimiter"@) matches Some(m) ==> (json_string(m) matches Some(d)
            ==> r == Some(d)),
        json_member(params, "delimiter"@) is None ==> r is None,
        json_member(params, "delimiter"@) matches Some(m) && json_string(m) is None ==> r is None,
{
}

/// A reply with status 200 whose body is not JSON (its first character
/// after leading white space is not `{` or `[`) is always accepted, and the
/// accepted response carries the body, the status, the CSV format and
/// exactly the delimiter it was given (none when none was given).
pub proof fn lemma_accepted_csv_reply<T>(
    status: u16,
    body: Seq<char>,
    delimiter: Option<Seq<char>>,
    r: Result<DataResponse<T>, ClientError>,
)
    requires
        accepted(status, body, delimiter, r),
        status == 200,
        !(trim_start(body).len() > 0 && (trim_start(body)[0] == '{' || trim_start(body)[0] == '[')),
    ensures
        r is Ok,
        r->Ok_0.raw_body@ == body,
        r->Ok_0.status_code == 200,
        r->Ok_0.format == ResponseFormat::Csv,
        opt_view(r->Ok_0.delimiter) == delimiter,
{
}

} // verus!
