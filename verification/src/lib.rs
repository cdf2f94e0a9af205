//! A client library for the Twelve Data financial market API.
//!
//! Request parameters, the request URL, the screening of service replies
//! (status code, JSON or CSV detection, error replies), and the dispatch of
//! JSON and CSV decoding are specified and proved here. The HTTP transport
//! and the serde decoding of caller types are supplied by the caller.

pub mod client;
pub mod csv_reader;
pub mod error;
pub mod json;
pub mod params;
pub mod response;
pub mod text;

pub use client::{accept_response, request_url, TwelveData, API_URL};
pub use error::ClientError;
pub use params::{
    CommonQueryParameters, CommonQueryParametersBuilder, CommonQueryParametersBuilderError,
    InstrumentType, Interval, Order, OutputFormat,
};
pub use response::{CsvParseable, DataResponse, ResponseFormat};
