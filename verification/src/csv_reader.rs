//! Trusted access to the `csv` crate, which splits CSV replies into records.
//!
//! A reader is treated as a collection of the rows still to be read. What
//! reading yields for a text and a delimiter byte is named by `csv_rows`:
//! one entry per row in reading order, the header row first, each the row's
//! fields or the text of the error where reading that row fails.

use vstd::prelude::*;

verus! {

#[verifier::external_type_specification]
#[verifier::external_body]
pub struct ExCsvReaderBuilder(csv::ReaderBuilder);

#[verifier::external_type_specification]
#[verifier::external_body]
#[verifier::reject_recursive_types(R)]
pub struct ExCsvReader<R>(csv::Reader<R>);

#[verifier::external_type_specification]
#[verifier::external_body]
pub struct ExCsvStringRecord(csv::StringRecord);

#[verifier::external_type_specification]
#[verifier::external_body]
pub struct ExCsvError(csv::Error);

/// The rows a reader built by `new_builder` and `set_delimiter` with the
/// given field delimiter yields for the given bytes, in reading order, the
/// header row first: each the fields of the row, or the `Display` text of
/// the error where reading the row fails.
pub uninterp spec fn csv_rows(data: Seq<u8>, delimiter: u8) -> Seq<Result<Seq<Seq<char>>, Seq<char>>>;

/// The rows a reader has still to yield.
pub uninterp spec fn csv_pending(r: csv::Reader<&[u8]>) -> Seq<Result<Seq<Seq<char>>, Seq<char>>>;

/// Whether the header row of a reader has been read.
pub uninterp spec fn csv_started(r: csv::Reader<&[u8]>) -> bool;

/// The fields of a record.
pub uninterp spec fn csv_fields(rec: csv::StringRecord) -> Seq<Seq<char>>;

/// The field delimiter a reader builder is set to.
pub uninterp spec fn csv_builder_delimiter(b: csv::ReaderBuilder) -> u8;

/// Whether every setting of a reader builder other than the delimiter has
/// its default value.
pub uninterp spec fn csv_plain_builder(b: csv::ReaderBuilder) -> bool;

/// The text the `Display` impl of `csv::Error` gives for an error.
pub uninterp spec fn csv_error_text(e: csv::Error) -> Seq<char>;

/// Calls `csv::ReaderBuilder::new`. Claimed: every setting has its default;
/// the delimiter is `b','`, the documented default.
#[verifier::external_body]
pub(crate) fn new_builder() -> (b: csv::ReaderBuilder)
    ensures
        csv_plain_builder(b),
        csv_builder_delimiter(b) == 44,
{
    csv::ReaderBuilder::new()
}

/// Calls `csv::ReaderBuilder::delimiter`. Claimed: the builder's delimiter
/// becomes `d`, and no other setting changes.
#[verifier::external_body]
pub(crate) fn set_delimiter(b: &mut csv::ReaderBuilder, d: u8)
    ensures
        csv_builder_delimiter(*final(b)) == d,
        csv_plain_builder(*final(b)) == csv_plain_builder(*old(b)),
{
    b.delimiter(d);
}

/// Calls `csv::ReaderBuilder::from_reader` on a byte slice, for a builder
/// whose other settings are at their defaults. Claimed: the reader has read
/// nothing yet and will yield the rows of `data` under the builder's
/// delimiter.
#[verifier::external_body]
pub(crate) fn open_reader<'a>(b: &csv::ReaderBuilder, data: &'a [u8]) -> (r: csv::Reader<&'a [u8]>)
    requires
        csv_plain_builder(*b),
    ensures
        !csv_started(r),
        csv_pending(r) == csv_rows(data@, csv_builder_delimiter(*b)),
{
    b.from_reader(data)
}

/// Calls `csv::Reader::headers` on a reader that has read nothing yet, and
/// clones the record it returns. Claimed: the header row is consumed; the
/// result is its fields, `None` where reading it fails, and an empty record
/// where there is no row at all.
#[verifier::external_body]
pub(crate) fn read_headers(r: &mut csv::Reader<&[u8]>) -> (h: Option<csv::StringRecord>)
    requires
        !csv_started(*old(r)),
    ensures
        csv_started(*final(r)),
        csv_pending(*old(r)).len() == 0 ==> (h matches Some(rec) && csv_fields(rec).len() == 0),
        csv_pending(*old(r)).len() == 0 ==> csv_pending(*final(r)).len() == 0,
        csv_pending(*old(r)).len() > 0 ==> csv_pending(*final(r)) == csv_pending(
            *old(r),
        ).drop_first(),
        csv_pending(*old(r)).len() > 0 ==> match csv_pending(*old(r))[0] {
            Ok(fields) => h matches Some(rec) && csv_fields(rec) == fields,
            Err(_) => h is None,
        },
{
    r.headers().ok().cloned()
}

/// Calls `csv::StringRecord::new`. Claimed: the record has no fields.
#[verifier::external_body]
pub(crate) fn new_record() -> (rec: csv::StringRecord)
    ensures
        csv_fields(rec).len() == 0,
{
    csv::StringRecord::new()
}

/// Calls `csv::Reader::read_record` on a reader whose header row has been
/// read. Claimed: with no row left it returns `Ok(false)` and reads nothing;
/// otherwise it consumes the next row and returns `Ok(true)` with the row's
/// fields in `rec`, or the error where reading the row fails.
#[verifier::external_body]
pub(crate) fn read_record(r: &mut csv::Reader<&[u8]>, rec: &mut csv::StringRecord) -> (res: Result<bool, csv::Error>)
    requires
        csv_started(*old(r)),
    ensures
        csv_started(*final(r)),
        csv_pending(*old(r)).len() == 0 ==> res matches Ok(false),
        csv_pending(*old(r)).len() == 0 ==> csv_pending(*final(r)) == csv_pending(*old(r)),
        csv_pending(*old(r)).len() > 0 ==> csv_pending(*final(r)) == csv_pending(
            *old(r),
        ).drop_first(),
        csv_pending(*old(r)).len() > 0 ==> match csv_pending(*old(r))[0] {
            Ok(fields) => res matches Ok(true) && csv_fields(*final(rec)) == fields,
            Err(text) => res matches Err(e) && csv_error_text(e) == text,
        },
{
    r.read_record(rec)
}

/// Renders a `csv::Error` with its `Display` impl. Claimed: the text named
/// by `csv_error_text`.
#[verifier::external_body]
pub(crate) fn error_text(e: &csv::Error) -> (r: String)
    ensures
        r@ == csv_error_text(*e),
{
    format!("{}", e)
}

} // verus!
