//! Query parameters shared by the endpoints.

use vstd::prelude::*;
use vstd::string::StringExecFns;

verus! {

/// Time interval between two consecutive points of a series.
#[derive(Debug, Clone, Copy, PartialEq, Eq, Structural)]
pub enum Interval {
    Minute,
    FiveMinutes,
    FifteenMinutes,
    ThirtyMinutes,
    FortyFiveMinutes,
    Hour,
    TwoHours,
    FourHours,
    Day,
    Week,
    Month,
}

/// The name the service uses for an interval.
pub open spec fn interval_name(i: Interval) -> Seq<char> {
    match i {
        Interval::Minute => "1min"@,
        Interval::FiveMinutes => "5min"@,
        Interval::FifteenMinutes => "15min"@,
        Interval::ThirtyMinutes => "30min"@,
        Interval::FortyFiveMinutes => "45min"@,
        Interval::Hour => "1h"@,
        Interval::TwoHours => "2h"@,
        Interval::FourHours => "4h"@,
        Interval::Day => "1day"@,
        Interval::Week => "1week"@,
        Interval::Month => "1month"@,
    }
}

impl Interval {
    /// The name the service uses for this interval, such as `1min` or `1day`.
    pub fn as_str(&self) -> (r: &'static str)
        ensures
            r@ == interval_name(*self),
    {
        match self {
            Interval::Minute => "1min",
            Interval::FiveMinutes => "5min",
            Interval::FifteenMinutes => "15min",
            Interval::ThirtyMinutes => "30min",
            Interval::FortyFiveMinutes => "45min",
            Interval::Hour => "1h",
            Interval::TwoHours => "2h",
            Interval::FourHours => "4h",
            Interval::Day => "1day",
            Interval::Week => "1week",
            Interval::Month => "1month",
        }
    }

    /// The name the service uses for this interval, as an owned string.
    pub fn to_string(&self) -> (r: String)
        ensures
            r@ == interval_name(*self),
    {
        String::from_str(self.as_str())
    }
}

/// Type of financial instrument.
#[derive(Debug, Clone, Copy, PartialEq, Eq, Structural)]
pub enum InstrumentType {
    Stock,
    Index,
    ETF,
    REIT,
}

/// Output format for API responses.
#[derive(Debug, Clone, Copy, PartialEq, Eq, Structural)]
pub enum OutputFormat {
    /// JSON format (default): includes metadata and structured data.
    JSON,
    /// CSV format: semicolon-delimited by default, no metadata.
    CSV,
}

/// The upper-case form of a text, as `str::to_uppercase` computes it
/// (Unicode case mapping).
pub uninterp spec fn unicode_uppercase(s: Seq<char>) -> Seq<char>;

/// Whether every character of a text is ASCII.
pub open spec fn is_ascii_text(s: Seq<char>) -> bool {
    forall|i: int| 0 <= i < s.len() ==> (#[trigger] s[i] as u32) < 128
}

/// The ASCII upper-case form of a character: `a`..`z` become `A`..`Z`,
/// every other character stays.
pub open spec fn ascii_upper_char(c: char) -> char {
    if 'a' <= c && c <= 'z' {
        ((c as u32) - 32) as char
    } else {
        c
    }
}

/// The ASCII lower-case form of a character: `A`..`Z` become `a`..`z`,
/// every other character stays.
pub open spec fn ascii_lower_char(c: char) -> char {
    if 'A' <= c && c <= 'Z' {
        ((c as u32) + 32) as char
    } else {
        c
    }
}

/// A text with its ASCII letters upper-cased.
pub open spec fn ascii_upper(s: Seq<char>) -> Seq<char> {
    s.map_values(|c: char| ascii_upper_char(c))
}

/// A text with its ASCII letters lower-cased.
pub open spec fn ascii_lower(s: Seq<char>) -> Seq<char> {
    s.map_values(|c: char| ascii_lower_char(c))
}

/// Calls `str::to_uppercase`. Claimed: the result is the text named by
/// `unicode_uppercase`; for an ASCII text it is the text with `a`..`z`
/// replaced by `A`..`Z` (the Unicode upper-case mapping of the ASCII
/// range, which leaves every other ASCII character as it is).
#[verifier::external_body]
fn to_uppercase(s: &str) -> (r: String)
    ensures
        r@ == unicode_uppercase(s@),
        is_ascii_text(s@) ==> r@ == ascii_upper(s@),
{
    s.to_uppercase()
}

/// The name of an output format as the service spells it.
pub open spec fn format_name(f: OutputFormat) -> Seq<char> {
    match f {
        OutputFormat::JSON => "JSON"@,
        OutputFormat::CSV => "CSV"@,
    }
}

/// The output format an upper-case name stands for.
pub open spec fn format_named(upper: Seq<char>) -> Option<OutputFormat> {
    if upper == "JSON"@ {
        Some(OutputFormat::JSON)
    } else if upper == "CSV"@ {
        Some(OutputFormat::CSV)
    } else {
        None
    }
}

impl OutputFormat {
    /// The format that an already upper-cased name stands for: `JSON` or
    /// `CSV`; `None` for any other text.
    pub fn from_uppercase(upper: &str) -> (r: Option<OutputFormat>)
        ensures
            r == format_named(upper@),
    {
        let u = String::from_str(upper);
        if u == String::from_str("JSON") {
            Some(OutputFormat::JSON)
        } else if u == String::from_str("CSV") {
            Some(OutputFormat::CSV)
        } else {
            None
        }
    }

    /// The format a name stands for, in any letter case (`csv`, `Csv`,
    /// `CSV`, ...): the name is upper-cased and then read by
    /// [`OutputFormat::from_uppercase`].
    pub fn from_name(name: &str) -> (r: Option<OutputFormat>)
        ensures
            r == format_named(unicode_uppercase(name@)),
            is_ascii_text(name@) ==> r == format_named(ascii_upper(name@)),
    {
        let upper = to_uppercase(name);
        OutputFormat::from_uppercase(upper.as_str())
    }

    /// The name of the format as the service spells it.
    pub fn as_str(&self) -> (r: &'static str)
        ensures
            r@ == format_name(*self),
    {
        match self {
            OutputFormat::JSON => "JSON",
            OutputFormat::CSV => "CSV",
        }
    }
}

impl Default for OutputFormat {
    fn default() -> (r: Self)
        ensures
            r == OutputFormat::JSON,
    {
        OutputFormat::JSON
    }
}

/// Sort order of a series.
#[derive(Debug, Clone, Copy, PartialEq, Eq, Structural)]
pub enum Order {
    ASC,
    DESC,
}

/// Query parameters accepted by every endpoint; each is sent only when set.
#[derive(Debug)]
pub struct CommonQueryParameters {
    pub exchange: Option<String>,
    pub mic_code: Option<String>,
    pub country: Option<String>,
    /// Sent as `type`.
    pub instrument_type: Option<InstrumentType>,
    pub format: Option<OutputFormat>,
    pub delimiter: Option<String>,
    /// Sent as `dp`.
    pub decimal_places: Option<u8>,
    pub timezone: Option<String>,
}

/// The parameters with nothing set.
pub open spec fn no_parameters() -> CommonQueryParameters {
    CommonQueryParameters {
        exchange: None,
        mic_code: None,
        country: None,
        instrument_type: None,
        format: None,
        delimiter: None,
        decimal_places: None,
        timezone: None,
    }
}

impl Default for CommonQueryParameters {
    fn default() -> (r: Self)
        ensures
            r == no_parameters(),
    {
        CommonQueryParameters {
            exchange: None,
            mic_code: None,
            country: None,
            instrument_type: None,
            format: None,
            delimiter: None,
            decimal_places: None,
            timezone: None,
        }
    }
}

/// Error of [`CommonQueryParametersBuilder::build`]. Every parameter is
/// optional, so building never fails and this error is never produced.
#[derive(Debug)]
pub enum CommonQueryParametersBuilderError {
    UninitializedField(String),
}

/// Builder of [`CommonQueryParameters`]; parameters that are never set stay
/// unset.
#[derive(Debug)]
pub struct CommonQueryParametersBuilder {
    params: CommonQueryParameters,
}

impl CommonQueryParameters {
    /// A builder with no parameter set.
    pub fn builder() -> (b: CommonQueryParametersBuilder)
        ensures
            b.pending() == no_parameters(),
    {
        CommonQueryParametersBuilder::default()
    }
}

impl Default for CommonQueryParametersBuilder {
    fn default() -> (b: Self)
        ensures
            b.pending() == no_parameters(),
    {
        CommonQueryParametersBuilder { params: CommonQueryParameters::default() }
    }
}

impl CommonQueryParametersBuilder {
    /// The parameters that `build` will return.
    pub closed spec fn pending(&self) -> CommonQueryParameters {
        self.params
    }

    pub fn exchange(self, value: String) -> (b: Self)
        ensures
            b.pending() == (CommonQueryParameters { exchange: Some(value), ..self.pending() }),
    {
        let mut b = self;
        b.params.exchange = Some(value);
        b
    }

    pub fn mic_code(self, value: String) -> (b: Self)
        ensures
            b.pending() == (CommonQueryParameters { mic_code: Some(value), ..self.pending() }),
    {
        let mut b = self;
        b.params.mic_code = Some(value);
        b
    }

    pub fn country(self, value: String) -> (b: Self)
        ensures
            b.pending() == (CommonQueryParameters { country: Some(value), ..self.pending() }),
    {
        let mut b = self;
        b.params.country = Some(value);
        b
    }

    pub fn instrument_type(self, value: InstrumentType) -> (b: Self)
        ensures
            b.pending() == (CommonQueryParameters { instrument_type: Some(value), ..self.pending() }),
    {
        let mut b = self;
        b.params.instrument_type = Some(value);
        b
    }

    pub fn format(self, value: OutputFormat) -> (b: Self)
        ensures
            b.pending() == (CommonQueryParameters { format: Some(value), ..self.pending() }),
    {
        let mut b = self;
        b.params.format = Some(value);
        b
    }

    pub fn delimiter(self, value: String) -> (b: Self)
        ensures
            b.pending() == (CommonQueryParameters { delimiter: Some(value), ..self.pending() }),
    {
        let mut b = self;
        b.params.delimiter = Some(value);
        b
    }

    pub fn decimal_places(self, value: u8) -> (b: Self)
        ensures
            b.pending() == (CommonQueryParameters { decimal_places: Some(value), ..self.pending() }),
    {
        let mut b = self;
        b.params.decimal_places = Some(value);
        b
    }

    pub fn timezone(self, value: String) -> (b: Self)
        ensures
            b.pending() == (CommonQueryParameters { timezone: Some(value), ..self.pending() }),
    {
        let mut b = self;
        b.params.timezone = Some(value);
        b
    }

    /// Builds the parameters; this always succeeds.
    pub fn build(self) -> (r: Result<CommonQueryParameters, CommonQueryParametersBuilderError>)
        ensures
            r matches Ok(p) && p == self.pending(),
    {
        Ok(self.params)
    }
}

/// Distinct intervals have distinct names.
pub proof fn lemma_interval_names_distinct(a: Interval, b: Interval)
    ensures
        interval_name(a) == interval_name(b) ==> a == b,
{
    reveal_strlit("1min");
    reveal_strlit("5min");
    reveal_strlit("15min");
    reveal_strlit("30min");
    reveal_strlit("45min");
    reveal_strlit("1h");
    reveal_strlit("2h");
    reveal_strlit("4h");
    reveal_strlit("1day");
    reveal_strlit("1week");
    reveal_strlit("1month");
    if interval_name(a) == interval_name(b) && a != b {
        assert(interval_name(a).len() == interval_name(b).len());
        assert(interval_name(a)[0] == interval_name(b)[0]);
        assert(interval_name(a)[1] == interval_name(b)[1]);
    }
}

/// For ASCII names the format does not depend on letter case: a name, its
/// lower-case form and its upper-case form stand for the same format (as
/// `OutputFormat::from_name` reads ASCII names).
pub proof fn lemma_format_name_case_insensitive(s: Seq<char>)
    requires
        is_ascii_text(s),
    ensures
        is_ascii_text(ascii_lower(s)),
        is_ascii_text(ascii_upper(s)),
        format_named(ascii_upper(ascii_lower(s))) == format_named(ascii_upper(s)),
        format_named(ascii_upper(ascii_upper(s))) == format_named(ascii_upper(s)),
{
    assert forall|i: int| 0 <= i < ascii_lower(s).len() implies (#[trigger] ascii_lower(s)[i] as u32) < 128 by {
        assert((s[i] as u32) < 128);
    }
    assert forall|i: int| 0 <= i < ascii_upper(s).len() implies (#[trigger] ascii_upper(s)[i] as u32) < 128 by {
        assert((s[i] as u32) < 128);
    }
    assert(ascii_upper(ascii_lower(s)) =~= ascii_upper(s));
    assert(ascii_upper(ascii_upper(s)) =~= ascii_upper(s));
}

/// Every format is read back from its own name, in any ASCII letter case.
pub proof fn lemma_format_name_round_trip(f: OutputFormat)
    ensures
        is_ascii_text(format_name(f)),
        format_named(ascii_upper(format_name(f))) == Some(f),
        format_named(ascii_upper(ascii_lower(format_name(f)))) == Some(f),
{
    reveal_strlit("JSON");
    reveal_strlit("CSV");
    let n = format_name(f);
    assert(ascii_upper(n) =~= n);
    lemma_format_name_case_insensitive(n);
}

} // verus!
