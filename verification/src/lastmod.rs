//! The date of last modification of a resource.
use vstd::prelude::*;
use vstd::std_specs::convert::FromSpecImpl;

verus! {

/// `chrono::NaiveDateTime`, a date and time without a time zone. It is
/// carried as it is: nothing of its inside is looked at here.
#[verifier::external_type_specification]
#[verifier::external_body]
pub struct ExNaiveDateTime(chrono::NaiveDateTime);

/// `chrono::FixedOffset`, an offset from UTC. It is carried as it is.
#[verifier::external_type_specification]
#[verifier::external_body]
pub struct ExFixedOffset(chrono::FixedOffset);

/// `chrono_utils::parser::error::ParseError`, the reason why a text is no
/// W3C date and time, with the place in the text. It is carried as it is.
#[verifier::external_type_specification]
#[verifier::external_body]
pub struct ExDateParseError(chrono_utils::parser::error::ParseError);

/// A moment with the offset from UTC under which it was written: the two
/// parts of a `chrono::DateTime<chrono::FixedOffset>`. Any two parts make up
/// such a date and time, and `chrono::DateTime::from_naive_utc_and_offset`
/// puts them together again.
#[derive(Debug, Clone, Copy)]
pub struct Timestamp {
    /// The moment, as date and time in UTC.
    pub utc: chrono::NaiveDateTime,
    /// The offset from UTC.
    pub offset: chrono::FixedOffset,
}

/// The outcome of `chrono_utils::parser::parse_w3c_datetime` on a text: the
/// moment that the text names, with its offset, or the reason why the text
/// is no W3C date and time.
pub uninterp spec fn w3c_datetime_parse(text: Seq<char>) -> Result<
    Timestamp,
    chrono_utils::parser::error::ParseError,
>;

/// Calls `chrono_utils::parser::parse_w3c_datetime`, which is not verified
/// here, and takes a date and time that it returns apart into its two
/// parts. The parser reads nothing but its argument (neither the clock nor
/// the local time zone), so the same text always has the same outcome.
#[verifier::external_body]
fn parse_w3c_datetime(text: &str) -> (res: Result<
    Timestamp,
    chrono_utils::parser::error::ParseError,
>)
    ensures
        res == w3c_datetime_parse(text@),
{
    match chrono_utils::parser::parse_w3c_datetime(text) {
        Ok(time) => Ok(Timestamp { utc: time.naive_utc(), offset: *time.offset() }),
        Err(error) => Err(error),
    }
}

/// The date of last modification of the resource.
#[derive(Debug)]
pub enum LastMod {
    /// No value.
    Absent,
    /// Modification time
    DateTime(Timestamp),
    /// Parse error
    Invalid(chrono_utils::parser::error::ParseError),
}

impl LastMod {
    /// The date that the outcome of parsing a date and time gives.
    pub open spec fn converted(
        parsed: Result<Timestamp, chrono_utils::parser::error::ParseError>,
    ) -> LastMod {
        match parsed {
            Ok(time) => LastMod::DateTime(time),
            Err(error) => LastMod::Invalid(error),
        }
    }

    /// The date that a text gives.
    pub open spec fn parsed(text: Seq<char>) -> LastMod {
        LastMod::converted(w3c_datetime_parse(text))
    }

    /// Returns modification time if present.
    pub fn get_time(&self) -> (res: Option<Timestamp>)
        ensures
            res == (match *self {
                LastMod::DateTime(time) => Some(time),
                _ => None,
            }),
    {
        match *self {
            LastMod::DateTime(time) => Some(time),
            _ => None,
        }
    }

    /// Converts the outcome of parsing a date and time. A failure is kept
    /// as it is.
    pub fn from_parsed(
        parsed: Result<Timestamp, chrono_utils::parser::error::ParseError>,
    ) -> (res: LastMod)
        ensures
            res == LastMod::converted(parsed),
    {
        match parsed {
            Ok(time) => LastMod::DateTime(time),
            Err(error) => LastMod::Invalid(error),
        }
    }
}

impl Clone for LastMod {
    fn clone(&self) -> (res: Self)
        ensures
            res == *self,
    {
        match self {
            LastMod::Absent => LastMod::Absent,
            LastMod::DateTime(time) => LastMod::DateTime(*time),
            LastMod::Invalid(error) => LastMod::Invalid(*error),
        }
    }
}

impl FromSpecImpl<String> for LastMod {
    open spec fn obeys_from_spec() -> bool {
        true
    }

    open spec fn from_spec(time: String) -> LastMod {
        LastMod::parsed(time@)
    }
}

impl From<String> for LastMod {
    /// Parses a W3C date and time from string.
    fn from(time: String) -> (res: LastMod)
        ensures
            res == LastMod::parsed(time@),
    {
        LastMod::from_parsed(parse_w3c_datetime(time.as_str()))
    }
}

/// A text converts to a date or to a parse error, never to an absent value,
/// and to a date exactly when the text parses.
pub proof fn lemma_lastmod_outcome(text: Seq<char>)
    ensures
        !(LastMod::parsed(text) is Absent),
        LastMod::parsed(text) is DateTime <==> w3c_datetime_parse(text) is Ok,
{
}

} // verus!
