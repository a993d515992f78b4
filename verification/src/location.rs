//! The address of a page or of a sitemap.
use vstd::prelude::*;
use vstd::std_specs::convert::FromSpecImpl;

verus! {

/// `url::Url`, an address that parsed. It is carried as it is: nothing of
/// its inside is looked at here.
#[verifier::external_type_specification]
#[verifier::external_body]
pub struct ExUrl(url::Url);

/// `url::ParseError`, the reason why a text is no address. It is carried
/// as it is.
#[verifier::external_type_specification]
#[verifier::external_body]
pub struct ExUrlParseError(url::ParseError);

/// The outcome of `url::Url::parse` on a text: the parsed address, or the
/// reason why the text is no absolute address.
pub uninterp spec fn url_parse(input: Seq<char>) -> Result<url::Url, url::ParseError>;

/// `url::Url::parse` is not verified here. It reads nothing but its
/// argument, so the same text always has the same outcome.
pub assume_specification[ url::Url::parse ](input: &str) -> (res: Result<
    url::Url,
    url::ParseError,
>)
    ensures
        res == url_parse(input@),
;

/// The clone of a `url::Url` is the same address. Not verified here: the
/// `url` crate derives it.
pub assume_specification[ <url::Url as Clone>::clone ](url: &url::Url) -> (res: url::Url)
    ensures
        res == *url,
;

/// Url location.
#[derive(Debug)]
pub enum Location {
    /// No value.
    Absent,
    /// Url
    Url(url::Url),
    /// Url parse error.
    Invalid(url::ParseError),
}

impl Location {
    /// The location that the outcome of parsing an address gives.
    pub open spec fn converted(parsed: Result<url::Url, url::ParseError>) -> Location {
        match parsed {
            Ok(url) => Location::Url(url),
            Err(error) => Location::Invalid(error),
        }
    }

    /// The location that a text gives.
    pub open spec fn parsed(text: Seq<char>) -> Location {
        Location::converted(url_parse(text))
    }

    /// Returns url if present.
    pub fn get_url(&self) -> (res: Option<url::Url>)
        ensures
            res == (match *self {
                Location::Url(url) => Some(url),
                _ => None,
            }),
    {
        match *self {
            Location::Url(ref url) => Some(url.clone()),
            _ => None,
        }
    }

    /// Converts the outcome of parsing an address. A failure is kept as it
    /// is.
    pub fn from_parsed(parsed: Result<url::Url, url::ParseError>) -> (res: Location)
        ensures
            res == Location::converted(parsed),
    {
        match parsed {
            Ok(url) => Location::Url(url),
            Err(error) => Location::Invalid(error),
        }
    }
}

impl Clone for Location {
    fn clone(&self) -> (res: Self)
        ensures
            res == *self,
    {
        match self {
            Location::Absent => Location::Absent,
            Location::Url(url) => Location::Url(url.clone()),
            Location::Invalid(error) => Location::Invalid(*error),
        }
    }
}

impl FromSpecImpl<String> for Location {
    open spec fn obeys_from_spec() -> bool {
        true
    }

    open spec fn from_spec(url: String) -> Location {
        Location::parsed(url@)
    }
}

impl From<String> for Location {
    /// Parses Url from string.
    fn from(url: String) -> (res: Location)
        ensures
            res == Location::parsed(url@),
    {
        Location::from_parsed(url::Url::parse(url.as_str()))
    }
}

/// A text converts to an address or to a parse error, never to an absent
/// value, and to an address exactly when the text parses.
pub proof fn lemma_location_outcome(text: Seq<char>)
    ensures
        !(Location::parsed(text) is Absent),
        Location::parsed(text) is Url <==> url_parse(text) is Ok,
{
}

} // verus!
