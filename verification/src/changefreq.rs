//! How frequently a page is likely to change.
use crate::text::lowercase;
use crate::text::lowercased;
use crate::text::text_eq;
use crate::text::ascii_lowercase;
use crate::text::ascii_lowercase_char;
use vstd::prelude::*;
use vstd::std_specs::cmp::PartialEqSpecImpl;
use vstd::std_specs::convert::FromSpecImpl;
use vstd::utf8::is_ascii_chars;

verus! {

/// Error parsing a change frequency.
#[derive(Debug)]
pub struct ChangeFreqParseError {
    /// Error description: the text that was not recognized.
    pub description: String,
}

impl ChangeFreqParseError {
    /// Creates new error.
    pub fn new(description: String) -> (res: ChangeFreqParseError)
        ensures
            res.description == description,
    {
        ChangeFreqParseError { description: description }
    }

    /// The message of this error, as a sequence of characters.
    pub open spec fn message(&self) -> Seq<char> {
        "Not recognezed string '"@ + self.description@ + "'"@
    }

    /// The message of this error: the offending text between quotes, after
    /// a fixed introduction.
    pub fn to_string(&self) -> (res: String)
        ensures
            res@ == self.message(),
    {
        let mut text = String::from_str("Not recognezed string '");
        text.append(self.description.as_str());
        text.append("'");
        text
    }
}

impl Clone for ChangeFreqParseError {
    fn clone(&self) -> (res: Self)
        ensures
            res == *self,
    {
        ChangeFreqParseError { description: self.description.clone() }
    }
}

impl PartialEq for ChangeFreqParseError {
    /// Two errors are equal when their descriptions hold the same text.
    fn eq(&self, other: &Self) -> (res: bool)
        ensures
            res == (self.description@ == other.description@),
    {
        self.description == other.description
    }
}

impl PartialEqSpecImpl for ChangeFreqParseError {
    open spec fn obeys_eq_spec() -> bool {
        true
    }

    open spec fn eq_spec(&self, other: &Self) -> bool {
        self.description@ == other.description@
    }
}

/// How frequently the page is likely to change.
#[derive(Debug)]
pub enum ChangeFreq {
    /// No value.
    Absent,
    /// Document that change each time.
    Always,
    /// Document that change each hour.
    Hourly,
    /// Document that change each day.
    Daily,
    /// Document that change each week.
    Weekly,
    /// Document that change each month.
    Monthly,
    /// Document that change each year.
    Yearly,
    /// Archived URL.
    Never,
    /// Parse error.
    Invalid(ChangeFreqParseError),
}

impl ChangeFreq {
    /// Whether this is one of the seven frequencies, that is neither absent
    /// nor a parse error.
    pub open spec fn is_frequency(self) -> bool {
        !(self is Absent) && !(self is Invalid)
    }

    /// The canonical token of a frequency. An absent value and a parse error
    /// have the empty text.
    pub open spec fn token(self) -> Seq<char> {
        match self {
            ChangeFreq::Always => "always"@,
            ChangeFreq::Hourly => "hourly"@,
            ChangeFreq::Daily => "daily"@,
            ChangeFreq::Weekly => "weekly"@,
            ChangeFreq::Monthly => "monthly"@,
            ChangeFreq::Yearly => "yearly"@,
            ChangeFreq::Never => "never"@,
            ChangeFreq::Absent => Seq::empty(),
            ChangeFreq::Invalid(_) => Seq::empty(),
        }
    }

    /// The frequency whose canonical token is exactly `text`, if there is one.
    pub open spec fn named(text: Seq<char>) -> Option<ChangeFreq> {
        if text == "always"@ {
            Some(ChangeFreq::Always)
        } else if text == "hourly"@ {
            Some(ChangeFreq::Hourly)
        } else if text == "daily"@ {
            Some(ChangeFreq::Daily)
        } else if text == "weekly"@ {
            Some(ChangeFreq::Weekly)
        } else if text == "monthly"@ {
            Some(ChangeFreq::Monthly)
        } else if text == "yearly"@ {
            Some(ChangeFreq::Yearly)
        } else if text == "never"@ {
            Some(ChangeFreq::Never)
        } else {
            None
        }
    }

    /// What a text converts to, given its lower-case form: the frequency
    /// that the lower-case form names, else a parse error that keeps the
    /// text as it was written.
    pub open spec fn recognized(lowercase: Seq<char>, written: String) -> ChangeFreq {
        match ChangeFreq::named(lowercase) {
            Some(frequency) => frequency,
            None => ChangeFreq::Invalid(ChangeFreqParseError { description: written }),
        }
    }

    /// Whether two values are the same variant and, for parse errors, hold
    /// the same text.
    pub open spec fn same(self, other: ChangeFreq) -> bool {
        match (self, other) {
            (ChangeFreq::Invalid(a), ChangeFreq::Invalid(b)) => a.description@ == b.description@,
            (ChangeFreq::Invalid(_), _) => false,
            (_, ChangeFreq::Invalid(_)) => false,
            (a, b) => a == b,
        }
    }

    /// What a text converts to: its letters count whatever their case, and
    /// a parse error keeps the text as it was written.
    pub open spec fn parsed(time: String) -> ChangeFreq {
        ChangeFreq::recognized(lowercased(time@), time)
    }

    /// The canonical token of a frequency, the empty text for an absent
    /// value or a parse error.
    pub fn as_str(&self) -> (res: &str)
        ensures
            res@ == self.token(),
    {
        proof {
            reveal_strlit("");
        }
        assert(""@ =~= Seq::<char>::empty());
        match *self {
            ChangeFreq::Absent => "",
            ChangeFreq::Always => "always",
            ChangeFreq::Hourly => "hourly",
            ChangeFreq::Daily => "daily",
            ChangeFreq::Weekly => "weekly",
            ChangeFreq::Monthly => "monthly",
            ChangeFreq::Yearly => "yearly",
            ChangeFreq::Never => "never",
            ChangeFreq::Invalid(_) => "",
        }
    }

    /// Converts a text whose lower-case form is already at hand.
    pub fn from_lowercase(lowercase_time: &str, time: String) -> (res: ChangeFreq)
        ensures
            res == ChangeFreq::recognized(lowercase_time@, time),
    {
        if text_eq(lowercase_time, "always") {
            ChangeFreq::Always
        } else if text_eq(lowercase_time, "hourly") {
            ChangeFreq::Hourly
        } else if text_eq(lowercase_time, "daily") {
            ChangeFreq::Daily
        } else if text_eq(lowercase_time, "weekly") {
            ChangeFreq::Weekly
        } else if text_eq(lowercase_time, "monthly") {
            ChangeFreq::Monthly
        } else if text_eq(lowercase_time, "yearly") {
            ChangeFreq::Yearly
        } else if text_eq(lowercase_time, "never") {
            ChangeFreq::Never
        } else {
            ChangeFreq::Invalid(ChangeFreqParseError::new(time))
        }
    }
}

impl Clone for ChangeFreq {
    fn clone(&self) -> (res: Self)
        ensures
            res == *self,
    {
        match self {
            ChangeFreq::Absent => ChangeFreq::Absent,
            ChangeFreq::Always => ChangeFreq::Always,
            ChangeFreq::Hourly => ChangeFreq::Hourly,
            ChangeFreq::Daily => ChangeFreq::Daily,
            ChangeFreq::Weekly => ChangeFreq::Weekly,
            ChangeFreq::Monthly => ChangeFreq::Monthly,
            ChangeFreq::Yearly => ChangeFreq::Yearly,
            ChangeFreq::Never => ChangeFreq::Never,
            ChangeFreq::Invalid(error) => ChangeFreq::Invalid(error.clone()),
        }
    }
}

impl PartialEq for ChangeFreq {
    /// Two values are equal when they are the same variant and, for parse
    /// errors, hold the same text.
    fn eq(&self, other: &Self) -> (res: bool)
        ensures
            res == self.same(*other),
    {
        match (self, other) {
            (ChangeFreq::Absent, ChangeFreq::Absent) => true,
            (ChangeFreq::Always, ChangeFreq::Always) => true,
            (ChangeFreq::Hourly, ChangeFreq::Hourly) => true,
            (ChangeFreq::Daily, ChangeFreq::Daily) => true,
            (ChangeFreq::Weekly, ChangeFreq::Weekly) => true,
            (ChangeFreq::Monthly, ChangeFreq::Monthly) => true,
            (ChangeFreq::Yearly, ChangeFreq::Yearly) => true,
            (ChangeFreq::Never, ChangeFreq::Never) => true,
            (ChangeFreq::Invalid(a), ChangeFreq::Invalid(b)) => a == b,
            _ => false,
        }
    }
}

impl PartialEqSpecImpl for ChangeFreq {
    open spec fn obeys_eq_spec() -> bool {
        true
    }

    open spec fn eq_spec(&self, other: &Self) -> bool {
        self.same(*other)
    }
}

impl FromSpecImpl<String> for ChangeFreq {
    open spec fn obeys_from_spec() -> bool {
        true
    }

    open spec fn from_spec(time: String) -> ChangeFreq {
        ChangeFreq::parsed(time)
    }
}

impl From<String> for ChangeFreq {
    /// Converts a text to a frequency, whatever the case of its letters.
    /// A text that names no frequency gives a parse error that holds the
    /// text unchanged.
    fn from(time: String) -> (res: ChangeFreq)
        ensures
            res == ChangeFreq::parsed(time),
    {
        let lowercase_time = lowercase(time.as_str());
        ChangeFreq::from_lowercase(lowercase_time.as_str(), time)
    }
}

/// Whether two texts are the same up to the case of their ASCII letters.
pub open spec fn same_ignoring_ascii_case(a: Seq<char>, b: Seq<char>) -> bool {
    &&& a.len() == b.len()
    &&& forall|i: int|
        0 <= i < a.len() ==> ascii_lowercase_char(#[trigger] a[i]) == ascii_lowercase_char(b[i])
}

/// The seven canonical tokens are texts of lower-case ASCII letters, no two
/// of them the same: each names its own frequency and no other.
pub proof fn lemma_tokens_name_frequencies(frequency: ChangeFreq)
    requires
        frequency.is_frequency(),
    ensures
        ChangeFreq::named(frequency.token()) == Some(frequency),
        is_ascii_chars(frequency.token()),
        ascii_lowercase(frequency.token()) == frequency.token(),
        lowercased(frequency.token()) == frequency.token(),
{
    reveal_strlit("always");
    reveal_strlit("hourly");
    reveal_strlit("daily");
    reveal_strlit("weekly");
    reveal_strlit("monthly");
    reveal_strlit("yearly");
    reveal_strlit("never");
    let token = frequency.token();
    // The tokens differ in their first letters.
    assert("always"@[0] == 'a');
    assert("hourly"@[0] == 'h');
    assert("daily"@[0] == 'd');
    assert("weekly"@[0] == 'w');
    assert("monthly"@[0] == 'm');
    assert("yearly"@[0] == 'y');
    assert("never"@[0] == 'n');
    assert(ascii_lowercase(token) =~= token);
}

/// A text names a frequency only through that frequency's canonical token.
pub proof fn lemma_named_is_token(text: Seq<char>)
    ensures
        ChangeFreq::named(text) matches Some(frequency) ==> frequency.is_frequency()
            && frequency.token() == text,
        ChangeFreq::named(text) is None ==> forall|frequency: ChangeFreq|
            frequency.is_frequency() ==> #[trigger] frequency.token() != text,
{
}

/// Round trip: the canonical token of a frequency converts back to that
/// frequency.
pub proof fn lemma_token_round_trip(frequency: ChangeFreq, text: String)
    requires
        frequency.is_frequency(),
        text@ == frequency.token(),
    ensures
        ChangeFreq::parsed(text) == frequency,
{
    lemma_tokens_name_frequencies(frequency);
}

/// A canonical token converts to its frequency in any letter casing.
pub proof fn lemma_any_casing(frequency: ChangeFreq, text: String)
    requires
        frequency.is_frequency(),
        same_ignoring_ascii_case(text@, frequency.token()),
    ensures
        ChangeFreq::parsed(text) == frequency,
{
    lemma_tokens_name_frequencies(frequency);
    let token = frequency.token();
    assert forall|i: int| 0 <= i < text@.len() implies '\0' <= #[trigger] text@[i] <= '\u{7f}' by {
        assert(ascii_lowercase_char(text@[i]) == ascii_lowercase_char(token[i]));
        assert(ascii_lowercase(token)[i] == token[i]);
    }
    assert(ascii_lowercase(text@) =~= ascii_lowercase(token));
}

/// A conversion gives a frequency exactly when the lower-case form of the
/// text is that frequency's canonical token. Any other text gives a parse
/// error that holds the text as it was written, and no text gives an absent
/// value.
pub proof fn lemma_conversion_outcome(text: String)
    ensures
        !(ChangeFreq::parsed(text) is Absent),
        ChangeFreq::parsed(text).is_frequency() ==> ChangeFreq::parsed(text).token() == lowercased(
            text@,
        ),
        ChangeFreq::parsed(text) matches ChangeFreq::Invalid(error) ==> error.description == text,
        ChangeFreq::parsed(text) is Invalid ==> forall|frequency: ChangeFreq|
            frequency.is_frequency() ==> #[trigger] frequency.token() != lowercased(text@),
{
    lemma_named_is_token(lowercased(text@));
}

} // verus!
