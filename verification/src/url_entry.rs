//! One page of a site: its address and what is known of its changes.
use crate::changefreq::ChangeFreq;
use crate::changefreq::ChangeFreqParseError;
use crate::error::Error;
use crate::lastmod::LastMod;
use crate::lastmod::Timestamp;
use crate::location::url_parse;
use crate::location::Location;
use crate::priority::below_zero;
use crate::priority::exceeds_one;
use crate::priority::greater_than_one;
use crate::priority::less_than_zero;
use crate::priority::Priority;
use crate::text::lowercased;
use vstd::prelude::*;

verus! {

/// Url entry. Contains url location, modification time,
/// priority, update frequency.
#[derive(Debug)]
pub struct UrlEntry {
    /// URL of the page.
    pub loc: Location,
    /// The date of last modification of the file.
    pub lastmod: LastMod,
    /// How frequently the page is likely to change.
    pub changefreq: ChangeFreq,
    /// The priority of this URL relative to other URLs on the site.
    pub priority: Priority,
}

impl UrlEntry {
    /// The entry of which nothing is known: every field is absent.
    pub open spec fn empty() -> UrlEntry {
        UrlEntry {
            loc: Location::Absent,
            lastmod: LastMod::Absent,
            changefreq: ChangeFreq::Absent,
            priority: Priority::Absent,
        }
    }

    /// This entry with its location replaced by what the text `url` gives,
    /// an address or a parse error.
    pub open spec fn with_loc(self, url: Seq<char>) -> UrlEntry {
        UrlEntry { loc: Location::parsed(url), ..self }
    }

    /// This entry with its date of last modification replaced by `date`.
    pub open spec fn with_lastmod(self, date: Timestamp) -> UrlEntry {
        UrlEntry { lastmod: LastMod::DateTime(date), ..self }
    }

    /// This entry with its change frequency replaced by `changefreq`.
    pub open spec fn with_changefreq(self, changefreq: ChangeFreq) -> UrlEntry {
        UrlEntry { changefreq: changefreq, ..self }
    }

    /// This entry with its priority replaced by the number `val`.
    pub open spec fn with_priority(self, val: u32) -> UrlEntry {
        UrlEntry { priority: Priority::Value(val), ..self }
    }

    /// Whether the entry has what it must have: an address that parsed.
    pub open spec fn complete(self) -> bool {
        self.loc is Url
    }

    /// Creates a new empty `UrlEntry`.
    pub fn new() -> (res: UrlEntry)
        ensures
            res == UrlEntry::empty(),
    {
        UrlEntry {
            loc: Location::Absent,
            lastmod: LastMod::Absent,
            changefreq: ChangeFreq::Absent,
            priority: Priority::Absent,
        }
    }

    /// Starts building an entry, from the empty one.
    pub fn builder() -> (res: UrlEntryBuilder)
        ensures
            res@ == UrlEntry::empty(),
    {
        UrlEntryBuilder { url_entry: UrlEntry::new() }
    }
}

impl Clone for UrlEntry {
    fn clone(&self) -> (res: Self)
        ensures
            res == *self,
    {
        UrlEntry {
            loc: self.loc.clone(),
            lastmod: self.lastmod.clone(),
            changefreq: self.changefreq.clone(),
            priority: self.priority.clone(),
        }
    }
}

/// Builds a `UrlEntry` field by field. The entry under construction is the
/// builder's view.
pub struct UrlEntryBuilder {
    url_entry: UrlEntry,
}

impl View for UrlEntryBuilder {
    type V = UrlEntry;

    closed spec fn view(&self) -> UrlEntry {
        self.url_entry
    }
}

impl UrlEntryBuilder {
    /// The only priority that a builder ever holds is one that `priority`
    /// accepted.
    #[verifier::type_invariant]
    spec fn priority_was_accepted(self) -> bool {
        self.url_entry.priority.accepted()
    }

    /// Sets the location from a text. The text is parsed, and a text that
    /// is no address is recorded as a parse error: this step never fails.
    pub fn loc(self, url: String) -> (res: Result<UrlEntryBuilder, Error>)
        ensures
            res matches Ok(builder) && builder@ == self@.with_loc(url@),
    {
        proof {
            use_type_invariant(&self);
        }
        let mut builder = self;
        builder.url_entry.loc = Location::from(url);
        Ok(builder)
    }

    /// Sets the date of last modification. This step never fails.
    pub fn lastmod(self, date: Timestamp) -> (res: Result<UrlEntryBuilder, Error>)
        ensures
            res matches Ok(builder) && builder@ == self@.with_lastmod(date),
    {
        proof {
            use_type_invariant(&self);
        }
        let mut builder = self;
        builder.url_entry.lastmod = LastMod::DateTime(date);
        Ok(builder)
    }

    /// Sets the change frequency, whatever it is. This step never fails.
    pub fn changefreq(self, changefreq: ChangeFreq) -> (res: Result<UrlEntryBuilder, Error>)
        ensures
            res matches Ok(builder) && builder@ == self@.with_changefreq(changefreq),
    {
        proof {
            use_type_invariant(&self);
        }
        let mut builder = self;
        builder.url_entry.changefreq = changefreq;
        Ok(builder)
    }

    /// Sets the priority to the number with the bit pattern `val`. Fails,
    /// at once, when the number is less than zero or greater than one.
    pub fn priority(self, val: u32) -> (res: Result<UrlEntryBuilder, Error>)
        ensures
            res is Ok <==> !greater_than_one(val) && !less_than_zero(val),
            res matches Ok(builder) ==> builder@ == self@.with_priority(val),
            res matches Err(error) ==> error.message() == "priority should be between 0 and 1"@,
    {
        proof {
            use_type_invariant(&self);
        }
        if exceeds_one(val) || below_zero(val) {
            Err(Error::Invalid(String::from_str("priority should be between 0 and 1")))
        } else {
            let mut builder = self;
            builder.url_entry.priority = Priority::Value(val);
            Ok(builder)
        }
    }

    /// Finishes the entry. Fails unless the location is an address that
    /// parsed; parse errors in the other fields stay in the entry.
    pub fn build(self) -> (res: Result<UrlEntry, Error>)
        ensures
            res is Ok <==> self@.complete(),
            res matches Ok(entry) ==> entry == self@ && entry.priority.accepted(),
            res matches Err(error) ==> error.message() == "Required a location in the Url"@,
    {
        proof {
            use_type_invariant(&self);
        }
        if let Location::Url(_) = self.url_entry.loc {
            Ok(self.url_entry)
        } else {
            Err(Error::Invalid(String::from_str("Required a location in the Url")))
        }
    }
}

/// Only the location decides whether an entry is complete. The empty entry
/// is not; setting the location makes the entry complete exactly when the
/// text parses as an address; no other field changes that.
pub proof fn lemma_location_decides(
    entry: UrlEntry,
    url: Seq<char>,
    date: Timestamp,
    changefreq: ChangeFreq,
    val: u32,
)
    ensures
        !UrlEntry::empty().complete(),
        entry.with_loc(url).complete() <==> url_parse(url) is Ok,
        entry.with_lastmod(date).complete() == entry.complete(),
        entry.with_changefreq(changefreq).complete() == entry.complete(),
        entry.with_priority(val).complete() == entry.complete(),
{
}

/// A change frequency that was not recognized does not stand in the way of
/// an entry with a valid location: the entry stays complete, and its change
/// frequency is the parse error that holds the text as it was written.
pub proof fn lemma_unrecognized_changefreq_is_kept(entry: UrlEntry, text: String)
    requires
        entry.complete(),
        ChangeFreq::named(lowercased(text@)) is None,
    ensures
        entry.with_changefreq(ChangeFreq::parsed(text)).complete(),
        entry.with_changefreq(ChangeFreq::parsed(text)).changefreq == (ChangeFreq::Invalid(
            ChangeFreqParseError { description: text },
        )),
{
}

} // verus!
