//! One sitemap of a sitemap index: its address and its last change.
use crate::error::Error;
use crate::lastmod::LastMod;
use crate::lastmod::Timestamp;
use crate::location::url_parse;
use crate::location::Location;
use vstd::prelude::*;

verus! {

/// Sitemap entry. Contains url location and modification time.
#[derive(Debug)]
pub struct SiteMapEntry {
    /// URL of the sitemap.
    pub loc: Location,
    /// The date of last modification of the file.
    pub lastmod: LastMod,
}

impl SiteMapEntry {
    /// The entry of which nothing is known: both fields are absent.
    pub open spec fn empty() -> SiteMapEntry {
        SiteMapEntry { loc: Location::Absent, lastmod: LastMod::Absent }
    }

    /// This entry with its location replaced by what the text `url` gives,
    /// an address or a parse error.
    pub open spec fn with_loc(self, url: Seq<char>) -> SiteMapEntry {
        SiteMapEntry { loc: Location::parsed(url), ..self }
    }

    /// This entry with its date of last modification replaced by `date`.
    pub open spec fn with_lastmod(self, date: Timestamp) -> SiteMapEntry {
        SiteMapEntry { lastmod: LastMod::DateTime(date), ..self }
    }

    /// Whether the entry has what it must have: an address that parsed.
    pub open spec fn complete(self) -> bool {
        self.loc is Url
    }

    /// Creates a new empty `SiteMapEntry`.
    pub fn new() -> (res: SiteMapEntry)
        ensures
            res == SiteMapEntry::empty(),
    {
        SiteMapEntry { loc: Location::Absent, lastmod: LastMod::Absent }
    }

    /// Starts building an entry, from the empty one.
    pub fn builder() -> (res: SiteMapEntryBuilder)
        ensures
            res@ == SiteMapEntry::empty(),
    {
        SiteMapEntryBuilder { sitemap_entry: SiteMapEntry::new() }
    }
}

impl Clone for SiteMapEntry {
    fn clone(&self) -> (res: Self)
        ensures
            res == *self,
    {
        SiteMapEntry { loc: self.loc.clone(), lastmod: self.lastmod.clone() }
    }
}

/// Builds a `SiteMapEntry` field by field. The entry under construction is
/// the builder's view.
pub struct SiteMapEntryBuilder {
    sitemap_entry: SiteMapEntry,
}

impl View for SiteMapEntryBuilder {
    type V = SiteMapEntry;

    closed spec fn view(&self) -> SiteMapEntry {
        self.sitemap_entry
    }
}

impl SiteMapEntryBuilder {
    /// Sets the location from a text. The text is parsed, and a text that
    /// is no address is recorded as a parse error: this step never fails.
    pub fn loc(self, url: String) -> (res: Result<SiteMapEntryBuilder, Error>)
        ensures
            res matches Ok(builder) && builder@ == self@.with_loc(url@),
    {
        let mut builder = self;
        builder.sitemap_entry.loc = Location::from(url);
        Ok(builder)
    }

    /// Sets the date of last modification. This step never fails.
    pub fn lastmod(self, date: Timestamp) -> (res: Result<SiteMapEntryBuilder, Error>)
        ensures
            res matches Ok(builder) && builder@ == self@.with_lastmod(date),
    {
        let mut builder = self;
        builder.sitemap_entry.lastmod = LastMod::DateTime(date);
        Ok(builder)
    }

    /// Finishes the entry. Fails unless the location is an address that
    /// parsed.
    pub fn build(self) -> (res: Result<SiteMapEntry, Error>)
        ensures
            res is Ok <==> self@.complete(),
            res matches Ok(entry) ==> entry == self@,
            res matches Err(error) ==> error.message() == "Required a location in the sitemap"@,
    {
        if let Location::Url(_) = self.sitemap_entry.loc {
            Ok(self.sitemap_entry)
        } else {
            Err(Error::Invalid(String::from_str("Required a location in the sitemap")))
        }
    }
}

/// Only the location decides whether a sitemap entry is complete. The empty
/// entry is not; setting the location makes the entry complete exactly when
/// the text parses as an address; the date changes nothing of that.
pub proof fn lemma_sitemap_location_decides(entry: SiteMapEntry, url: Seq<char>, date: Timestamp)
    ensures
        !SiteMapEntry::empty().complete(),
        entry.with_loc(url).complete() <==> url_parse(url) is Ok,
        entry.with_lastmod(date).complete() == entry.complete(),
{
}

} // verus!
