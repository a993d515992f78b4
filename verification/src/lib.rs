//! Typed entries of a sitemap and of a sitemap index.
//!
//! Every field of an entry arrives as text. A field type holds what the
//! text gave: no value, a valid value, or the reason why the text is not
//! valid. A builder collects the fields of one entry and hands the entry out
//! once its location, the one field that must be there, is a valid address.
pub mod changefreq;
pub mod error;
pub mod lastmod;
pub mod location;
pub mod priority;
pub mod sitemap_entry;
pub mod text;
pub mod url_entry;

pub use crate::changefreq::ChangeFreq;
pub use crate::changefreq::ChangeFreqParseError;
pub use crate::error::Error;
pub use crate::lastmod::LastMod;
pub use crate::lastmod::Timestamp;
pub use crate::location::Location;
pub use crate::priority::Priority;
pub use crate::sitemap_entry::SiteMapEntry;
pub use crate::sitemap_entry::SiteMapEntryBuilder;
pub use crate::url_entry::UrlEntry;
pub use crate::url_entry::UrlEntryBuilder;
