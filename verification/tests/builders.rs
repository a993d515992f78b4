use chrono::DateTime;
use chrono::FixedOffset;
use sitemap::changefreq::ChangeFreq;
use sitemap::changefreq::ChangeFreqParseError;
use sitemap::error::Error;
use sitemap::lastmod::LastMod;
use sitemap::lastmod::Timestamp;
use sitemap::location::Location;
use sitemap::priority::Priority;
use sitemap::sitemap_entry::SiteMapEntry;
use sitemap::url_entry::UrlEntry;
use url::Url;

fn stamp(text: &str) -> Timestamp {
    let date = DateTime::parse_from_rfc3339(text).unwrap();
    Timestamp { utc: date.naive_utc(), offset: *date.offset() }
}

fn date_of(stamp: Timestamp) -> DateTime<FixedOffset> {
    DateTime::from_naive_utc_and_offset(stamp.utc, stamp.offset)
}

fn message(error: Error) -> String {
    match error {
        Error::Invalid(text) => text,
    }
}

#[test]
fn new_url_entry_is_empty() {
    let entry = UrlEntry::new();
    assert!(matches!(entry.loc, Location::Absent));
    assert!(matches!(entry.lastmod, LastMod::Absent));
    assert_eq!(entry.changefreq, ChangeFreq::Absent);
    assert!(matches!(entry.priority, Priority::Absent));
}

#[test]
fn new_sitemap_entry_is_empty() {
    let entry = SiteMapEntry::new();
    assert!(matches!(entry.loc, Location::Absent));
    assert!(matches!(entry.lastmod, LastMod::Absent));
}

#[test]
fn url_entry_without_location_does_not_build() {
    let error = UrlEntry::builder().build().unwrap_err();
    assert_eq!(message(error), "Required a location in the Url");
}

#[test]
fn url_entry_without_location_does_not_build_whatever_else_is_set() {
    let result = UrlEntry::builder()
        .lastmod(stamp("2024-01-15T10:00:00+00:00"))
        .unwrap()
        .changefreq(ChangeFreq::Daily)
        .unwrap()
        .priority(0.5f32.to_bits())
        .unwrap()
        .build();
    assert_eq!(message(result.unwrap_err()), "Required a location in the Url");
}

#[test]
fn url_entry_with_invalid_location_does_not_build() {
    let builder = UrlEntry::builder().loc("not a url".to_string());
    assert!(builder.is_ok());
    let error = builder.unwrap().build().unwrap_err();
    assert_eq!(message(error), "Required a location in the Url");
}

#[test]
fn url_entry_with_invalid_location_and_valid_priority_does_not_build() {
    let result = UrlEntry::builder()
        .loc("not a url".to_string())
        .unwrap()
        .priority(0.5f32.to_bits())
        .unwrap()
        .build();
    assert!(matches!(result, Err(Error::Invalid(_))));
}

#[test]
fn url_entry_with_unrecognized_changefreq_builds() {
    let entry = UrlEntry::builder()
        .loc("https://example.com/".to_string())
        .unwrap()
        .changefreq(ChangeFreq::from("Fortnightly".to_string()))
        .unwrap()
        .build()
        .unwrap();
    assert_eq!(
        entry.changefreq,
        ChangeFreq::Invalid(ChangeFreqParseError::new("Fortnightly".to_string()))
    );
    assert_eq!(entry.loc.get_url().unwrap().as_str(), "https://example.com/");
    assert!(matches!(entry.lastmod, LastMod::Absent));
    assert!(matches!(entry.priority, Priority::Absent));
}

#[test]
fn full_url_entry_builds() {
    let lastmod = match LastMod::from("2024-01-15T10:00:00+00:00".to_string()) {
        LastMod::DateTime(stamp) => stamp,
        _ => panic!("expected a date"),
    };
    let entry = UrlEntry::builder()
        .loc("https://example.com/page".to_string())
        .unwrap()
        .lastmod(lastmod)
        .unwrap()
        .changefreq(ChangeFreq::from("Weekly".to_string()))
        .unwrap()
        .priority(0.8f32.to_bits())
        .unwrap()
        .build()
        .unwrap();
    assert_eq!(entry.loc.get_url(), Some(Url::parse("https://example.com/page").unwrap()));
    assert_eq!(
        entry.lastmod.get_time().map(date_of),
        Some(DateTime::parse_from_rfc3339("2024-01-15T10:00:00+00:00").unwrap())
    );
    assert_eq!(entry.changefreq, ChangeFreq::Weekly);
    assert_eq!(entry.priority.get_priority().map(f32::from_bits), Some(0.8));
}

#[test]
fn priority_above_one_is_refused_at_once() {
    let result = UrlEntry::builder().priority(1.5f32.to_bits());
    match result {
        Err(Error::Invalid(text)) => assert_eq!(text, "priority should be between 0 and 1"),
        _ => panic!("expected an error"),
    }
}

#[test]
fn priority_below_zero_is_refused_at_once() {
    let result = UrlEntry::builder()
        .loc("https://example.com/".to_string())
        .unwrap()
        .priority((-0.1f32).to_bits());
    match result {
        Err(error) => assert_eq!(error.to_string(), "priority should be between 0 and 1"),
        _ => panic!("expected an error"),
    }
}

#[test]
fn priority_bounds_are_accepted() {
    for v in [0.0f32, -0.0, 1.0, 0.5] {
        let entry = UrlEntry::builder()
            .loc("https://example.com/".to_string())
            .unwrap()
            .priority(v.to_bits())
            .unwrap()
            .build()
            .unwrap();
        assert_eq!(entry.priority.get_priority(), Some(v.to_bits()));
    }
}

#[test]
fn priority_next_to_the_bounds_is_refused() {
    assert!(UrlEntry::builder().priority(0x3F80_0001).is_err());
    assert!(UrlEntry::builder().priority(0x8000_0001).is_err());
    assert!(UrlEntry::builder().priority(f32::INFINITY.to_bits()).is_err());
    assert!(UrlEntry::builder().priority(f32::NEG_INFINITY.to_bits()).is_err());
    assert!(UrlEntry::builder().priority(0x3F7F_FFFF).is_ok());
}

#[test]
fn later_setting_replaces_the_earlier_one() {
    let entry = UrlEntry::builder()
        .loc("not a url".to_string())
        .unwrap()
        .loc("https://example.com/second".to_string())
        .unwrap()
        .changefreq(ChangeFreq::Daily)
        .unwrap()
        .changefreq(ChangeFreq::Never)
        .unwrap()
        .priority(0.25f32.to_bits())
        .unwrap()
        .priority(0.75f32.to_bits())
        .unwrap()
        .lastmod(stamp("2020-01-01T00:00:00+00:00"))
        .unwrap()
        .lastmod(stamp("2021-06-01T12:00:00+02:00"))
        .unwrap()
        .build()
        .unwrap();
    assert_eq!(entry.loc.get_url().unwrap().as_str(), "https://example.com/second");
    assert_eq!(entry.changefreq, ChangeFreq::Never);
    assert_eq!(entry.priority.get_priority().map(f32::from_bits), Some(0.75));
    assert_eq!(
        date_of(entry.lastmod.get_time().unwrap()).to_rfc3339(),
        "2021-06-01T12:00:00+02:00"
    );
}

#[test]
fn later_invalid_location_spoils_the_entry() {
    let result = UrlEntry::builder()
        .loc("https://example.com/".to_string())
        .unwrap()
        .loc("nowhere".to_string())
        .unwrap()
        .build();
    assert!(result.is_err());
}

#[test]
fn url_entry_clone_keeps_every_field() {
    let entry = UrlEntry::builder()
        .loc("https://example.com/page".to_string())
        .unwrap()
        .lastmod(stamp("2024-01-15T10:00:00+00:00"))
        .unwrap()
        .changefreq(ChangeFreq::Monthly)
        .unwrap()
        .priority(1.0f32.to_bits())
        .unwrap()
        .build()
        .unwrap();
    let copy = entry.clone();
    assert_eq!(copy.loc.get_url(), entry.loc.get_url());
    assert_eq!(copy.lastmod.get_time().map(date_of), entry.lastmod.get_time().map(date_of));
    assert_eq!(copy.changefreq, entry.changefreq);
    assert_eq!(copy.priority.get_priority(), entry.priority.get_priority());
}

#[test]
fn sitemap_entry_without_location_does_not_build() {
    let error = SiteMapEntry::builder().build().unwrap_err();
    assert_eq!(message(error), "Required a location in the sitemap");
    let result = SiteMapEntry::builder().lastmod(stamp("2024-01-15T10:00:00+00:00")).unwrap().build();
    assert!(result.is_err());
}

#[test]
fn sitemap_entry_with_invalid_location_does_not_build() {
    let result = SiteMapEntry::builder().loc("not a url".to_string()).unwrap().build();
    assert_eq!(message(result.unwrap_err()), "Required a location in the sitemap");
}

#[test]
fn sitemap_entry_builds() {
    let entry = SiteMapEntry::builder()
        .loc("https://example.com/sitemap1.xml".to_string())
        .unwrap()
        .lastmod(stamp("2024-01-15T10:00:00+01:00"))
        .unwrap()
        .build()
        .unwrap();
    assert_eq!(entry.loc.get_url().unwrap().as_str(), "https://example.com/sitemap1.xml");
    assert_eq!(
        date_of(entry.lastmod.get_time().unwrap()).to_rfc3339(),
        "2024-01-15T10:00:00+01:00"
    );
    let copy = entry.clone();
    assert_eq!(copy.loc.get_url(), entry.loc.get_url());
}

#[test]
fn sitemap_entry_with_location_only_builds() {
    let entry =
        SiteMapEntry::builder().loc("https://example.com/s.xml".to_string()).unwrap().build().unwrap();
    assert!(matches!(entry.lastmod, LastMod::Absent));
}

#[test]
fn error_text_is_the_message() {
    assert_eq!(Error::Invalid("broken".to_string()).to_string(), "broken");
}
