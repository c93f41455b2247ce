use rss_forge::dates::{renderable_timestamp, timestamp_date};
use rss_forge::feeds::{build_rss, rss_entry, FeedItem, FeedMeta};

fn item(guid: Option<&str>, date: Option<i64>, cats: &[&str]) -> FeedItem {
    FeedItem {
        title: "Title & co".to_string(),
        link: "https://example.com/a".to_string(),
        description: "desc".to_string(),
        author: Some("me".to_string()),
        pub_date: date,
        guid: guid.map(String::from),
        categories: cats.iter().map(|c| c.to_string()).collect(),
    }
}

fn meta() -> FeedMeta {
    FeedMeta {
        title: "Feed".to_string(),
        link: "https://example.com".to_string(),
        description: "About".to_string(),
        language: Some("en".to_string()),
    }
}

#[test]
fn guid_defaults_to_link() {
    let e = rss_entry(&item(None, None, &[]));
    assert_eq!(e.guid, "https://example.com/a");
    assert!(e.guid_is_permalink);
    let e = rss_entry(&item(Some("g-1"), None, &[]));
    assert_eq!(e.guid, "g-1");
}

#[test]
fn date_is_written_in_rfc2822() {
    let e = rss_entry(&item(None, Some(0), &[]));
    assert_eq!(e.pub_date.as_deref(), Some("Thu, 1 Jan 1970 00:00:00 +0000"));
    let e = rss_entry(&item(None, Some(86400 * 365 + 3600), &[]));
    assert_eq!(e.pub_date.as_deref(), Some("Fri, 1 Jan 1971 01:00:00 +0000"));
}

#[test]
fn document_has_one_item_per_feed_item() {
    let xml = build_rss(meta(), vec![item(None, None, &["x"]), item(Some("g"), Some(0), &[])]);
    assert!(xml.contains("<title>Feed</title>"));
    assert!(xml.contains("<language>en</language>"));
    assert_eq!(xml.matches("<item>").count(), 2);
    assert!(xml.contains("<title>Title &amp; co</title>"));
    assert!(xml.contains("<category>x</category>"));
    assert!(xml.contains("<pubDate>Thu, 1 Jan 1970 00:00:00 +0000</pubDate>"));
    assert!(xml.contains(">g</guid>"));
    assert!(xml.contains(">https://example.com/a</guid>"));
    let first = xml.find("<category>x</category>").unwrap();
    let second = xml.find(">g</guid>").unwrap();
    assert!(first < second);
}

#[test]
fn empty_feed_has_no_items() {
    let xml = build_rss(meta(), Vec::new());
    assert!(xml.contains("<channel>"));
    assert!(!xml.contains("<item>"));
}

#[test]
fn timestamps_outside_chrono_are_refused() {
    assert_eq!(timestamp_date(0), Some(0));
    assert_eq!(timestamp_date(i64::MAX), None);
    assert_eq!(timestamp_date(-8334601228801), None);
    assert_eq!(timestamp_date(8210266876800), None);
    assert_eq!(timestamp_date(253402300799), Some(253402300799));
    assert!(!renderable_timestamp(8210266876799));
    assert!(renderable_timestamp(8210266876800));
    assert!(!renderable_timestamp(-8334601228800));
    assert!(renderable_timestamp(-8334601228801));
    assert!(renderable_timestamp(253402300799));
    assert!(!renderable_timestamp(253402300800));
    assert!(renderable_timestamp(i64::MIN));
}
