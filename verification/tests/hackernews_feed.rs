use rss_forge::routes::hackernews::{hn_feed, hn_feed_item, hn_item_url, hn_list_url, hn_meta, hn_story_ids, HnItem};
use rss_forge::markup::strip_html;

fn story() -> HnItem {
    HnItem {
        id: 42,
        title: Some("A story".to_string()),
        url: None,
        by: Some("pg".to_string()),
        score: Some(10),
        descendants: Some(3),
        time: Some(0),
        text: Some("<p>Hello &amp; welcome</p>".to_string()),
        item_type: Some("story".to_string()),
    }
}

#[test]
fn hn_addresses() {
    assert_eq!(hn_list_url("beststories"), "https://hacker-news.firebaseio.com/v0/beststories.json");
    assert_eq!(hn_item_url(42), "https://hacker-news.firebaseio.com/v0/item/42.json");
}

#[test]
fn story_ids_are_limited() {
    assert_eq!(hn_story_ids(&vec![5, 6, 7], 2), vec![5, 6]);
    assert_eq!(hn_story_ids(&vec![5, 6, 7], 30), vec![5, 6, 7]);
    assert!(hn_story_ids(&vec![5], 0).is_empty());
}

#[test]
fn strip_html_makes_plain_text() {
    assert_eq!(strip_html("<p>Hello &amp; welcome</p>").unwrap(), "Hello & welcome");
    assert_eq!(strip_html("a<br>b").unwrap(), "a b");
    assert_eq!(strip_html("1 < 2 and 3 <> 4").unwrap(), "1   4");
    assert_eq!(strip_html("  <i></i>  ").unwrap(), "");
}

#[test]
fn story_item() {
    let item = hn_feed_item(&story()).unwrap();
    assert_eq!(item.title, "A story");
    assert_eq!(item.link, "https://news.ycombinator.com/item?id=42");
    assert_eq!(item.guid.as_deref(), Some("https://news.ycombinator.com/item?id=42"));
    assert_eq!(
        item.description,
        "⭐ 10 points | 💬 3 comments | Hello & welcome | 🔗 <a href=\"https://news.ycombinator.com/item?id=42\">Comments</a>"
    );
    assert_eq!(item.author.as_deref(), Some("pg"));
    assert_eq!(item.pub_date, Some(0));
    assert_eq!(item.categories, vec!["story".to_string()]);
}

#[test]
fn story_with_url_and_long_text() {
    let mut s = story();
    s.url = Some("https://example.com".to_string());
    s.score = None;
    s.descendants = None;
    s.text = Some("x".repeat(600));
    s.time = Some(i64::MAX);
    let item = hn_feed_item(&s).unwrap();
    assert_eq!(item.link, "https://example.com");
    let parts: Vec<&str> = item.description.split(" | ").collect();
    assert_eq!(parts.len(), 2);
    assert_eq!(parts[0].chars().count(), 500);
    assert_eq!(item.pub_date, Some(0));
}

#[test]
fn untitled_items_are_dropped() {
    let mut s = story();
    s.title = None;
    assert!(hn_feed_item(&s).is_none());
    let xml = hn_feed("HN Best Stories", &vec![s, story()]).ok().unwrap();
    assert_eq!(xml.matches("<item>").count(), 1);
    assert!(xml.contains("<title>HN Best Stories</title>"));
    assert!(xml.contains("<description>HN Best Stories - RSS via RSS Forge</description>"));
}

#[test]
fn hn_meta_fields() {
    let m = hn_meta("HN Ask HN");
    assert_eq!(m.link, "https://news.ycombinator.com");
    assert_eq!(m.description, "HN Ask HN - RSS via RSS Forge");
    assert_eq!(m.language.as_deref(), Some("en"));
}

#[test]
fn hn_guids_are_discussion_pages() {
    let mut other = story();
    other.id = 7;
    other.url = Some("https://example.com".to_string());
    let xml = hn_feed("HN New Stories", &vec![story(), other]).ok().unwrap();
    assert!(xml.contains(">https://news.ycombinator.com/item?id=42</guid>"));
    assert!(xml.contains(">https://news.ycombinator.com/item?id=7</guid>"));
    assert!(xml.contains("<link>https://example.com</link>"));
}

#[test]
fn untitled_item_with_unwritable_time_is_dropped() {
    let mut untitled = story();
    untitled.title = None;
    untitled.time = Some(253402300800);
    assert!(hn_feed_item(&untitled).is_none());
    let xml = hn_feed("HN Best Stories", &vec![untitled, story()]).ok().unwrap();
    assert_eq!(xml.matches("<item>").count(), 1);
}
