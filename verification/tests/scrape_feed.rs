use rss_forge::error::FeedError;
use rss_forge::routes::scraper::{resolve_url, scrape_feed, scrape_item, ScrapeParams};
use rss_forge::html::ElementInfo;

fn params() -> ScrapeParams {
    ScrapeParams {
        url: "https://blog.example.com/posts".to_string(),
        item: "div.post".to_string(),
        title: "h2 a".to_string(),
        link: None,
        desc: Some("p.summary".to_string()),
        author: Some(".by".to_string()),
        feed_title: None,
    }
}

const PAGE: &str = r#"<html><head><title>  My Blog  </title></head><body>
<div class="post"><h2><a href="/p/1"> First </a></h2><p class="summary"> One </p><span class="by">ann</span></div>
<div class="post"><h2><a href="https://other.org/2">Second</a></h2></div>
<div class="post"><h2><a href="p3">   </a></h2></div>
<div class="post"><p>no title</p></div>
</body></html>"#;

#[test]
fn resolve_url_cases() {
    assert_eq!(resolve_url("https://a.b/c", "https://x.y"), "https://a.b/c");
    assert_eq!(resolve_url("http://a.b", "https://x.y"), "http://a.b");
    assert_eq!(resolve_url("/c/d", "https://x.y"), "https://x.y/c/d");
    assert_eq!(resolve_url("c/d", "https://x.y"), "https://x.y/c/d");
    assert_eq!(resolve_url("", "https://x.y"), "https://x.y/");
}

#[test]
fn scraped_feed_from_page() {
    let xml = scrape_feed(&params(), PAGE).ok().unwrap();
    assert_eq!(xml.matches("<item>").count(), 2);
    assert!(xml.contains("<title>My Blog</title>"));
    assert!(xml.contains("<title>First</title>"));
    assert!(xml.contains("<link>https://blog.example.com/p/1</link>"));
    assert!(xml.contains("<description><![CDATA[One]]></description>"));
    assert!(xml.contains("<author>ann</author>"));
    assert!(xml.contains("<link>https://other.org/2</link>"));
    assert!(xml.contains("Scraped RSS via RSS Forge from https://blog.example.com/posts"));
}

#[test]
fn feed_title_and_link_selector() {
    let mut p = params();
    p.feed_title = Some("Mine".to_string());
    p.link = Some("span.by".to_string());
    let xml = scrape_feed(&p, PAGE).ok().unwrap();
    assert!(xml.contains("<title>Mine</title>"));
    assert!(!xml.contains("<title>My Blog</title>"));
    assert!(xml.contains("<link></link>") || xml.contains("<link/>"));
}

#[test]
fn scrape_item_uses_page_url_without_href() {
    let row = vec![vec![ElementInfo { text: " T ".to_string(), attr: None }], vec![], vec![]];
    let item = scrape_item(&params(), "https://blog.example.com", &row).unwrap();
    assert_eq!(item.title, "T");
    assert_eq!(item.link, "https://blog.example.com/posts");
    assert_eq!(item.guid.as_deref(), Some("https://blog.example.com/posts"));
    assert_eq!(item.description, "");
    assert!(item.author.is_none());
}

#[test]
fn invalid_selectors_are_reported_in_order() {
    let mut p = params();
    p.item = "[[".to_string();
    p.title = "]]".to_string();
    match scrape_feed(&p, PAGE) {
        Err(e) => {
            assert!(matches!(e, FeedError::InvalidItemSelector(_)));
            assert_eq!(e.message(), "Invalid item selector: [[");
        }
        Ok(_) => panic!("item selector accepted"),
    }
    p.item = "div".to_string();
    match scrape_feed(&p, PAGE) {
        Err(e) => assert_eq!(e.message(), "Invalid title selector: ]]"),
        Ok(_) => panic!("title selector accepted"),
    }
    let mut p = params();
    p.link = Some("[[".to_string());
    assert!(matches!(scrape_feed(&p, PAGE), Err(FeedError::InvalidLinkSelector)));
    let mut p = params();
    p.desc = Some("[[".to_string());
    assert!(matches!(scrape_feed(&p, PAGE), Err(FeedError::InvalidDescSelector)));
    let mut p = params();
    p.author = Some("[[".to_string());
    match scrape_feed(&p, PAGE) {
        Err(e) => assert_eq!(e.message(), "Invalid author selector"),
        Ok(_) => panic!("author selector accepted"),
    }
}

#[test]
fn invalid_page_address_is_reported() {
    let mut p = params();
    p.url = "not a url".to_string();
    match scrape_feed(&p, PAGE) {
        Err(FeedError::InvalidUrl(m)) => assert_eq!(m, "relative URL without a base"),
        _ => panic!("address accepted"),
    }
}

#[test]
fn scraped_items_use_link_as_guid() {
    let xml = scrape_feed(&params(), PAGE).ok().unwrap();
    assert!(xml.contains(">https://blog.example.com/p/1</guid>"));
    assert!(xml.contains(">https://other.org/2</guid>"));
    assert!(!xml.contains("<pubDate>"));
    assert!(!xml.contains("<category>"));
}
