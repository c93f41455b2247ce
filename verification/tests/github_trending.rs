use rss_forge::routes::github::{repo_name_of, trending_feed, trending_item, trending_meta, trending_url};
use rss_forge::html::ElementInfo;

fn el(text: &str, attr: Option<&str>) -> ElementInfo {
    ElementInfo { text: text.to_string(), attr: attr.map(String::from) }
}

#[test]
fn trending_urls() {
    assert_eq!(trending_url(None), "https://github.com/trending");
    assert_eq!(trending_url(Some("rust")), "https://github.com/trending/rust");
}

#[test]
fn repo_names_lose_their_whitespace() {
    assert_eq!(repo_name_of("\n   owner /\n\n      repo\n  "), "owner///repo");
    assert_eq!(repo_name_of("a\nb c"), "ab/c");
    let name = repo_name_of(" x \t y \u{3000} z ");
    assert!(!name.chars().any(char::is_whitespace));
    assert_eq!(name, "x/y/z");
}

#[test]
fn trending_item_from_matches() {
    let row = vec![
        vec![el(" o / r ", Some("/o/r"))],
        vec![el("  A tool  ", None)],
        vec![el(" Rust ", None)],
        vec![el(" 1,234 ", Some("/o/r/stargazers")), el(" 56 ", None)],
        vec![el(" 12 stars today ", None)],
    ];
    let item = trending_item(&row).unwrap();
    assert_eq!(item.title, "o///r");
    assert_eq!(item.link, "https://github.com/o/r");
    assert_eq!(item.guid.as_deref(), Some("https://github.com/o/r"));
    assert_eq!(
        item.description,
        "A tool | Language: Rust | Stars: 1,234 | Stars today: 12 stars today"
    );
    assert_eq!(item.categories, vec!["Rust".to_string()]);
    assert!(item.author.is_none());
    assert!(item.pub_date.is_none());
}

#[test]
fn trending_item_without_optional_parts() {
    let row = vec![vec![el("x", None)], vec![], vec![], vec![], vec![]];
    let item = trending_item(&row).unwrap();
    assert_eq!(item.link, "https://github.com");
    assert_eq!(item.description, "");
    assert!(item.categories.is_empty());
    let none = vec![vec![], vec![el("d", None)], vec![], vec![], vec![]];
    assert!(trending_item(&none).is_none());
}

#[test]
fn trending_meta_per_language() {
    let m = trending_meta(Some("go"));
    assert_eq!(m.title, "GitHub Trending - go");
    assert_eq!(m.description, "GitHub trending repositories - go");
    assert_eq!(m.link, "https://github.com/trending/go");
    assert_eq!(m.language.as_deref(), Some("en"));
    let m = trending_meta(None);
    assert_eq!(m.title, "GitHub Trending");
}

#[test]
fn trending_feed_from_page() {
    let html = r#"<html><body>
<article class="Box-row">
  <h2 class="h3 lh-condensed"><a href="/rust-lang/rust">
    rust-lang /

      rust
  </a></h2>
  <p class="col-9 color-fg-muted">Empowering everyone</p>
  <span itemprop="programmingLanguage">Rust</span>
  <a class="Link--muted" href="/rust-lang/rust/stargazers"> 90,000 </a>
  <span class="d-inline-block float-sm-right">100 stars today</span>
</article>
<article class="Box-row"><p class="col-9">no name</p></article>
</body></html>"#;
    let xml = trending_feed(Some("rust"), html).ok().unwrap();
    assert_eq!(xml.matches("<item>").count(), 1);
    assert!(xml.contains("<title>rust-lang///rust</title>"));
    assert!(xml.contains("<link>https://github.com/rust-lang/rust</link>"));
    assert!(xml.contains(
        "Empowering everyone | Language: Rust | Stars: 90,000 | Stars today: 100 stars today"
    ));
    assert!(xml.contains("<category>Rust</category>"));
    assert!(xml.contains("<title>GitHub Trending - rust</title>"));
}
