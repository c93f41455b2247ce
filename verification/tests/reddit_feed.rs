use rss_forge::routes::reddit::{reddit_feed, reddit_item, reddit_meta, reddit_url, RedditPostData};

fn link_post() -> RedditPostData {
    RedditPostData {
        title: "Cool link".to_string(),
        url: "https://example.com/x".to_string(),
        permalink: "/r/rust/comments/abc/cool_link/".to_string(),
        author: "alice".to_string(),
        score: -3,
        num_comments: 7,
        selftext: None,
        created_utc: 86400,
        subreddit: "rust".to_string(),
        thumbnail: Some("https://i.example/t.jpg".to_string()),
        is_self: false,
        flair_text: Some("News".to_string()),
    }
}

#[test]
fn reddit_addresses() {
    assert_eq!(reddit_url("rust", "hot"), "https://www.reddit.com/r/rust/hot.json?limit=25");
    let m = reddit_meta("rust", "top");
    assert_eq!(m.title, "r/rust - top");
    assert_eq!(m.link, "https://www.reddit.com/r/rust");
    assert_eq!(m.description, "Reddit r/rust top posts via RSS Forge");
}

#[test]
fn link_post_item() {
    let item = reddit_item(&link_post());
    assert_eq!(item.title, "Cool link");
    assert_eq!(item.link, "https://example.com/x");
    assert_eq!(item.guid.as_deref(), Some("https://reddit.com/r/rust/comments/abc/cool_link/"));
    assert_eq!(
        item.description,
        "⬆️ -3 | 💬 7 comments<br/>[News]<br/><img src=\"https://i.example/t.jpg\" /><br/>🔗 <a href=\"https://reddit.com/r/rust/comments/abc/cool_link/\">Comments on Reddit</a>"
    );
    assert_eq!(item.author.as_deref(), Some("u/alice"));
    assert_eq!(item.pub_date, Some(86400));
    assert_eq!(item.categories, vec!["rust".to_string()]);
}

#[test]
fn self_post_item() {
    let mut p = link_post();
    p.is_self = true;
    p.selftext = Some("y".repeat(450));
    p.flair_text = Some(String::new());
    p.thumbnail = Some("self".to_string());
    let item = reddit_item(&p);
    assert_eq!(item.link, "https://reddit.com/r/rust/comments/abc/cool_link/");
    let parts: Vec<&str> = item.description.split("<br/>").collect();
    assert_eq!(parts.len(), 3);
    assert_eq!(parts[1], "y".repeat(400));
}

#[test]
fn non_web_thumbnail_is_left_out() {
    let mut p = link_post();
    p.thumbnail = Some("default".to_string());
    p.flair_text = None;
    let item = reddit_item(&p);
    assert_eq!(item.description.split("<br/>").count(), 2);
}

#[test]
fn reddit_feed_keeps_every_post() {
    let mut late = link_post();
    late.created_utc = i64::MAX;
    let xml = reddit_feed("rust", "hot", &vec![link_post(), late]);
    assert_eq!(xml.matches("<item>").count(), 2);
    assert_eq!(xml.matches("<pubDate>").count(), 1);
    assert!(xml.contains("<pubDate>Fri, 2 Jan 1970 00:00:00 +0000</pubDate>"));
}
