//! Subreddit listings as feeds.
use vstd::prelude::*;
use crate::dates::{date_from_timestamp, renderable_or_refused, timestamp_date};
use crate::feeds::{
    build_rss, feed_xml, item_views, opt_view, FeedItem, FeedItemView, FeedMeta, FeedMetaView,
};
use crate::text::{
    cat, cat3, decimal, decimal_int, has_prefix, i64_text, join, join_strings, owned, prefix,
    push_str, starts_with, take_chars, u64_text, views,
};

verus! {

/// A post of a listing, as the Reddit API describes it. `created_utc` is
/// the creation time in whole seconds.
pub struct RedditPostData {
    pub title: String,
    pub url: String,
    pub permalink: String,
    pub author: String,
    pub score: i64,
    pub num_comments: u64,
    pub selftext: Option<String>,
    pub created_utc: i64,
    pub subreddit: String,
    pub thumbnail: Option<String>,
    pub is_self: bool,
    pub flair_text: Option<String>,
}

/// `RedditPostData` seen through the views of its fields.
pub struct RedditPostView {
    pub title: Seq<char>,
    pub url: Seq<char>,
    pub permalink: Seq<char>,
    pub author: Seq<char>,
    pub score: i64,
    pub num_comments: u64,
    pub selftext: Option<Seq<char>>,
    pub created_utc: i64,
    pub subreddit: Seq<char>,
    pub thumbnail: Option<Seq<char>>,
    pub is_self: bool,
    pub flair_text: Option<Seq<char>>,
}

impl View for RedditPostData {
    type V = RedditPostView;

    open spec fn view(&self) -> RedditPostView {
        RedditPostView {
            title: self.title@,
            url: self.url@,
            permalink: self.permalink@,
            author: self.author@,
            score: self.score,
            num_comments: self.num_comments,
            selftext: opt_view(self.selftext),
            created_utc: self.created_utc,
            subreddit: self.subreddit@,
            thumbnail: opt_view(self.thumbnail),
            is_self: self.is_self,
            flair_text: opt_view(self.flair_text),
        }
    }
}

/// The JSON listing of a subreddit sorted by `sort` (`hot`, `top`).
pub open spec fn reddit_url_spec(sub: Seq<char>, sort: Seq<char>) -> Seq<char> {
    "https://www.reddit.com/r/"@ + sub + "/"@ + sort + ".json?limit=25"@
}

/// The discussion page of a post.
pub open spec fn reddit_permalink(p: RedditPostView) -> Seq<char> {
    "https://reddit.com"@ + p.permalink
}

/// The pieces of a post's description: score and comment count, its flair
/// when not empty, then for a text post the first 400 characters of its
/// text when not empty, for a link post its thumbnail when it is a web
/// address; last a link to the discussion.
pub open spec fn reddit_parts(p: RedditPostView) -> Seq<Seq<char>> {
    let p0 = seq![
        "⬆️ "@ + decimal_int(p.score as int) + " | 💬 "@ + decimal(p.num_comments as nat)
            + " comments"@,
    ];
    let p1 = match p.flair_text {
        Some(f) => if f.len() > 0 {
            p0.push("["@ + f + "]"@)
        } else {
            p0
        },
        None => p0,
    };
    let p2 = if p.is_self {
        match p.selftext {
            Some(t) => if prefix(t, 400).len() > 0 {
                p1.push(prefix(t, 400))
            } else {
                p1
            },
            None => p1,
        }
    } else {
        match p.thumbnail {
            Some(th) => if starts_with(th, "http"@) {
                p1.push("<img src=\""@ + th + "\" />"@)
            } else {
                p1
            },
            None => p1,
        }
    };
    p2.push("🔗 <a href=\""@ + reddit_permalink(p) + "\">Comments on Reddit</a>"@)
}

/// Whether the description shows the post's flair.
pub open spec fn flair_shown(p: RedditPostView) -> bool {
    p.flair_text matches Some(f) && f.len() > 0
}

/// The preview of a text post is the opening of its text: its first 400
/// characters, or all of it when shorter. It comes right after the score
/// line and the flair, if shown, and only the discussion link follows it.
pub proof fn lemma_reddit_preview_is_opening(p: RedditPostView)
    requires
        p.is_self,
        p.selftext matches Some(t) && t.len() > 0,
    ensures
        ({
            let t = p.selftext->0;
            let at: int = if flair_shown(p) { 2 } else { 1 };
            let preview = reddit_parts(p)[at];
            &&& reddit_parts(p).len() == at + 2
            &&& starts_with(t, preview)
            &&& preview.len() == (if t.len() < 400 { t.len() } else { 400 })
            &&& preview == t.subrange(0, preview.len() as int)
        }),
{
    let t = p.selftext->0;
    crate::text::lemma_prefix_bounded(t, 400);
}

/// A description starts with the score line, shows the flair (when not
/// empty) right after it, ends with the link to the discussion, and for a
/// link post shows its thumbnail as an image exactly when the thumbnail is a
/// web address.
pub proof fn lemma_reddit_parts_layout(p: RedditPostView)
    ensures
        ({
            let parts = reddit_parts(p);
            let f: int = if flair_shown(p) { 1 } else { 0 };
            &&& parts.len() == 2 + f || parts.len() == 3 + f
            &&& flair_shown(p) ==> parts[1] == "["@ + p.flair_text->0 + "]"@
            &&& parts.last() == "🔗 <a href=\""@ + reddit_permalink(p)
                + "\">Comments on Reddit</a>"@
            &&& !p.is_self ==> (parts.len() == 3 + f <==> (p.thumbnail matches Some(th)
                && starts_with(th, "http"@)))
            &&& !p.is_self && parts.len() == 3 + f ==> parts[1 + f] == "<img src=\""@
                + p.thumbnail->0 + "\" />"@
        }),
{
}

/// The feed item of a post: a text post links to its discussion, a link
/// post to its target.
pub open spec fn reddit_item_spec(p: RedditPostView) -> FeedItemView {
    FeedItemView {
        title: p.title,
        link: if p.is_self {
            reddit_permalink(p)
        } else {
            p.url
        },
        description: join(reddit_parts(p), "<br/>"@),
        author: Some("u/"@ + p.author),
        pub_date: date_from_timestamp(p.created_utc),
        guid: Some(reddit_permalink(p)),
        categories: seq![p.subreddit],
    }
}

/// The channel data of a subreddit listing.
pub open spec fn reddit_meta_spec(sub: Seq<char>, sort: Seq<char>) -> FeedMetaView {
    FeedMetaView {
        title: "r/"@ + sub + " - "@ + sort,
        link: "https://www.reddit.com/r/"@ + sub,
        description: "Reddit r/"@ + sub + " "@ + sort + " posts via RSS Forge"@,
        language: Some("en"@),
    }
}

/// The views of a list of posts.
pub open spec fn post_views(posts: Seq<RedditPostData>) -> Seq<RedditPostView> {
    posts.map_values(|p: RedditPostData| p@)
}

/// The JSON listing of a subreddit sorted by `sort`.
pub fn reddit_url(sub: &str, sort: &str) -> (r: String)
    ensures
        r@ == reddit_url_spec(sub@, sort@),
{
    let mut r = cat3("https://www.reddit.com/r/", sub, "/");
    push_str(&mut r, sort);
    push_str(&mut r, ".json?limit=25");
    r
}

/// The feed item of a post.
pub fn reddit_item(p: &RedditPostData) -> (r: FeedItem)
    requires
        renderable_or_refused(p.created_utc),
    ensures
        r@ == reddit_item_spec(p@),
        r.wf(),
{
    let permalink = cat("https://reddit.com", p.permalink.as_str());
    let score = i64_text(p.score);
    let comments = u64_text(p.num_comments);
    let mut head = cat3("⬆️ ", score.as_str(), " | 💬 ");
    push_str(&mut head, comments.as_str());
    push_str(&mut head, " comments");
    let mut parts: Vec<String> = Vec::new();
    parts.push(head);
    match &p.flair_text {
        Some(f) => {
            if !f.as_str().is_empty() {
                parts.push(cat3("[", f.as_str(), "]"));
            }
        },
        None => {},
    }
    if p.is_self {
        match &p.selftext {
            Some(t) => {
                let preview = take_chars(t.as_str(), 400);
                if !preview.as_str().is_empty() {
                    parts.push(preview);
                }
            },
            None => {},
        }
    } else {
        match &p.thumbnail {
            Some(th) => {
                if has_prefix(th.as_str(), "http") {
                    parts.push(cat3("<img src=\"", th.as_str(), "\" />"));
                }
            },
            None => {},
        }
    }
    parts.push(cat3("🔗 <a href=\"", permalink.as_str(), "\">Comments on Reddit</a>"));
    assert(views(parts@) =~= reddit_parts(p@));
    let mut categories: Vec<String> = Vec::new();
    categories.push(p.subreddit.clone());
    assert(views(categories@) =~= seq![p.subreddit@]);
    FeedItem {
        title: p.title.clone(),
        link: if p.is_self {
            permalink.clone()
        } else {
            p.url.clone()
        },
        description: join_strings(&parts, "<br/>"),
        author: Some(cat("u/", p.author.as_str())),
        pub_date: timestamp_date(p.created_utc),
        guid: Some(permalink),
        categories,
    }
}

/// The channel data of a subreddit listing.
pub fn reddit_meta(sub: &str, sort: &str) -> (m: FeedMeta)
    ensures
        m@ == reddit_meta_spec(sub@, sort@),
{
    let mut title = cat3("r/", sub, " - ");
    push_str(&mut title, sort);
    let mut description = cat3("Reddit r/", sub, " ");
    push_str(&mut description, sort);
    push_str(&mut description, " posts via RSS Forge");
    FeedMeta {
        title,
        link: cat("https://www.reddit.com/r/", sub),
        description,
        language: Some(owned("en")),
    }
}

/// The feed of a subreddit listing: one item per post, in order.
pub fn reddit_feed(sub: &str, sort: &str, posts: &Vec<RedditPostData>) -> (xml: String)
    requires
        forall|i: int| 0 <= i < posts.len() ==> renderable_or_refused(#[trigger] posts@[i].created_utc),
    ensures
        xml@ == feed_xml(
            reddit_meta_spec(sub@, sort@),
            post_views(posts@).map_values(|p: RedditPostView| reddit_item_spec(p)),
        ),
{
    let mut items: Vec<FeedItem> = Vec::new();
    let mut i: usize = 0;
    while i < posts.len()
        invariant
            i <= posts.len(),
            forall|j: int| 0 <= j < posts.len() ==> renderable_or_refused(#[trigger] posts@[j].created_utc),
            items@.len() == i,
            forall|j: int| 0 <= j < i ==> (#[trigger] items@[j]).wf(),
            forall|j: int| 0 <= j < i ==> #[trigger] items@[j]@ == reddit_item_spec(posts@[j]@),
        decreases posts.len() - i,
    {
        items.push(reddit_item(&posts[i]));
        i = i + 1;
    }
    assert(item_views(items@) =~= post_views(posts@).map_values(
        |p: RedditPostView| reddit_item_spec(p),
    ));
    build_rss(reddit_meta(sub, sort), items)
}

} // verus!
