//! V2EX topic lists as feeds.
use vstd::prelude::*;
use crate::dates::{date_from_timestamp, renderable_or_refused, timestamp_date};
use crate::feeds::{
    build_rss, feed_xml, item_views, opt_view, FeedItem, FeedItemView, FeedMeta, FeedMetaView,
};
use crate::text::{
    cat, cat3, decimal, join, join_strings, owned, prefix, push_str, take_chars, text_eq,
    u64_text, views,
};

verus! {

/// The author of a topic.
pub struct V2exMember {
    pub username: String,
}

/// The node (board) of a topic.
pub struct V2exNode {
    pub title: String,
    pub name: String,
}

/// A topic as the V2EX API describes it. `created` is a Unix timestamp.
pub struct V2exTopic {
    pub title: String,
    pub url: String,
    pub content: Option<String>,
    pub replies: u64,
    pub member: V2exMember,
    pub node: Option<V2exNode>,
    pub created: u64,
}

/// `V2exNode` seen through the views of its fields.
pub struct V2exNodeView {
    pub title: Seq<char>,
    pub name: Seq<char>,
}

/// `V2exTopic` seen through the views of its fields.
pub struct V2exTopicView {
    pub title: Seq<char>,
    pub url: Seq<char>,
    pub content: Option<Seq<char>>,
    pub replies: u64,
    pub username: Seq<char>,
    pub node: Option<V2exNodeView>,
    pub created: u64,
}

impl View for V2exTopic {
    type V = V2exTopicView;

    open spec fn view(&self) -> V2exTopicView {
        V2exTopicView {
            title: self.title@,
            url: self.url@,
            content: opt_view(self.content),
            replies: self.replies,
            username: self.member.username@,
            node: match self.node {
                Some(n) => Some(V2exNodeView { title: n.title@, name: n.name@ }),
                None => None,
            },
            created: self.created,
        }
    }
}

/// The API address of a topic list (`latest`, `hot`).
pub open spec fn v2ex_url_spec(endpoint: Seq<char>) -> Seq<char> {
    "https://www.v2ex.com/api/v2/topics/"@ + endpoint
}

/// The pieces of a topic's description: its node with a link, its reply
/// count, and the first 500 characters of its content when not empty.
pub open spec fn v2ex_parts(t: V2exTopicView) -> Seq<Seq<char>> {
    let p0: Seq<Seq<char>> = match t.node {
        Some(n) => seq![
            "📂 节点: <a href=\"https://www.v2ex.com/go/"@ + n.name + "\">"@ + n.title + "</a>"@,
        ],
        None => seq![],
    };
    let p1 = p0.push("💬 回复数: "@ + decimal(t.replies as nat));
    match t.content {
        Some(c) => if prefix(c, 500).len() > 0 {
            p1.push(prefix(c, 500))
        } else {
            p1
        },
        None => p1,
    }
}

/// The preview of a topic's content is the opening of the content: its
/// first 500 characters, or all of it when shorter. It is the last piece,
/// after the node (when there is one) and the reply count.
pub proof fn lemma_v2ex_preview_is_opening(t: V2exTopicView)
    requires
        t.content matches Some(c) && c.len() > 0,
    ensures
        ({
            let c = t.content->0;
            let at: int = if t.node is Some { 2 } else { 1 };
            let preview = v2ex_parts(t)[at];
            &&& v2ex_parts(t).len() == at + 1
            &&& crate::text::starts_with(c, preview)
            &&& preview.len() == (if c.len() < 500 { c.len() } else { 500 })
            &&& preview == c.subrange(0, preview.len() as int)
        }),
{
    crate::text::lemma_prefix_bounded(t.content->0, 500);
}

/// The feed item of a topic; its category is its node's title.
pub open spec fn v2ex_item_spec(t: V2exTopicView) -> FeedItemView {
    FeedItemView {
        title: t.title,
        link: t.url,
        description: join(v2ex_parts(t), "<br/>"@),
        author: Some(t.username),
        pub_date: date_from_timestamp(t.created as i64),
        guid: Some(t.url),
        categories: match t.node {
            Some(n) => seq![n.title],
            None => seq![],
        },
    }
}

/// The channel data of a topic list.
pub open spec fn v2ex_meta_spec(endpoint: Seq<char>) -> FeedMetaView {
    let (title, description) = if endpoint == "latest"@ {
        ("V2EX 最新主题"@, "V2EX 最新发布的主题"@)
    } else if endpoint == "hot"@ {
        ("V2EX 热门主题"@, "V2EX 今日热门主题"@)
    } else {
        ("V2EX 主题"@, "V2EX 主题"@)
    };
    FeedMetaView {
        title,
        link: "https://www.v2ex.com"@,
        description,
        language: Some("zh-CN"@),
    }
}

/// The views of a list of topics.
pub open spec fn topic_views(topics: Seq<V2exTopic>) -> Seq<V2exTopicView> {
    topics.map_values(|t: V2exTopic| t@)
}

/// A topic whose creation time can be published.
pub open spec fn v2ex_time_ok(t: V2exTopic) -> bool {
    renderable_or_refused(t.created as i64)
}

/// The API address of a topic list.
pub fn v2ex_url(endpoint: &str) -> (r: String)
    ensures
        r@ == v2ex_url_spec(endpoint@),
{
    cat("https://www.v2ex.com/api/v2/topics/", endpoint)
}

/// The feed item of a topic.
pub fn v2ex_item(t: &V2exTopic) -> (r: FeedItem)
    requires
        v2ex_time_ok(*t),
    ensures
        r@ == v2ex_item_spec(t@),
        r.wf(),
{
    let mut parts: Vec<String> = Vec::new();
    match &t.node {
        Some(n) => {
            let mut s = cat3("📂 节点: <a href=\"https://www.v2ex.com/go/", n.name.as_str(), "\">");
            push_str(&mut s, n.title.as_str());
            push_str(&mut s, "</a>");
            parts.push(s);
        },
        None => {},
    }
    let replies = u64_text(t.replies);
    parts.push(cat("💬 回复数: ", replies.as_str()));
    match &t.content {
        Some(c) => {
            let preview = take_chars(c.as_str(), 500);
            if !preview.as_str().is_empty() {
                parts.push(preview);
            }
        },
        None => {},
    }
    assert(views(parts@) =~= v2ex_parts(t@));
    let categories: Vec<String> = match &t.node {
        Some(n) => {
            let mut c: Vec<String> = Vec::new();
            c.push(n.title.clone());
            assert(views(c@) =~= seq![n.title@]);
            c
        },
        None => {
            let c: Vec<String> = Vec::new();
            assert(views(c@) =~= Seq::<Seq<char>>::empty());
            c
        },
    };
    FeedItem {
        title: t.title.clone(),
        link: t.url.clone(),
        description: join_strings(&parts, "<br/>"),
        author: Some(t.member.username.clone()),
        pub_date: timestamp_date(t.created as i64),
        guid: Some(t.url.clone()),
        categories,
    }
}

/// The channel data of a topic list.
pub fn v2ex_meta(endpoint: &str) -> (m: FeedMeta)
    ensures
        m@ == v2ex_meta_spec(endpoint@),
{
    let (title, description) = if text_eq(endpoint, "latest") {
        ("V2EX 最新主题", "V2EX 最新发布的主题")
    } else if text_eq(endpoint, "hot") {
        ("V2EX 热门主题", "V2EX 今日热门主题")
    } else {
        ("V2EX 主题", "V2EX 主题")
    };
    FeedMeta {
        title: owned(title),
        link: owned("https://www.v2ex.com"),
        description: owned(description),
        language: Some(owned("zh-CN")),
    }
}

/// The feed of a topic list: one item per topic, in order.
pub fn v2ex_feed(endpoint: &str, topics: &Vec<V2exTopic>) -> (xml: String)
    requires
        forall|i: int| 0 <= i < topics.len() ==> v2ex_time_ok(#[trigger] topics@[i]),
    ensures
        xml@ == feed_xml(
            v2ex_meta_spec(endpoint@),
            topic_views(topics@).map_values(|t: V2exTopicView| v2ex_item_spec(t)),
        ),
{
    let mut items: Vec<FeedItem> = Vec::new();
    let mut i: usize = 0;
    while i < topics.len()
        invariant
            i <= topics.len(),
            forall|j: int| 0 <= j < topics.len() ==> v2ex_time_ok(#[trigger] topics@[j]),
            items@.len() == i,
            forall|j: int| 0 <= j < i ==> (#[trigger] items@[j]).wf(),
            forall|j: int| 0 <= j < i ==> #[trigger] items@[j]@ == v2ex_item_spec(topics@[j]@),
        decreases topics.len() - i,
    {
        items.push(v2ex_item(&topics[i]));
        i = i + 1;
    }
    assert(item_views(items@) =~= topic_views(topics@).map_values(
        |t: V2exTopicView| v2ex_item_spec(t),
    ));
    build_rss(v2ex_meta(endpoint), items)
}

} // verus!
