//! The Xuangubao 7x24 news flash as a feed.
use vstd::prelude::*;
use crate::dates::{date_from_timestamp, renderable_or_refused, timestamp_date};
use crate::feeds::{
    build_rss, feed_xml, item_views, opt_view, FeedItem, FeedItemView, FeedMeta, FeedMetaView,
};
use crate::text::{
    cat, cat3, decimal, decimal_int, i64_text, join, join_strings, owned, push_str, u64_text,
    views,
};

verus! {

/// The query of the live route: subjects (comma separated), how many
/// messages, and a paging cursor.
pub struct LiveQuery {
    pub subj_ids: Option<String>,
    pub limit: Option<u32>,
    pub cursor: Option<i64>,
}

/// A stock mentioned by a message.
pub struct Stock {
    pub name: String,
    pub symbol: String,
}

/// A topic tag of a message.
pub struct BkjInfo {
    pub name: String,
}

/// A message of the news flash. `created_at` is a Unix timestamp.
pub struct NewsFlash {
    pub id: u64,
    pub title: String,
    pub summary: Option<String>,
    pub stocks: Vec<Stock>,
    pub bkj_infos: Vec<BkjInfo>,
    pub created_at: i64,
    pub route: Option<String>,
}

/// `NewsFlash` seen through the views of its fields.
pub struct NewsFlashView {
    pub id: u64,
    pub title: Seq<char>,
    pub summary: Option<Seq<char>>,
    pub stocks: Seq<(Seq<char>, Seq<char>)>,
    pub tags: Seq<Seq<char>>,
    pub created_at: i64,
    pub route: Option<Seq<char>>,
}

impl View for NewsFlash {
    type V = NewsFlashView;

    open spec fn view(&self) -> NewsFlashView {
        NewsFlashView {
            id: self.id,
            title: self.title@,
            summary: opt_view(self.summary),
            stocks: self.stocks@.map_values(|s: Stock| (s.name@, s.symbol@)),
            tags: self.bkj_infos@.map_values(|b: BkjInfo| b.name@),
            created_at: self.created_at,
            route: opt_view(self.route),
        }
    }
}

/// The subjects asked for when the query names none: 7x24 flash,
/// announcements, financial news, Hong Kong stocks, US stocks, futures.
pub open spec fn default_subjects() -> Seq<char> {
    "9,10,723,35,469,821"@
}

/// How many messages to ask for: the query's limit (30 when absent), at
/// most 50.
pub open spec fn live_limit(limit: Option<u32>) -> u32 {
    let l = match limit {
        Some(l) => l,
        None => 30u32,
    };
    if l < 50 {
        l
    } else {
        50
    }
}

/// At most 50 messages are asked for; a limit up to 50 is kept, and 30 are
/// asked for when the query gives none.
pub proof fn lemma_live_limit(limit: Option<u32>)
    ensures
        live_limit(limit) <= 50,
        forall|l: u32| limit == Some(l) && l <= 50 ==> live_limit(limit) == l,
        forall|l: u32| limit == Some(l) && l > 50 ==> live_limit(limit) == 50,
        limit is None ==> live_limit(limit) == 30,
{
}

/// The API address of a query.
pub open spec fn live_url_spec(subj_ids: Option<Seq<char>>, limit: Option<u32>, cursor: Option<i64>) -> Seq<char> {
    let subjects = match subj_ids {
        Some(s) => s,
        None => default_subjects(),
    };
    let base = "https://baoer-api.xuangubao.com.cn/api/v6/message/newsflash?limit="@ + decimal(
        live_limit(limit) as nat,
    ) + "&subj_ids="@ + subjects + "&platform=pcweb"@;
    match cursor {
        Some(c) => base + "&cursor="@ + decimal_int(c as int),
        None => base,
    }
}

/// The pieces of a message's description: its summary when not empty, the
/// stocks it mentions, its tags.
pub open spec fn flash_parts(m: NewsFlashView) -> Seq<Seq<char>> {
    let p0: Seq<Seq<char>> = match m.summary {
        Some(s) => if s.len() > 0 {
            seq![s]
        } else {
            seq![]
        },
        None => seq![],
    };
    let p1 = if m.stocks.len() > 0 {
        p0.push(
            "📈 相关股票："@ + join(
                m.stocks.map_values(|s: (Seq<char>, Seq<char>)| s.0 + " ("@ + s.1 + ")"@),
                "、"@,
            ),
        )
    } else {
        p0
    };
    if m.tags.len() > 0 {
        p1.push("🏷 "@ + join(m.tags, " · "@))
    } else {
        p1
    }
}

/// A message's description starts with its summary when that is not empty,
/// ends with its tags when it has some, and between them shows its stocks
/// when it mentions some; nothing else.
pub proof fn lemma_flash_parts_layout(m: NewsFlashView)
    ensures
        ({
            let parts = flash_parts(m);
            let s: int = if m.summary matches Some(t) && t.len() > 0 { 1 } else { 0 };
            let k: int = if m.stocks.len() > 0 { 1 } else { 0 };
            let g: int = if m.tags.len() > 0 { 1 } else { 0 };
            &&& parts.len() == s + k + g
            &&& s == 1 ==> parts[0] == m.summary->0
            &&& g == 1 ==> parts.last() == "🏷 "@ + join(m.tags, " · "@)
        }),
{
}

/// The feed item of a message: it links to its route, or to its article
/// page when it has none; its categories are its tags.
pub open spec fn flash_item_spec(m: NewsFlashView) -> FeedItemView {
    FeedItemView {
        title: m.title,
        link: match m.route {
            Some(r) => r,
            None => "https://xuangubao.com.cn/article/"@ + decimal(m.id as nat),
        },
        description: join(flash_parts(m), "<br/>"@),
        author: None,
        pub_date: date_from_timestamp(m.created_at),
        guid: Some("xuangutong-"@ + decimal(m.id as nat)),
        categories: m.tags,
    }
}

/// The channel data of the news flash; the description tells the cursor of
/// the next page when there is one.
pub open spec fn flash_meta_spec(next_cursor: Option<i64>) -> FeedMetaView {
    FeedMetaView {
        title: "选股通 7x24 快讯"@,
        link: "https://xuangutong.com.cn/live"@,
        description: "选股通 7x24 小时财经快讯"@ + match next_cursor {
            Some(c) => " (next_cursor="@ + decimal_int(c as int) + ")"@,
            None => Seq::empty(),
        },
        language: Some("zh-CN"@),
    }
}

/// The views of a list of messages.
pub open spec fn flash_views(messages: Seq<NewsFlash>) -> Seq<NewsFlashView> {
    messages.map_values(|m: NewsFlash| m@)
}

/// The API address of a query.
pub fn live_url(q: &LiveQuery) -> (r: String)
    ensures
        r@ == live_url_spec(opt_view(q.subj_ids), q.limit, q.cursor),
{
    let l = match q.limit {
        Some(l) => l,
        None => 30,
    };
    let limit: u32 = if l < 50 {
        l
    } else {
        50
    };
    let n = u64_text(limit as u64);
    let mut url = cat(
        "https://baoer-api.xuangubao.com.cn/api/v6/message/newsflash?limit=",
        n.as_str(),
    );
    push_str(&mut url, "&subj_ids=");
    match &q.subj_ids {
        Some(s) => push_str(&mut url, s.as_str()),
        None => push_str(&mut url, "9,10,723,35,469,821"),
    }
    push_str(&mut url, "&platform=pcweb");
    match q.cursor {
        Some(c) => {
            let t = i64_text(c);
            push_str(&mut url, "&cursor=");
            push_str(&mut url, t.as_str());
        },
        None => {},
    }
    url
}

/// The feed item of a message.
pub fn flash_item(m: &NewsFlash) -> (r: FeedItem)
    requires
        renderable_or_refused(m.created_at),
    ensures
        r@ == flash_item_spec(m@),
        r.wf(),
{
    let id_text = u64_text(m.id);
    let link = match &m.route {
        Some(r) => r.clone(),
        None => cat("https://xuangubao.com.cn/article/", id_text.as_str()),
    };
    let ghost mv = m@;
    let mut parts: Vec<String> = Vec::new();
    match &m.summary {
        Some(s) => {
            if !s.as_str().is_empty() {
                parts.push(s.clone());
            }
        },
        None => {},
    }
    if m.stocks.len() > 0 {
        let mut names: Vec<String> = Vec::new();
        let mut i: usize = 0;
        while i < m.stocks.len()
            invariant
                i <= m.stocks.len(),
                mv == m@,
                names@.len() == i,
                forall|j: int| 0 <= j < i ==> #[trigger] names@[j]@ == mv.stocks[j].0 + " ("@ + mv.stocks[j].1 + ")"@,
            decreases m.stocks.len() - i,
        {
            let mut s = cat3(m.stocks[i].name.as_str(), " (", m.stocks[i].symbol.as_str());
            push_str(&mut s, ")");
            names.push(s);
            i = i + 1;
        }
        assert(views(names@) =~= mv.stocks.map_values(
            |s: (Seq<char>, Seq<char>)| s.0 + " ("@ + s.1 + ")"@,
        ));
        let joined = join_strings(&names, "、");
        parts.push(cat("📈 相关股票：", joined.as_str()));
    }
    let mut tags: Vec<String> = Vec::new();
    let mut k: usize = 0;
    while k < m.bkj_infos.len()
        invariant
            k <= m.bkj_infos.len(),
            mv == m@,
            tags@.len() == k,
            forall|j: int| 0 <= j < k ==> #[trigger] tags@[j]@ == mv.tags[j],
        decreases m.bkj_infos.len() - k,
    {
        tags.push(m.bkj_infos[k].name.clone());
        k = k + 1;
    }
    assert(views(tags@) =~= mv.tags);
    if m.bkj_infos.len() > 0 {
        let joined = join_strings(&tags, " · ");
        parts.push(cat("🏷 ", joined.as_str()));
    }
    assert(views(parts@) =~= flash_parts(mv));
    FeedItem {
        title: m.title.clone(),
        link,
        description: join_strings(&parts, "<br/>"),
        author: None,
        pub_date: timestamp_date(m.created_at),
        guid: Some(cat("xuangutong-", id_text.as_str())),
        categories: tags,
    }
}

/// The channel data of the news flash.
pub fn flash_meta(next_cursor: Option<i64>) -> (m: FeedMeta)
    ensures
        m@ == flash_meta_spec(next_cursor),
{
    let description = match next_cursor {
        Some(c) => {
            let t = i64_text(c);
            let mut d = cat3("选股通 7x24 小时财经快讯", " (next_cursor=", t.as_str());
            push_str(&mut d, ")");
            assert(d@ =~= "选股通 7x24 小时财经快讯"@ + (" (next_cursor="@ + decimal_int(c as int)
                + ")"@));
            d
        },
        None => owned("选股通 7x24 小时财经快讯"),
    };
    proof {
        if next_cursor is None {
            assert("选股通 7x24 小时财经快讯"@ + Seq::<char>::empty() =~= "选股通 7x24 小时财经快讯"@);
        }
    }
    FeedMeta {
        title: owned("选股通 7x24 快讯"),
        link: owned("https://xuangutong.com.cn/live"),
        description,
        language: Some(owned("zh-CN")),
    }
}

/// The feed of a page of messages: one item per message, in order.
pub fn newsflash_feed(messages: &Vec<NewsFlash>, next_cursor: Option<i64>) -> (xml: String)
    requires
        forall|i: int| 0 <= i < messages.len() ==> renderable_or_refused(#[trigger] messages@[i].created_at),
    ensures
        xml@ == feed_xml(
            flash_meta_spec(next_cursor),
            flash_views(messages@).map_values(|m: NewsFlashView| flash_item_spec(m)),
        ),
{
    let mut items: Vec<FeedItem> = Vec::new();
    let mut i: usize = 0;
    while i < messages.len()
        invariant
            i <= messages.len(),
            forall|j: int| 0 <= j < messages.len() ==> renderable_or_refused(#[trigger] messages@[j].created_at),
            items@.len() == i,
            forall|j: int| 0 <= j < i ==> (#[trigger] items@[j]).wf(),
            forall|j: int| 0 <= j < i ==> #[trigger] items@[j]@ == flash_item_spec(messages@[j]@),
        decreases messages.len() - i,
    {
        items.push(flash_item(&messages[i]));
        i = i + 1;
    }
    assert(item_views(items@) =~= flash_views(messages@).map_values(
        |m: NewsFlashView| flash_item_spec(m),
    ));
    build_rss(flash_meta(next_cursor), items)
}

} // verus!
