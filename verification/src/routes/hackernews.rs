//! Hacker News story lists as feeds.
use vstd::prelude::*;
use crate::dates::{chrono_accepts, renderable_or_refused, timestamp_accepted};
use crate::error::FeedError;
use crate::feeds::{
    all_wf, build_rss, copy_opt, feed_xml, item_views, opt_item_view, opt_view, present, FeedItem,
    FeedItemView, FeedMeta, FeedMetaView,
};
use crate::markup::{regex_compiles, strip_tags, stripped, tag_pattern, tag_pattern_compiles};
use crate::text::{
    cat, cat3, decimal, join, join_strings, owned, prefix, take_chars, u64_text, views,
};

verus! {

/// A Hacker News item as the API describes it.
pub struct HnItem {
    pub id: u64,
    pub title: Option<String>,
    pub url: Option<String>,
    pub by: Option<String>,
    pub score: Option<u64>,
    pub descendants: Option<u64>,
    pub time: Option<i64>,
    pub text: Option<String>,
    pub item_type: Option<String>,
}

/// `HnItem` seen through the views of its fields.
pub struct HnItemView {
    pub id: u64,
    pub title: Option<Seq<char>>,
    pub url: Option<Seq<char>>,
    pub by: Option<Seq<char>>,
    pub score: Option<u64>,
    pub descendants: Option<u64>,
    pub time: Option<i64>,
    pub text: Option<Seq<char>>,
    pub item_type: Option<Seq<char>>,
}

impl View for HnItem {
    type V = HnItemView;

    open spec fn view(&self) -> HnItemView {
        HnItemView {
            id: self.id,
            title: opt_view(self.title),
            url: opt_view(self.url),
            by: opt_view(self.by),
            score: self.score,
            descendants: self.descendants,
            time: self.time,
            text: opt_view(self.text),
            item_type: opt_view(self.item_type),
        }
    }
}

/// A time that can be published (see `renderable_or_refused`). Only titled
/// items need one: an untitled item is dropped before its time is read.
pub open spec fn hn_time_ok(time: Option<i64>) -> bool {
    time matches Some(t) ==> renderable_or_refused(t)
}

/// The address of a story list, such as `beststories`.
pub open spec fn hn_list_url_spec(endpoint: Seq<char>) -> Seq<char> {
    "https://hacker-news.firebaseio.com/v0/"@ + endpoint + ".json"@
}

/// The API address of one item.
pub open spec fn hn_item_url_spec(id: u64) -> Seq<char> {
    "https://hacker-news.firebaseio.com/v0/item/"@ + decimal(id as nat) + ".json"@
}

/// The discussion page of one item.
pub open spec fn hn_link(id: u64) -> Seq<char> {
    "https://news.ycombinator.com/item?id="@ + decimal(id as nat)
}

/// The pieces of an item's description: its points, its comment count, the
/// first 500 characters of its text made plain (when not empty), and a link
/// to the discussion.
pub open spec fn hn_parts(item: HnItemView) -> Seq<Seq<char>> {
    let p1: Seq<Seq<char>> = match item.score {
        Some(s) => seq!["\u{2b50} "@ + decimal(s as nat) + " points"@],
        None => seq![],
    };
    let p2 = match item.descendants {
        Some(c) => p1.push("\u{1f4ac} "@ + decimal(c as nat) + " comments"@),
        None => p1,
    };
    let p3 = match item.text {
        Some(t) => if stripped(t).len() > 0 {
            p2.push(prefix(stripped(t), 500))
        } else {
            p2
        },
        None => p2,
    };
    p3.push("\u{1f517} <a href=\""@ + hn_link(item.id) + "\">Comments</a>"@)
}

/// The number of pieces before an item's text preview: its points and its
/// comment count, each when known.
pub open spec fn hn_counts_shown(item: HnItemView) -> int {
    (if item.score is Some { 1int } else { 0int }) + (if item.descendants is Some { 1int } else { 0int })
}

/// The preview of an item's text is the opening of its plain text: the
/// first 500 characters, or all of it when shorter. It follows the points
/// and comment count, and only the discussion link comes after it.
pub proof fn lemma_hn_preview_is_opening(item: HnItemView)
    requires
        item.text matches Some(t) && stripped(t).len() > 0,
    ensures
        ({
            let plain = stripped(item.text->0);
            let preview = hn_parts(item)[hn_counts_shown(item)];
            &&& hn_parts(item).len() == hn_counts_shown(item) + 2
            &&& crate::text::starts_with(plain, preview)
            &&& preview.len() == (if plain.len() < 500 { plain.len() } else { 500 })
            &&& preview == plain.subrange(0, preview.len() as int)
        }),
{
    crate::text::lemma_prefix_bounded(stripped(item.text->0), 500);
}

/// The date of an item: its time, or the Unix epoch when chrono refuses it.
pub open spec fn hn_date(time: Option<i64>) -> Option<i64> {
    match time {
        Some(t) => Some(
            if chrono_accepts(t as int) {
                t
            } else {
                0
            },
        ),
        None => None,
    }
}

/// The feed item of an item; none when it has no title.
pub open spec fn hn_item_spec(item: HnItemView) -> Option<FeedItemView> {
    match item.title {
        None => None,
        Some(title) => Some(
            FeedItemView {
                title,
                link: match item.url {
                    Some(u) => u,
                    None => hn_link(item.id),
                },
                description: join(hn_parts(item), " | "@),
                author: item.by,
                pub_date: hn_date(item.time),
                guid: Some(hn_link(item.id)),
                categories: match item.item_type {
                    Some(t) => seq![t],
                    None => seq![],
                },
            },
        ),
    }
}

/// The feed items of a list of items, in order.
pub open spec fn hn_items_spec(items: Seq<HnItemView>) -> Seq<FeedItemView> {
    present(items.map_values(|i: HnItemView| hn_item_spec(i)))
}

/// A story list never has more items than stories, and every item's guid
/// is a discussion page of Hacker News.
pub proof fn lemma_hn_items(items: Seq<HnItemView>)
    ensures
        hn_items_spec(items).len() <= items.len(),
        forall|k: int|
            0 <= k < hn_items_spec(items).len() ==> ((#[trigger] hn_items_spec(items)[k]).guid
                matches Some(g) && crate::text::starts_with(
                g,
                "https://news.ycombinator.com/item?id="@,
            )),
{
    let mapped = items.map_values(|i: HnItemView| hn_item_spec(i));
    crate::feeds::lemma_present_bounded(mapped);
    assert forall|k: int| 0 <= k < hn_items_spec(items).len() implies ((#[trigger] hn_items_spec(
        items,
    )[k]).guid matches Some(g) && crate::text::starts_with(
        g,
        "https://news.ycombinator.com/item?id="@,
    )) by {
        let it = hn_items_spec(items)[k];
        let j = choose|j: int| 0 <= j < mapped.len() && mapped[j] == Some(it);
        assert(mapped[j] == hn_item_spec(items[j]));
        let g = hn_link(items[j].id);
        assert(g.subrange(0, "https://news.ycombinator.com/item?id="@.len() as int)
            =~= "https://news.ycombinator.com/item?id="@);
    }
}

/// The items that have a title, in order.
pub open spec fn titled_items(items: Seq<HnItemView>) -> Seq<HnItemView>
    decreases items.len(),
{
    if items.len() == 0 {
        seq![]
    } else {
        let r = titled_items(items.drop_last());
        if items.last().title is Some {
            r.push(items.last())
        } else {
            r
        }
    }
}

proof fn lemma_present_titled(items: Seq<HnItemView>, m: Seq<Option<FeedItemView>>)
    requires
        m.len() == items.len(),
        forall|j: int| 0 <= j < items.len() ==> #[trigger] m[j] == hn_item_spec(items[j]),
    ensures
        present(m).len() == titled_items(items).len(),
        forall|k: int|
            0 <= k < titled_items(items).len() ==> Some(#[trigger] present(m)[k]) == hn_item_spec(
                titled_items(items)[k],
            ),
        forall|k: int| 0 <= k < titled_items(items).len() ==> (#[trigger] titled_items(items)[k]).title is Some,
    decreases items.len(),
{
    if items.len() > 0 {
        let d = items.drop_last();
        assert forall|j: int| 0 <= j < d.len() implies #[trigger] m.drop_last()[j] == hn_item_spec(
            d[j],
        ) by {
            assert(m[j] == hn_item_spec(items[j]));
        }
        lemma_present_titled(d, m.drop_last());
        assert(m.last() == hn_item_spec(items.last()));
    }
}

/// A story list has one item per titled item, none left out, in order: the
/// `k`-th feed item carries the `k`-th titled item's title, author and type,
/// links to its address (or its discussion page when it has none) and uses
/// its discussion page as guid.
pub proof fn lemma_hn_one_item_per_titled(items: Seq<HnItemView>)
    ensures
        hn_items_spec(items).len() == titled_items(items).len(),
        forall|k: int|
            0 <= k < hn_items_spec(items).len() ==> {
                let it = #[trigger] hn_items_spec(items)[k];
                let src = titled_items(items)[k];
                &&& src.title == Some(it.title)
                &&& it.author == src.by
                &&& it.guid == Some(hn_link(src.id))
                &&& it.link == (match src.url {
                    Some(u) => u,
                    None => hn_link(src.id),
                })
                &&& it.categories == (match src.item_type {
                    Some(t) => seq![t],
                    None => seq![],
                })
            },
{
    let m = items.map_values(|i: HnItemView| hn_item_spec(i));
    lemma_present_titled(items, m);
    assert forall|k: int| 0 <= k < hn_items_spec(items).len() implies {
        let it = #[trigger] hn_items_spec(items)[k];
        let src = titled_items(items)[k];
        &&& src.title == Some(it.title)
        &&& it.author == src.by
        &&& it.guid == Some(hn_link(src.id))
        &&& it.link == (match src.url {
            Some(u) => u,
            None => hn_link(src.id),
        })
        &&& it.categories == (match src.item_type {
            Some(t) => seq![t],
            None => seq![],
        })
    } by {
        assert(Some(hn_items_spec(items)[k]) == hn_item_spec(titled_items(items)[k]));
    }
}

/// The channel data of a story list.
pub open spec fn hn_meta_spec(title: Seq<char>) -> FeedMetaView {
    FeedMetaView {
        title,
        link: "https://news.ycombinator.com"@,
        description: title + " - RSS via RSS Forge"@,
        language: Some("en"@),
    }
}

/// The address of a story list, such as `beststories`.
pub fn hn_list_url(endpoint: &str) -> (r: String)
    ensures
        r@ == hn_list_url_spec(endpoint@),
{
    cat3("https://hacker-news.firebaseio.com/v0/", endpoint, ".json")
}

/// The API address of one item.
pub fn hn_item_url(id: u64) -> (r: String)
    ensures
        r@ == hn_item_url_spec(id),
{
    let n = u64_text(id);
    cat3("https://hacker-news.firebaseio.com/v0/item/", n.as_str(), ".json")
}

/// The first `limit` ids of a list, or all of them when there are fewer.
pub fn hn_story_ids(ids: &Vec<u64>, limit: usize) -> (r: Vec<u64>)
    ensures
        r@ == (if limit < ids.len() {
            ids@.take(limit as int)
        } else {
            ids@
        }),
{
    let n = if limit < ids.len() {
        limit
    } else {
        ids.len()
    };
    let mut r: Vec<u64> = Vec::new();
    let mut i: usize = 0;
    while i < n
        invariant
            i <= n <= ids.len(),
            r@ == ids@.take(i as int),
        decreases n - i,
    {
        r.push(ids[i]);
        assert(r@ =~= ids@.take(i + 1));
        i = i + 1;
    }
    assert(ids@.take(ids.len() as int) =~= ids@);
    r
}

/// The feed item of an item, for a pattern engine that accepts the tag
/// pattern; none when the item has no title.
pub fn hn_feed_item(item: &HnItem) -> (r: Option<FeedItem>)
    requires
        regex_compiles(tag_pattern()),
        item.title is Some ==> hn_time_ok(item.time),
    ensures
        opt_item_view(r) == hn_item_spec(item@),
        r matches Some(i) ==> i.wf(),
{
    let title = match &item.title {
        Some(t) => t.clone(),
        None => {
            return None;
        },
    };
    let id_text = u64_text(item.id);
    let hn_link = cat("https://news.ycombinator.com/item?id=", id_text.as_str());
    let link = match &item.url {
        Some(u) => u.clone(),
        None => hn_link.clone(),
    };
    let mut parts: Vec<String> = Vec::new();
    match item.score {
        Some(s) => {
            let n = u64_text(s);
            parts.push(cat3("\u{2b50} ", n.as_str(), " points"));
        },
        None => {},
    }
    match item.descendants {
        Some(c) => {
            let n = u64_text(c);
            parts.push(cat3("\u{1f4ac} ", n.as_str(), " comments"));
        },
        None => {},
    }
    match &item.text {
        Some(t) => {
            let clean = strip_tags(t.as_str());
            if !clean.as_str().is_empty() {
                parts.push(take_chars(clean.as_str(), 500));
            }
        },
        None => {},
    }
    parts.push(cat3("\u{1f517} <a href=\"", hn_link.as_str(), "\">Comments</a>"));
    assert(views(parts@) =~= hn_parts(item@));
    let pub_date = match item.time {
        Some(t) => Some(
            if timestamp_accepted(t) {
                t
            } else {
                0
            },
        ),
        None => None,
    };
    let categories: Vec<String> = match &item.item_type {
        Some(t) => {
            let mut c: Vec<String> = Vec::new();
            c.push(t.clone());
            assert(views(c@) =~= seq![t@]);
            c
        },
        None => {
            let c: Vec<String> = Vec::new();
            assert(views(c@) =~= Seq::<Seq<char>>::empty());
            c
        },
    };
    Some(
        FeedItem {
            title,
            link,
            description: join_strings(&parts, " | "),
            author: copy_opt(&item.by),
            pub_date,
            guid: Some(hn_link),
            categories,
        },
    )
}

/// The channel data of a story list.
pub fn hn_meta(title: &str) -> (m: FeedMeta)
    ensures
        m@ == hn_meta_spec(title@),
{
    FeedMeta {
        title: owned(title),
        link: owned("https://news.ycombinator.com"),
        description: cat(title, " - RSS via RSS Forge"),
        language: Some(owned("en")),
    }
}

/// The feed of a story list titled `title`: one item per story that has a
/// title, in order. Fails only when the pattern engine refuses the tag
/// pattern.
pub fn hn_feed(title: &str, items: &Vec<HnItem>) -> (r: Result<String, FeedError>)
    requires
        forall|i: int|
            0 <= i < items.len() && (#[trigger] items@[i]).title is Some ==> hn_time_ok(
                items@[i].time,
            ),
    ensures
        r is Err <==> !regex_compiles(tag_pattern()),
        r matches Err(e) ==> e is TagPattern,
        r matches Ok(xml) ==> xml@ == feed_xml(
            hn_meta_spec(title@),
            hn_items_spec(items@.map_values(|i: HnItem| i@)),
        ),
{
    if !tag_pattern_compiles() {
        return Err(FeedError::TagPattern);
    }
    let ghost mapped = items@.map_values(|i: HnItem| i@).map_values(
        |i: HnItemView| hn_item_spec(i),
    );
    let mut out: Vec<FeedItem> = Vec::new();
    let mut i: usize = 0;
    while i < items.len()
        invariant
            i <= items.len(),
            regex_compiles(tag_pattern()),
            forall|j: int|
                0 <= j < items.len() && (#[trigger] items@[j]).title is Some ==> hn_time_ok(
                    items@[j].time,
                ),
            mapped == items@.map_values(|i: HnItem| i@).map_values(
                |i: HnItemView| hn_item_spec(i),
            ),
            all_wf(out@),
            item_views(out@) == present(mapped.take(i as int)),
        decreases items.len() - i,
    {
        assert(mapped.take(i + 1).drop_last() =~= mapped.take(i as int));
        match hn_feed_item(&items[i]) {
            Some(item) => {
                out.push(item);
                assert(item_views(out@) =~= present(mapped.take(i + 1)));
            },
            None => {},
        }
        i = i + 1;
    }
    assert(mapped.take(items.len() as int) =~= mapped);
    Ok(build_rss(hn_meta(title), out))
}

} // verus!
