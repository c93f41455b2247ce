//! Feed items, feed metadata and their rendering as an RSS 2.0 document.
use vstd::prelude::*;
use crate::dates::{publishable, rfc2822, rfc2822_text};
use crate::text::views;

verus! {

/// One entry of a feed. `pub_date` is a Unix timestamp in seconds.
pub struct FeedItem {
    pub title: String,
    pub link: String,
    pub description: String,
    pub author: Option<String>,
    pub pub_date: Option<i64>,
    pub guid: Option<String>,
    pub categories: Vec<String>,
}

/// The channel-level data of a feed.
pub struct FeedMeta {
    pub title: String,
    pub link: String,
    pub description: String,
    pub language: Option<String>,
}

/// `FeedItem` seen through the views of its fields.
pub struct FeedItemView {
    pub title: Seq<char>,
    pub link: Seq<char>,
    pub description: Seq<char>,
    pub author: Option<Seq<char>>,
    pub pub_date: Option<i64>,
    pub guid: Option<Seq<char>>,
    pub categories: Seq<Seq<char>>,
}

/// `FeedMeta` seen through the views of its fields.
pub struct FeedMetaView {
    pub title: Seq<char>,
    pub link: Seq<char>,
    pub description: Seq<char>,
    pub language: Option<Seq<char>>,
}

/// The view of an optional string.
pub open spec fn opt_view(o: Option<String>) -> Option<Seq<char>> {
    match o {
        Some(s) => Some(s@),
        None => None,
    }
}

impl View for FeedItem {
    type V = FeedItemView;

    open spec fn view(&self) -> FeedItemView {
        FeedItemView {
            title: self.title@,
            link: self.link@,
            description: self.description@,
            author: opt_view(self.author),
            pub_date: self.pub_date,
            guid: opt_view(self.guid),
            categories: views(self.categories@),
        }
    }
}

impl View for FeedMeta {
    type V = FeedMetaView;

    open spec fn view(&self) -> FeedMetaView {
        FeedMetaView {
            title: self.title@,
            link: self.link@,
            description: self.description@,
            language: opt_view(self.language),
        }
    }
}

/// The views of a vector of feed items.
pub open spec fn item_views(items: Seq<FeedItem>) -> Seq<FeedItemView> {
    items.map_values(|i: FeedItem| i@)
}

/// The view of an optional feed item.
pub open spec fn opt_item_view(o: Option<FeedItem>) -> Option<FeedItemView> {
    match o {
        Some(i) => Some(i@),
        None => None,
    }
}

/// The values present in `s`, in order (`Iterator::filter_map` with the
/// identity).
pub open spec fn present<T>(s: Seq<Option<T>>) -> Seq<T>
    decreases s.len(),
{
    if s.len() == 0 {
        seq![]
    } else {
        let r = present(s.drop_last());
        match s.last() {
            Some(x) => r.push(x),
            None => r,
        }
    }
}

/// Keeping the present values keeps at most as many as there were, and
/// each kept value was present in the input.
pub proof fn lemma_present_bounded<T>(s: Seq<Option<T>>)
    ensures
        present(s).len() <= s.len(),
        forall|k: int| 0 <= k < present(s).len() ==> s.contains(Some(#[trigger] present(s)[k])),
    decreases s.len(),
{
    if s.len() > 0 {
        lemma_present_bounded(s.drop_last());
        let r = present(s.drop_last());
        assert forall|k: int| 0 <= k < present(s).len() implies s.contains(
            Some(#[trigger] present(s)[k]),
        ) by {
            if k < r.len() {
                assert(present(s)[k] == r[k]);
                let j = choose|j: int| 0 <= j < s.drop_last().len() && s.drop_last()[j] == Some(r[k]);
                assert(s[j] == Some(r[k]));
            } else {
                assert(s[s.len() - 1] == Some(present(s)[k]));
            }
        }
    }
}

/// The RSS document of a feed has one entry per item, in order, each made
/// from its item.
pub proof fn lemma_one_entry_per_item(meta: FeedMetaView, items: Seq<FeedItemView>)
    ensures
        channel_of(meta, items).items.len() == items.len(),
        forall|k: int| 0 <= k < items.len() ==> #[trigger] channel_of(meta, items).items[k]
            == entry_of(items[k]),
        forall|k: int| 0 <= k < items.len() ==> (#[trigger] channel_of(meta, items).items[k]).guid
            == match items[k].guid {
            Some(g) => g,
            None => items[k].link,
        },
{
}

/// Each `<item>` of the RSS document carries its feed item's title, link,
/// description, author and categories unchanged (every category, in order),
/// has a date exactly when the item has one, and the channel carries the
/// feed's title, link, description and language.
pub proof fn lemma_entries_keep_item_fields(meta: FeedMetaView, items: Seq<FeedItemView>)
    ensures
        channel_of(meta, items).title == meta.title,
        channel_of(meta, items).link == meta.link,
        channel_of(meta, items).description == meta.description,
        channel_of(meta, items).language == meta.language,
        forall|k: int|
            0 <= k < items.len() ==> {
                let e = #[trigger] channel_of(meta, items).items[k];
                &&& e.title == items[k].title
                &&& e.link == items[k].link
                &&& e.description == items[k].description
                &&& e.author == items[k].author
                &&& e.categories == items[k].categories
                &&& e.categories.len() == items[k].categories.len()
                &&& (e.pub_date is Some <==> items[k].pub_date is Some)
                &&& e.guid_is_permalink
            },
{
}

impl FeedItem {
    /// The item's date, if any, can be written in RFC 2822.
    pub open spec fn wf(&self) -> bool {
        publishable(self.pub_date)
    }
}

/// All items can be rendered.
pub open spec fn all_wf(items: Seq<FeedItem>) -> bool {
    forall|i: int| 0 <= i < items.len() ==> (#[trigger] items[i]).wf()
}

// ------------------------------------------------------------------------
// What goes to the `rss` crate
// ------------------------------------------------------------------------

/// One `<item>` as the `rss` crate writes it. Title, link and description
/// are always present.
pub struct RssEntry {
    pub title: String,
    pub link: String,
    pub description: String,
    pub author: Option<String>,
    pub pub_date: Option<String>,
    pub guid: String,
    pub guid_is_permalink: bool,
    pub categories: Vec<String>,
}

/// One `<channel>` as the `rss` crate writes it.
pub struct RssChannel {
    pub title: String,
    pub link: String,
    pub description: String,
    pub language: Option<String>,
    pub items: Vec<RssEntry>,
}

/// `RssEntry` seen through the views of its fields.
pub struct RssEntryView {
    pub title: Seq<char>,
    pub link: Seq<char>,
    pub description: Seq<char>,
    pub author: Option<Seq<char>>,
    pub pub_date: Option<Seq<char>>,
    pub guid: Seq<char>,
    pub guid_is_permalink: bool,
    pub categories: Seq<Seq<char>>,
}

/// `RssChannel` seen through the views of its fields.
pub struct RssChannelView {
    pub title: Seq<char>,
    pub link: Seq<char>,
    pub description: Seq<char>,
    pub language: Option<Seq<char>>,
    pub items: Seq<RssEntryView>,
}

impl View for RssEntry {
    type V = RssEntryView;

    open spec fn view(&self) -> RssEntryView {
        RssEntryView {
            title: self.title@,
            link: self.link@,
            description: self.description@,
            author: opt_view(self.author),
            pub_date: opt_view(self.pub_date),
            guid: self.guid@,
            guid_is_permalink: self.guid_is_permalink,
            categories: views(self.categories@),
        }
    }
}

impl View for RssChannel {
    type V = RssChannelView;

    open spec fn view(&self) -> RssChannelView {
        RssChannelView {
            title: self.title@,
            link: self.link@,
            description: self.description@,
            language: opt_view(self.language),
            items: self.items@.map_values(|e: RssEntry| e@),
        }
    }
}

/// The XML text that `rss::Channel`'s `Display` writes for a channel with
/// these fields set and every other field at its default.
pub uninterp spec fn rss_xml(channel: RssChannelView) -> Seq<char>;

/// Builds an `rss::Channel` (with `rss::Item`, `rss::Guid` and
/// `rss::Category` values) from the fields of `channel`, leaving every other
/// field at its default, and writes it with `to_string`. Claimed: the text
/// depends on those fields alone. `Display` for `Channel` never fails: it
/// writes into a vector and falls back to an empty text.
#[verifier::external_body]
fn render_channel(channel: RssChannel) -> (xml: String)
    ensures
        xml@ == rss_xml(channel@),
{
    let items = channel.items.into_iter().map(|e| rss::Item {
        title: Some(e.title), link: Some(e.link), description: Some(e.description),
        author: e.author, pub_date: e.pub_date,
        guid: Some(rss::Guid { value: e.guid, permalink: e.guid_is_permalink }),
        categories: e.categories.into_iter().map(|name| rss::Category { name, domain: None })
            .collect(),
        ..Default::default()
    }).collect();
    rss::Channel { title: channel.title, link: channel.link, description: channel.description,
        language: channel.language, items, ..Default::default() }.to_string()
}

// ------------------------------------------------------------------------
// From feed items to RSS entries
// ------------------------------------------------------------------------

/// The `<item>` written for a feed item: its guid is the item's guid, or its
/// link when it has none, and is marked as a permalink; its date is written
/// in RFC 2822.
pub open spec fn entry_of(item: FeedItemView) -> RssEntryView {
    RssEntryView {
        title: item.title,
        link: item.link,
        description: item.description,
        author: item.author,
        pub_date: match item.pub_date {
            Some(t) => Some(rfc2822_text(t)),
            None => None,
        },
        guid: match item.guid {
            Some(g) => g,
            None => item.link,
        },
        guid_is_permalink: true,
        categories: item.categories,
    }
}

/// The `<channel>` written for a feed.
pub open spec fn channel_of(meta: FeedMetaView, items: Seq<FeedItemView>) -> RssChannelView {
    RssChannelView {
        title: meta.title,
        link: meta.link,
        description: meta.description,
        language: meta.language,
        items: items.map_values(|i: FeedItemView| entry_of(i)),
    }
}

/// The RSS document of a feed.
pub open spec fn feed_xml(meta: FeedMetaView, items: Seq<FeedItemView>) -> Seq<char> {
    rss_xml(channel_of(meta, items))
}

/// A copy of an optional string.
pub(crate) fn copy_opt(o: &Option<String>) -> (r: Option<String>)
    ensures
        opt_view(r) == opt_view(*o),
{
    match o {
        Some(s) => Some(s.clone()),
        None => None,
    }
}

fn copy_strings(v: &Vec<String>) -> (r: Vec<String>)
    ensures
        views(r@) == views(v@),
{
    let mut r: Vec<String> = Vec::new();
    let mut i: usize = 0;
    while i < v.len()
        invariant
            i <= v.len(),
            r@.len() == i,
            forall|j: int| 0 <= j < i ==> #[trigger] r@[j]@ == v@[j]@,
        decreases v.len() - i,
    {
        r.push(v[i].clone());
        i = i + 1;
    }
    assert(views(r@) =~= views(v@));
    r
}

/// The RSS entry of one feed item.
pub fn rss_entry(item: &FeedItem) -> (e: RssEntry)
    requires
        item.wf(),
    ensures
        e@ == entry_of(item@),
        e@.title == item@.title,
        e@.link == item@.link,
        e@.description == item@.description,
        e@.author == item@.author,
        e@.categories == item@.categories,
        e@.pub_date is Some <==> item.pub_date is Some,
{
    let pub_date = match item.pub_date {
        Some(t) => Some(rfc2822(t)),
        None => None,
    };
    let guid = match &item.guid {
        Some(g) => g.clone(),
        None => item.link.clone(),
    };
    RssEntry {
        title: item.title.clone(),
        link: item.link.clone(),
        description: item.description.clone(),
        author: copy_opt(&item.author),
        pub_date,
        guid,
        guid_is_permalink: true,
        categories: copy_strings(&item.categories),
    }
}

/// Renders a feed as an RSS 2.0 document: one `<item>` per feed item, in
/// order, under a `<channel>` with the feed's title, link, description and
/// language.
pub fn build_rss(meta: FeedMeta, items: Vec<FeedItem>) -> (xml: String)
    requires
        all_wf(items@),
    ensures
        xml@ == feed_xml(meta@, item_views(items@)),
{
    let mut entries: Vec<RssEntry> = Vec::new();
    let mut i: usize = 0;
    while i < items.len()
        invariant
            i <= items.len(),
            all_wf(items@),
            entries@.len() == i,
            forall|j: int| 0 <= j < i ==> #[trigger] entries@[j]@ == entry_of(items@[j]@),
        decreases items.len() - i,
    {
        let e = rss_entry(&items[i]);
        entries.push(e);
        i = i + 1;
    }
    assert(entries@.map_values(|e: RssEntry| e@) =~= item_views(items@).map_values(
        |i: FeedItemView| entry_of(i),
    ));
    let channel = RssChannel {
        title: meta.title,
        link: meta.link,
        description: meta.description,
        language: meta.language,
        items: entries,
    };
    assert(channel@ == channel_of(meta@, item_views(items@)));
    render_channel(channel)
}

} // verus!
