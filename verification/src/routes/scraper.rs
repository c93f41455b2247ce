//! A feed from any page, with items found by CSS selectors given in the
//! query.
use vstd::prelude::*;
use crate::error::FeedError;
use crate::feeds::{
    all_wf, build_rss, feed_xml, item_views, opt_item_view, opt_view, present, FeedItem,
    FeedItemView, FeedMeta, FeedMetaView,
};
use crate::html::{
    css_select, css_select_within, css_selector_valid, info_lists, info_tables, infos,
    select_all, select_within, selector_valid, ElementInfo, ElementInfoView,
};
use crate::text::{cat, cat3, has_prefix, owned, starts_with, trim, trim_str, views};

verus! {

/// The query of the scraper route.
///
/// * `url`: page to scrape (required);
/// * `item`: selector of each item (required);
/// * `title`: selector of the title within an item (required);
/// * `link`: selector of the link within an item (otherwise the title's
///   `href`);
/// * `desc`: selector of the description within an item;
/// * `author`: selector of the author within an item;
/// * `feed_title`: title of the feed (otherwise the page's `<title>`).
pub struct ScrapeParams {
    pub url: String,
    pub item: String,
    pub title: String,
    pub link: Option<String>,
    pub desc: Option<String>,
    pub author: Option<String>,
    pub feed_title: Option<String>,
}

/// `ScrapeParams` seen through the views of its fields.
pub struct ScrapeParamsView {
    pub url: Seq<char>,
    pub item: Seq<char>,
    pub title: Seq<char>,
    pub link: Option<Seq<char>>,
    pub desc: Option<Seq<char>>,
    pub author: Option<Seq<char>>,
    pub feed_title: Option<Seq<char>>,
}

impl View for ScrapeParams {
    type V = ScrapeParamsView;

    open spec fn view(&self) -> ScrapeParamsView {
        ScrapeParamsView {
            url: self.url@,
            item: self.item@,
            title: self.title@,
            link: opt_view(self.link),
            desc: opt_view(self.desc),
            author: opt_view(self.author),
            feed_title: opt_view(self.feed_title),
        }
    }
}

/// `href` as an absolute address: kept when it starts with `http://` or
/// `https://`, appended to `base` when it starts with `/`, appended to
/// `base` after a `/` otherwise.
pub open spec fn resolve_url_spec(href: Seq<char>, base: Seq<char>) -> Seq<char> {
    if starts_with(href, "http://"@) || starts_with(href, "https://"@) {
        href
    } else if starts_with(href, "/"@) {
        base + href
    } else {
        base + "/"@ + href
    }
}

/// A link that is not absolute lands on the site: its address starts with
/// `base`. An absolute one is kept as it is.
pub proof fn lemma_resolved_on_site(href: Seq<char>, base: Seq<char>)
    ensures
        starts_with(href, "http://"@) || starts_with(href, "https://"@) ==> resolve_url_spec(
            href,
            base,
        ) == href,
        !(starts_with(href, "http://"@) || starts_with(href, "https://"@)) ==> starts_with(
            resolve_url_spec(href, base),
            base,
        ),
{
    if !(starts_with(href, "http://"@) || starts_with(href, "https://"@)) {
        assert(resolve_url_spec(href, base).subrange(0, base.len() as int) =~= base);
    }
}

/// `href` as an absolute address on the site `base`.
pub fn resolve_url(href: &str, base: &str) -> (r: String)
    ensures
        r@ == resolve_url_spec(href@, base@),
{
    if has_prefix(href, "http://") || has_prefix(href, "https://") {
        owned(href)
    } else if has_prefix(href, "/") {
        cat(base, href)
    } else {
        cat3(base, "/", href)
    }
}

/// What `url::Url::parse(input)` gives: the scheme and the host, if any,
/// or the parser's message.
pub uninterp spec fn url_parsed(input: Seq<char>) -> Result<(Seq<char>, Option<Seq<char>>), Seq<char>>;

/// The view of a parsed address.
pub open spec fn url_parts_view(r: Result<(String, Option<String>), String>) -> Result<
    (Seq<char>, Option<Seq<char>>),
    Seq<char>,
> {
    match r {
        Ok((s, h)) => Ok((s@, opt_view(h))),
        Err(m) => Err(m@),
    }
}

/// Calls `url::Url::parse` and reads `Url::scheme` and `Url::host_str` of
/// the result, or the `Display` text of the `ParseError`. Claimed: the
/// result depends on `input` alone.
#[verifier::external_body]
pub(crate) fn parse_url(input: &str) -> (r: Result<(String, Option<String>), String>)
    ensures
        url_parts_view(r) == url_parsed(input@),
{
    match url::Url::parse(input) {
        Ok(u) => Ok((u.scheme().to_string(), u.host_str().map(String::from))),
        Err(e) => Err(e.to_string()),
    }
}

/// The site of a parsed address: `scheme://host`, with an empty host when
/// it has none.
pub open spec fn base_url_spec(scheme: Seq<char>, host: Option<Seq<char>>) -> Seq<char> {
    scheme + "://"@ + match host {
        Some(h) => h,
        None => Seq::empty(),
    }
}

/// A selector, or nothing.
pub open spec fn opt_seq(o: Option<Seq<char>>) -> Seq<Seq<char>> {
    match o {
        Some(s) => seq![s],
        None => seq![],
    }
}

/// The selectors read inside an item, in this order: title, then link,
/// description and author when given.
pub open spec fn scrape_fields(p: ScrapeParamsView) -> Seq<Seq<char>> {
    seq![p.title] + opt_seq(p.link) + opt_seq(p.desc) + opt_seq(p.author)
}

/// The position of the description selector among `scrape_fields(p)`.
pub open spec fn desc_at(p: ScrapeParamsView) -> int {
    1 + opt_seq(p.link).len() as int
}

/// The position of the author selector among `scrape_fields(p)`.
pub open spec fn author_at(p: ScrapeParamsView) -> int {
    desc_at(p) + opt_seq(p.desc).len() as int
}

/// The selectors read inside an item stand where the item is read from:
/// the title first, then the link when given, the description at
/// `desc_at(p)` and the author at `author_at(p)` when given, nothing else.
pub proof fn lemma_scrape_field_positions(p: ScrapeParamsView)
    ensures
        scrape_fields(p)[0] == p.title,
        p.link matches Some(l) ==> scrape_fields(p)[1] == l,
        p.desc matches Some(d) ==> scrape_fields(p)[desc_at(p)] == d,
        p.author matches Some(a) ==> scrape_fields(p)[author_at(p)] == a,
        scrape_fields(p).len() == author_at(p) + opt_seq(p.author).len(),
{
}

/// The feed item of one element matched by the item selector, from the
/// matches of `scrape_fields(p)` inside it: none when it has no title or an
/// empty one. Its link is the `href` of the first link match, resolved on
/// `base` (empty when there is none), or without a link selector the title's
/// `href`, resolved, or else the page address.
pub open spec fn scrape_item_spec(
    p: ScrapeParamsView,
    base: Seq<char>,
    row: Seq<Seq<ElementInfoView>>,
) -> Option<FeedItemView> {
    if row[0].len() == 0 || trim(row[0][0].text).len() == 0 {
        None
    } else {
        let t = row[0][0];
        let link = match p.link {
            Some(_) => if row[1].len() > 0 && row[1][0].attr is Some {
                resolve_url_spec(row[1][0].attr->0, base)
            } else {
                Seq::empty()
            },
            None => match t.attr {
                Some(h) => resolve_url_spec(h, base),
                None => p.url,
            },
        };
        let description = if p.desc is Some && row[desc_at(p)].len() > 0 {
            trim(row[desc_at(p)][0].text)
        } else {
            Seq::empty()
        };
        let author = if p.author is Some && row[author_at(p)].len() > 0 {
            Some(trim(row[author_at(p)][0].text))
        } else {
            None
        };
        Some(
            FeedItemView {
                title: trim(t.text),
                link,
                description,
                author,
                pub_date: None,
                guid: Some(link),
                categories: seq![],
            },
        )
    }
}

/// Whether an address is absolute (`http://` or `https://`).
pub open spec fn is_absolute(href: Seq<char>) -> bool {
    starts_with(href, "http://"@) || starts_with(href, "https://"@)
}

/// An item's link is the `href` of its link match (with a link selector) or
/// of its title (without one), resolved on the site `base`: an absolute
/// `href` is kept, one starting with `/` is appended to `base`, and any
/// relative one gives a link on the site. The link is also the guid.
pub proof fn lemma_scraped_link_resolved(
    p: ScrapeParamsView,
    base: Seq<char>,
    row: Seq<Seq<ElementInfoView>>,
    href: Seq<char>,
)
    requires
        scrape_item_spec(p, base, row) is Some,
        (p.link is Some && row[1].len() > 0 && row[1][0].attr == Some(href)) || (p.link is None
            && row[0][0].attr == Some(href)),
    ensures
        ({
            let it = scrape_item_spec(p, base, row)->0;
            &&& it.link == resolve_url_spec(href, base)
            &&& it.guid == Some(it.link)
            &&& is_absolute(href) ==> it.link == href
            &&& !is_absolute(href) ==> starts_with(it.link, base)
            &&& !is_absolute(href) && starts_with(href, "/"@) ==> it.link == base + href
        }),
{
    lemma_resolved_on_site(href, base);
}

/// The feed items of a page, in page order.
pub open spec fn scrape_items(p: ScrapeParamsView, base: Seq<char>, html: Seq<char>) -> Seq<
    FeedItemView,
> {
    present(
        css_select_within(html, p.item, scrape_fields(p), "href"@).map_values(
            |row: Seq<Seq<ElementInfoView>>| scrape_item_spec(p, base, row),
        ),
    )
}

/// Whether an item's first title match has text other than whitespace.
pub open spec fn row_titled(row: Seq<Seq<ElementInfoView>>) -> bool {
    row[0].len() > 0 && trim(row[0][0].text).len() > 0
}

/// The rows whose title is there and not blank, in page order.
pub open spec fn titled_rows(rows: Seq<Seq<Seq<ElementInfoView>>>) -> Seq<Seq<Seq<ElementInfoView>>>
    decreases rows.len(),
{
    if rows.len() == 0 {
        seq![]
    } else {
        let r = titled_rows(rows.drop_last());
        if row_titled(rows.last()) {
            r.push(rows.last())
        } else {
            r
        }
    }
}

proof fn lemma_present_titled_rows(
    p: ScrapeParamsView,
    base: Seq<char>,
    rows: Seq<Seq<Seq<ElementInfoView>>>,
    m: Seq<Option<FeedItemView>>,
)
    requires
        m.len() == rows.len(),
        forall|j: int| 0 <= j < rows.len() ==> #[trigger] m[j] == scrape_item_spec(p, base, rows[j]),
    ensures
        present(m).len() == titled_rows(rows).len(),
        forall|k: int|
            0 <= k < titled_rows(rows).len() ==> Some(#[trigger] present(m)[k]) == scrape_item_spec(
                p,
                base,
                titled_rows(rows)[k],
            ),
        forall|k: int| 0 <= k < titled_rows(rows).len() ==> row_titled(#[trigger] titled_rows(rows)[k]),
    decreases rows.len(),
{
    if rows.len() > 0 {
        let d = rows.drop_last();
        assert forall|j: int| 0 <= j < d.len() implies #[trigger] m.drop_last()[j]
            == scrape_item_spec(p, base, d[j]) by {
            assert(m[j] == scrape_item_spec(p, base, rows[j]));
        }
        lemma_present_titled_rows(p, base, d, m.drop_last());
        assert(m.last() == scrape_item_spec(p, base, rows.last()));
    }
}

/// A scraped page has one item per element matched by the item selector
/// whose title is there and not blank, none left out, in page order: the
/// `k`-th item is titled with the trimmed text of the `k`-th such element's
/// title.
pub proof fn lemma_scrape_one_item_per_titled_row(p: ScrapeParamsView, base: Seq<char>, html: Seq<char>)
    ensures
        scrape_items(p, base, html).len() == titled_rows(
            css_select_within(html, p.item, scrape_fields(p), "href"@),
        ).len(),
        forall|k: int|
            0 <= k < scrape_items(p, base, html).len() ==> (#[trigger] scrape_items(p, base, html)[k]).title
                == trim(titled_rows(css_select_within(html, p.item, scrape_fields(p), "href"@))[k][0][0].text),
{
    let rows = css_select_within(html, p.item, scrape_fields(p), "href"@);
    let m = rows.map_values(|row: Seq<Seq<ElementInfoView>>| scrape_item_spec(p, base, row));
    lemma_present_titled_rows(p, base, rows, m);
    assert forall|k: int| 0 <= k < scrape_items(p, base, html).len() implies (
    #[trigger] scrape_items(p, base, html)[k]).title == trim(titled_rows(rows)[k][0][0].text) by {
        assert(Some(scrape_items(p, base, html)[k]) == scrape_item_spec(p, base, titled_rows(rows)[k]));
    }
}

/// Every scraped item has a title that is neither empty nor surrounded by
/// whitespace, no date, no category, and its link as its guid.
pub proof fn lemma_scraped_items_titled(p: ScrapeParamsView, base: Seq<char>, html: Seq<char>)
    ensures
        forall|k: int|
            0 <= k < scrape_items(p, base, html).len() ==> {
                let it = #[trigger] scrape_items(p, base, html)[k];
                &&& it.title.len() > 0
                &&& crate::text::is_trimmed(it.title)
                &&& it.guid == Some(it.link)
                &&& it.pub_date is None
                &&& it.categories.len() == 0
            },
{
    let rows = css_select_within(html, p.item, scrape_fields(p), "href"@);
    let mapped = rows.map_values(|row: Seq<Seq<ElementInfoView>>| scrape_item_spec(p, base, row));
    crate::feeds::lemma_present_bounded(mapped);
    assert forall|k: int| 0 <= k < scrape_items(p, base, html).len() implies {
        let it = #[trigger] scrape_items(p, base, html)[k];
        &&& it.title.len() > 0
        &&& crate::text::is_trimmed(it.title)
        &&& it.guid == Some(it.link)
        &&& it.pub_date is None
        &&& it.categories.len() == 0
    } by {
        let it = scrape_items(p, base, html)[k];
        let j = choose|j: int| 0 <= j < mapped.len() && mapped[j] == Some(it);
        assert(mapped[j] == scrape_item_spec(p, base, rows[j]));
        crate::text::lemma_trim_is_trimmed(rows[j][0][0].text);
    }
}

/// The title of the feed: the one asked for, or the trimmed text of the
/// page's first `<title>`, or the page address.
pub open spec fn page_title_spec(p: ScrapeParamsView, html: Seq<char>) -> Seq<char> {
    match p.feed_title {
        Some(t) => t,
        None => {
            let titles = css_select(html, "title"@, "href"@);
            if titles.len() > 0 {
                trim(titles[0].text)
            } else {
                p.url
            }
        },
    }
}

/// The channel data of a scraped page.
pub open spec fn scrape_meta_spec(p: ScrapeParamsView, title: Seq<char>) -> FeedMetaView {
    FeedMetaView {
        title,
        link: p.url,
        description: "Scraped RSS via RSS Forge from "@ + p.url,
        language: None,
    }
}

/// Every selector given in the query parses.
pub open spec fn query_selectors_valid(p: ScrapeParamsView) -> bool {
    &&& css_selector_valid(p.item)
    &&& css_selector_valid(p.title)
    &&& (p.link matches Some(l) ==> css_selector_valid(l))
    &&& (p.desc matches Some(d) ==> css_selector_valid(d))
    &&& (p.author matches Some(a) ==> css_selector_valid(a))
}

/// The RSS document of a page whose query and address are valid.
pub open spec fn scrape_xml(p: ScrapeParamsView, html: Seq<char>) -> Seq<char> {
    let (scheme, host) = url_parsed(p.url)->Ok_0;
    feed_xml(
        scrape_meta_spec(p, page_title_spec(p, html)),
        scrape_items(p, base_url_spec(scheme, host), html),
    )
}

/// The feed item of one element matched by the item selector.
pub fn scrape_item(p: &ScrapeParams, base: &str, row: &Vec<Vec<ElementInfo>>) -> (r: Option<
    FeedItem,
>)
    requires
        row.len() == scrape_fields(p@).len(),
    ensures
        opt_item_view(r) == scrape_item_spec(p@, base@, info_lists(row@)),
        r matches Some(i) ==> i.wf(),
{
    let ghost v = info_lists(row@);
    let di: usize = if p.link.is_some() {
        2
    } else {
        1
    };
    let ai: usize = if p.desc.is_some() {
        di + 1
    } else {
        di
    };
    assert(di == desc_at(p@));
    assert(ai == author_at(p@));
    if row[0].len() == 0 {
        return None;
    }
    assert(v[0] == infos(row@[0]@));
    let t = &row[0][0];
    let title = trim_str(t.text.as_str());
    if title.as_str().is_empty() {
        return None;
    }
    let link = match &p.link {
        Some(_) => {
            assert(v[1] == infos(row@[1]@));
            if row[1].len() > 0 && row[1][0].attr.is_some() {
                match &row[1][0].attr {
                    Some(h) => resolve_url(h.as_str(), base),
                    None => String::new(),
                }
            } else {
                String::new()
            }
        },
        None => match &t.attr {
            Some(h) => resolve_url(h.as_str(), base),
            None => p.url.clone(),
        },
    };
    let description = if p.desc.is_some() && row[di].len() > 0 {
        assert(v[di as int] == infos(row@[di as int]@));
        trim_str(row[di][0].text.as_str())
    } else {
        String::new()
    };
    let author = if p.author.is_some() && row[ai].len() > 0 {
        assert(v[ai as int] == infos(row@[ai as int]@));
        Some(trim_str(row[ai][0].text.as_str()))
    } else {
        None
    };
    let categories: Vec<String> = Vec::new();
    assert(views(categories@) =~= Seq::<Seq<char>>::empty());
    Some(
        FeedItem {
            title,
            link: link.clone(),
            description,
            author,
            pub_date: None,
            guid: Some(link),
            categories,
        },
    )
}

/// The feed of the page `html` fetched from `p.url`. Fails, in this order
/// of checks, when the item, title, link, description or author selector
/// does not parse, when the page address does not parse, or when the
/// `title` selector does not parse and the query gives no feed title.
pub fn scrape_feed(p: &ScrapeParams, html: &str) -> (r: Result<String, FeedError>)
    ensures
        !css_selector_valid(p.item@) ==> (r matches Err(FeedError::InvalidItemSelector(s))
            && s@ == p.item@),
        css_selector_valid(p.item@) && !css_selector_valid(p.title@) ==> (r matches Err(
            FeedError::InvalidTitleSelector(s),
        ) && s@ == p.title@),
        css_selector_valid(p.item@) && css_selector_valid(p.title@) && (p@.link matches Some(l)
            && !css_selector_valid(l)) ==> r matches Err(FeedError::InvalidLinkSelector),
        css_selector_valid(p.item@) && css_selector_valid(p.title@) && (p@.link matches Some(l)
            ==> css_selector_valid(l)) && (p@.desc matches Some(d) && !css_selector_valid(d))
            ==> r matches Err(FeedError::InvalidDescSelector),
        css_selector_valid(p.item@) && css_selector_valid(p.title@) && (p@.link matches Some(l)
            ==> css_selector_valid(l)) && (p@.desc matches Some(d) ==> css_selector_valid(d)) && (
        p@.author matches Some(a) && !css_selector_valid(a)) ==> r matches Err(
            FeedError::InvalidAuthorSelector,
        ),
        query_selectors_valid(p@) && url_parsed(p.url@) is Err ==> (r matches Err(
            FeedError::InvalidUrl(m),
        ) && m@ == url_parsed(p.url@)->Err_0),
        query_selectors_valid(p@) && url_parsed(p.url@) is Ok && p.feed_title is None
            && !css_selector_valid("title"@) ==> (r matches Err(FeedError::FixedSelector(s))
            && s@ == "title"@),
        query_selectors_valid(p@) && url_parsed(p.url@) is Ok && (p.feed_title is None
            ==> css_selector_valid("title"@)) <==> r is Ok,
        r matches Ok(xml) ==> xml@ == scrape_xml(p@, html@),
{
    if !selector_valid(p.item.as_str()) {
        return Err(FeedError::InvalidItemSelector(p.item.clone()));
    }
    if !selector_valid(p.title.as_str()) {
        return Err(FeedError::InvalidTitleSelector(p.title.clone()));
    }
    let mut fields: Vec<String> = Vec::new();
    fields.push(p.title.clone());
    match &p.link {
        Some(l) => {
            if !selector_valid(l.as_str()) {
                return Err(FeedError::InvalidLinkSelector);
            }
            fields.push(l.clone());
        },
        None => {},
    }
    match &p.desc {
        Some(d) => {
            if !selector_valid(d.as_str()) {
                return Err(FeedError::InvalidDescSelector);
            }
            fields.push(d.clone());
        },
        None => {},
    }
    match &p.author {
        Some(a) => {
            if !selector_valid(a.as_str()) {
                return Err(FeedError::InvalidAuthorSelector);
            }
            fields.push(a.clone());
        },
        None => {},
    }
    assert(views(fields@) =~= scrape_fields(p@));
    let base = match parse_url(p.url.as_str()) {
        Ok((scheme, host)) => {
            let mut b = cat(scheme.as_str(), "://");
            match &host {
                Some(h) => crate::text::push_str(&mut b, h.as_str()),
                None => {},
            }
            proof {
                if host is None {
                    assert(b@ =~= base_url_spec(scheme@, opt_view(host)));
                }
            }
            b
        },
        Err(m) => {
            return Err(FeedError::InvalidUrl(m));
        },
    };
    assert forall|i: int| 0 <= i < fields@.len() implies css_selector_valid(#[trigger] fields@[i]@) by {
        assert(views(fields@)[i] == fields@[i]@);
    }
    let rows = select_within(html, p.item.as_str(), &fields, "href");
    let ghost table = info_tables(rows@);
    let ghost pv = p@;
    let ghost mapped = table.map_values(
        |row: Seq<Seq<ElementInfoView>>| scrape_item_spec(pv, base@, row),
    );
    let mut items: Vec<FeedItem> = Vec::new();
    let mut i: usize = 0;
    while i < rows.len()
        invariant
            i <= rows.len(),
            pv == p@,
            table == info_tables(rows@),
            mapped == table.map_values(
                |row: Seq<Seq<ElementInfoView>>| scrape_item_spec(pv, base@, row),
            ),
            forall|j: int| 0 <= j < rows.len() ==> (#[trigger] rows@[j]).len() == fields.len(),
            fields.len() == scrape_fields(p@).len(),
            all_wf(items@),
            item_views(items@) == present(mapped.take(i as int)),
        decreases rows.len() - i,
    {
        assert(mapped.take(i + 1).drop_last() =~= mapped.take(i as int));
        assert(table[i as int] == info_lists(rows@[i as int]@));
        match scrape_item(p, base.as_str(), &rows[i]) {
            Some(item) => {
                items.push(item);
                assert(item_views(items@) =~= present(mapped.take(i + 1)));
            },
            None => {},
        }
        i = i + 1;
    }
    assert(mapped.take(rows.len() as int) =~= mapped);
    let page_title = match &p.feed_title {
        Some(t) => t.clone(),
        None => {
            if !selector_valid("title") {
                return Err(FeedError::FixedSelector(owned("title")));
            }
            let titles = select_all(html, "title", "href");
            if titles.len() > 0 {
                assert(infos(titles@)[0] == titles@[0]@);
                trim_str(titles[0].text.as_str())
            } else {
                p.url.clone()
            }
        },
    };
    let meta = FeedMeta {
        title: page_title,
        link: p.url.clone(),
        description: cat("Scraped RSS via RSS Forge from ", p.url.as_str()),
        language: None,
    };
    Ok(build_rss(meta, items))
}

} // verus!
