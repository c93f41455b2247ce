//! The GitHub trending page as a feed: one item per listed repository.
use vstd::prelude::*;
use crate::error::FeedError;
use crate::feeds::{
    all_wf, build_rss, feed_xml, item_views, opt_item_view, opt_view, present, FeedItem,
    FeedItemView, FeedMeta, FeedMetaView,
};
use crate::html::{
    css_select_within, css_selector_valid, info_lists, info_tables, infos, select_within,
    selector_valid, ElementInfo, ElementInfoView,
};
use crate::text::{
    cat, join, join_strings, owned, remove_char, split_words, trim, trim_str, views, without_char,
    words,
};

verus! {

/// The view of an optional borrowed string.
pub open spec fn opt_str_view(o: Option<&str>) -> Option<Seq<char>> {
    match o {
        Some(s) => Some(s@),
        None => None,
    }
}

/// The trending page, for all languages or for one.
pub open spec fn trending_url_spec(lang: Option<Seq<char>>) -> Seq<char> {
    match lang {
        Some(l) => "https://github.com/trending/"@ + l,
        None => "https://github.com/trending"@,
    }
}

/// The address of the trending page, for all languages or for one.
pub fn trending_url(lang: Option<&str>) -> (r: String)
    ensures
        r@ == trending_url_spec(opt_str_view(lang)),
{
    match lang {
        Some(l) => cat("https://github.com/trending/", l),
        None => owned("https://github.com/trending"),
    }
}

/// The selector of one repository on the page.
pub open spec fn repo_selector() -> Seq<char> {
    "article.Box-row"@
}

/// The selectors read inside a repository, in this order: its name link,
/// its description, its language, its star counts, its stars of today.
pub open spec fn repo_fields() -> Seq<Seq<char>> {
    seq![
        "h2.h3 a"@,
        "p.col-9"@,
        "span[itemprop='programmingLanguage']"@,
        "a.Link--muted"@,
        "span.d-inline-block.float-sm-right"@,
    ]
}

/// Every selector of the page parses.
pub open spec fn trending_selectors_valid() -> bool {
    &&& css_selector_valid(repo_selector())
    &&& forall|i: int| 0 <= i < repo_fields().len() ==> css_selector_valid(#[trigger] repo_fields()[i])
}

/// The trimmed text of the first match, if there is one.
pub open spec fn first_text(m: Seq<ElementInfoView>) -> Option<Seq<char>> {
    if m.len() > 0 {
        Some(trim(m[0].text))
    } else {
        None
    }
}

/// The repository name shown in the feed: the link text trimmed, its line
/// breaks removed, and its words joined with `/`.
pub open spec fn repo_name(text: Seq<char>) -> Seq<char> {
    join(words(without_char(trim(text), '\n')), "/"@)
}

/// A repository name shown in the feed holds no whitespace.
pub proof fn lemma_repo_name_no_whitespace(text: Seq<char>)
    ensures
        forall|k: int| 0 <= k < repo_name(text).len() ==> !crate::text::is_ws(
            #[trigger] repo_name(text)[k],
        ),
{
    let w = words(without_char(trim(text), '\n'));
    crate::text::lemma_words_no_ws(without_char(trim(text), '\n'));
    reveal_strlit("/");
    crate::text::lemma_join_no_ws(w, "/"@);
}

/// The pieces of a repository's description: the description, then its
/// language, its first star count and its stars of today when present.
pub open spec fn trending_parts(
    description: Seq<char>,
    language: Option<Seq<char>>,
    stars: Seq<ElementInfoView>,
    stars_today: Seq<char>,
) -> Seq<Seq<char>> {
    let p0 = seq![description];
    let p1 = match language {
        Some(l) => p0.push("Language: "@ + l),
        None => p0,
    };
    let p2 = if stars.len() > 0 {
        p1.push("Stars: "@ + trim(trim(stars[0].text)))
    } else {
        p1
    };
    if stars_today.len() > 0 {
        p2.push("Stars today: "@ + stars_today)
    } else {
        p2
    }
}

/// The description of a repository comes first; then, each when present,
/// its language, its first star count (trimmed) and its stars of today, in
/// this order and nothing else.
pub proof fn lemma_trending_parts_layout(
    description: Seq<char>,
    language: Option<Seq<char>>,
    stars: Seq<ElementInfoView>,
    stars_today: Seq<char>,
)
    ensures
        ({
            let parts = trending_parts(description, language, stars, stars_today);
            let l: int = if language is Some { 1 } else { 0 };
            let s: int = if stars.len() > 0 { 1 } else { 0 };
            let t: int = if stars_today.len() > 0 { 1 } else { 0 };
            &&& parts.len() == 1 + l + s + t
            &&& parts[0] == description
            &&& language matches Some(lang) ==> parts[1] == "Language: "@ + lang
            &&& stars.len() > 0 ==> parts[1 + l] == "Stars: "@ + trim(stars[0].text)
            &&& stars_today.len() > 0 ==> parts[1 + l + s] == "Stars today: "@ + stars_today
        }),
{
    if stars.len() > 0 {
        crate::text::lemma_trim_idempotent(stars[0].text);
    }
}

/// The feed item of one repository, from the matches of `repo_fields()`
/// inside it; none when it has no name link.
pub open spec fn trending_item_spec(row: Seq<Seq<ElementInfoView>>) -> Option<FeedItemView> {
    if row[0].len() == 0 {
        None
    } else {
        let name = row[0][0];
        let href = match name.attr {
            Some(h) => h,
            None => Seq::empty(),
        };
        let link = "https://github.com"@ + href;
        let description = match first_text(row[1]) {
            Some(d) => d,
            None => Seq::empty(),
        };
        let language = first_text(row[2]);
        let stars_today = match first_text(row[4]) {
            Some(s) => s,
            None => Seq::empty(),
        };
        Some(
            FeedItemView {
                title: repo_name(name.text),
                link,
                description: join(
                    trending_parts(description, language, row[3], stars_today),
                    " | "@,
                ),
                author: None,
                pub_date: None,
                guid: Some(link),
                categories: match language {
                    Some(l) => seq![l],
                    None => seq![],
                },
            },
        )
    }
}

/// The feed items of a trending page.
pub open spec fn trending_items(html: Seq<char>) -> Seq<FeedItemView> {
    present(
        css_select_within(html, repo_selector(), repo_fields(), "href"@).map_values(
            |row: Seq<Seq<ElementInfoView>>| trending_item_spec(row),
        ),
    )
}

/// Every trending item links to a page of github.com, uses that link as its
/// guid, has a name without whitespace, and no author nor date.
pub proof fn lemma_trending_items_on_github(html: Seq<char>)
    ensures
        forall|k: int|
            0 <= k < trending_items(html).len() ==> {
                let it = #[trigger] trending_items(html)[k];
                &&& crate::text::starts_with(it.link, "https://github.com"@)
                &&& it.guid == Some(it.link)
                &&& it.author is None
                &&& it.pub_date is None
                &&& forall|c: int| 0 <= c < it.title.len() ==> !crate::text::is_ws(#[trigger] it.title[c])
            },
{
    let rows = css_select_within(html, repo_selector(), repo_fields(), "href"@);
    let mapped = rows.map_values(|row: Seq<Seq<ElementInfoView>>| trending_item_spec(row));
    crate::feeds::lemma_present_bounded(mapped);
    assert forall|k: int| 0 <= k < trending_items(html).len() implies {
        let it = #[trigger] trending_items(html)[k];
        &&& crate::text::starts_with(it.link, "https://github.com"@)
        &&& it.guid == Some(it.link)
        &&& it.author is None
        &&& it.pub_date is None
        &&& forall|c: int| 0 <= c < it.title.len() ==> !crate::text::is_ws(#[trigger] it.title[c])
    } by {
        let it = trending_items(html)[k];
        let j = choose|j: int| 0 <= j < mapped.len() && mapped[j] == Some(it);
        assert(mapped[j] == trending_item_spec(rows[j]));
        lemma_repo_name_no_whitespace(rows[j][0][0].text);
        assert(it.link.subrange(0, "https://github.com"@.len() as int) =~= "https://github.com"@);
    }
}

/// The repository rows of a trending page, each with the matches of
/// `repo_fields()` inside it, in page order.
pub open spec fn page_rows(html: Seq<char>) -> Seq<Seq<Seq<ElementInfoView>>> {
    css_select_within(html, repo_selector(), repo_fields(), "href"@)
}

/// The rows that have a name link, in page order.
pub open spec fn named_rows(rows: Seq<Seq<Seq<ElementInfoView>>>) -> Seq<Seq<Seq<ElementInfoView>>>
    decreases rows.len(),
{
    if rows.len() == 0 {
        seq![]
    } else {
        let r = named_rows(rows.drop_last());
        if rows.last()[0].len() > 0 {
            r.push(rows.last())
        } else {
            r
        }
    }
}

/// The address a repository row links to: github.com followed by the `href`
/// of its name link.
pub open spec fn row_link(row: Seq<Seq<ElementInfoView>>) -> Seq<char> {
    "https://github.com"@ + match row[0][0].attr {
        Some(h) => h,
        None => Seq::empty(),
    }
}

/// When every row has a name link, none is left out.
pub proof fn lemma_named_rows_all(rows: Seq<Seq<Seq<ElementInfoView>>>)
    requires
        forall|j: int| 0 <= j < rows.len() ==> (#[trigger] rows[j])[0].len() > 0,
    ensures
        named_rows(rows) == rows,
    decreases rows.len(),
{
    if rows.len() > 0 {
        lemma_named_rows_all(rows.drop_last());
        assert(rows.drop_last().push(rows.last()) =~= rows);
    }
}

proof fn lemma_present_named(rows: Seq<Seq<Seq<ElementInfoView>>>, m: Seq<Option<FeedItemView>>)
    requires
        m.len() == rows.len(),
        forall|j: int| 0 <= j < rows.len() ==> #[trigger] m[j] == trending_item_spec(rows[j]),
    ensures
        present(m).len() == named_rows(rows).len(),
        forall|k: int|
            0 <= k < named_rows(rows).len() ==> Some(#[trigger] present(m)[k])
                == trending_item_spec(named_rows(rows)[k]),
        forall|k: int| 0 <= k < named_rows(rows).len() ==> (#[trigger] named_rows(rows)[k])[0].len() > 0,
    decreases rows.len(),
{
    if rows.len() > 0 {
        let d = rows.drop_last();
        assert forall|j: int| 0 <= j < d.len() implies #[trigger] m.drop_last()[j]
            == trending_item_spec(d[j]) by {
            assert(m[j] == trending_item_spec(rows[j]));
        }
        lemma_present_named(d, m.drop_last());
        assert(m.last() == trending_item_spec(rows.last()));
    }
}

/// The trending feed has one item per repository row with a name link,
/// none left out, in page order: the item of the `k`-th such row links to
/// github.com followed by the row's `href`, uses that link as its guid, and
/// is titled with the row's repository name.
pub proof fn lemma_trending_one_item_per_named_row(html: Seq<char>)
    ensures
        trending_items(html).len() == named_rows(page_rows(html)).len(),
        forall|k: int|
            0 <= k < trending_items(html).len() ==> {
                let it = #[trigger] trending_items(html)[k];
                let row = named_rows(page_rows(html))[k];
                &&& row[0].len() > 0
                &&& it.link == row_link(row)
                &&& it.guid == Some(row_link(row))
                &&& it.title == repo_name(row[0][0].text)
            },
{
    let rows = page_rows(html);
    let m = rows.map_values(|row: Seq<Seq<ElementInfoView>>| trending_item_spec(row));
    lemma_present_named(rows, m);
    assert forall|k: int| 0 <= k < trending_items(html).len() implies {
        let it = #[trigger] trending_items(html)[k];
        let row = named_rows(page_rows(html))[k];
        &&& row[0].len() > 0
        &&& it.link == row_link(row)
        &&& it.guid == Some(row_link(row))
        &&& it.title == repo_name(row[0][0].text)
    } by {
        let row = named_rows(rows)[k];
        assert(Some(trending_items(html)[k]) == trending_item_spec(row));
    }
}

/// `" - lang"` for one language, nothing for all.
pub open spec fn lang_suffix(lang: Option<Seq<char>>) -> Seq<char> {
    match lang {
        Some(l) => " - "@ + l,
        None => Seq::empty(),
    }
}

/// The channel data of the trending feed.
pub open spec fn trending_meta_spec(lang: Option<Seq<char>>) -> FeedMetaView {
    FeedMetaView {
        title: "GitHub Trending"@ + lang_suffix(lang),
        link: trending_url_spec(lang),
        description: "GitHub trending repositories"@ + lang_suffix(lang),
        language: Some("en"@),
    }
}

fn first_text_of(list: &Vec<ElementInfo>) -> (r: Option<String>)
    ensures
        opt_view(r) == first_text(infos(list@)),
{
    if list.len() > 0 {
        Some(trim_str(list[0].text.as_str()))
    } else {
        None
    }
}

/// The repository name shown in the feed.
pub fn repo_name_of(text: &str) -> (r: String)
    ensures
        r@ == repo_name(text@),
{
    let t = trim_str(text);
    let flat = remove_char(t.as_str(), '\n');
    let parts = split_words(flat.as_str());
    join_strings(&parts, "/")
}

/// The feed item of one repository, from the matches of `repo_fields()`
/// inside it.
pub fn trending_item(row: &Vec<Vec<ElementInfo>>) -> (r: Option<FeedItem>)
    requires
        row.len() == 5,
    ensures
        opt_item_view(r) == trending_item_spec(info_lists(row@)),
        r matches Some(i) ==> i.wf(),
{
    let ghost v = info_lists(row@);
    assert(v[0] == infos(row@[0]@));
    assert(v[1] == infos(row@[1]@));
    assert(v[2] == infos(row@[2]@));
    assert(v[3] == infos(row@[3]@));
    assert(v[4] == infos(row@[4]@));
    if row[0].len() == 0 {
        return None;
    }
    let name = &row[0][0];
    let link = match &name.attr {
        Some(h) => cat("https://github.com", h.as_str()),
        None => owned("https://github.com"),
    };
    proof {
        if name.attr is None {
            assert("https://github.com"@ + Seq::<char>::empty() =~= "https://github.com"@);
        }
    }
    let description = match first_text_of(&row[1]) {
        Some(d) => d,
        None => String::new(),
    };
    let language = first_text_of(&row[2]);
    let stars_today = match first_text_of(&row[4]) {
        Some(s) => s,
        None => String::new(),
    };
    let mut parts: Vec<String> = Vec::new();
    parts.push(description);
    match &language {
        Some(l) => {
            parts.push(cat("Language: ", l.as_str()));
        },
        None => {},
    }
    if row[3].len() > 0 {
        let s = trim_str(row[3][0].text.as_str());
        let s2 = trim_str(s.as_str());
        parts.push(cat("Stars: ", s2.as_str()));
    }
    if !stars_today.as_str().is_empty() {
        parts.push(cat("Stars today: ", stars_today.as_str()));
    }
    assert(views(parts@) =~= trending_parts(
        description@,
        opt_view(language),
        v[3],
        stars_today@,
    ));
    let categories: Vec<String> = match &language {
        Some(l) => {
            let mut c: Vec<String> = Vec::new();
            c.push(l.clone());
            assert(views(c@) =~= seq![l@]);
            c
        },
        None => {
            let c: Vec<String> = Vec::new();
            assert(views(c@) =~= Seq::<Seq<char>>::empty());
            c
        },
    };
    let item = FeedItem {
        title: repo_name_of(name.text.as_str()),
        link: link.clone(),
        description: join_strings(&parts, " | "),
        author: None,
        pub_date: None,
        guid: Some(link),
        categories,
    };
    Some(item)
}

/// The channel data of the trending feed.
pub fn trending_meta(lang: Option<&str>) -> (m: FeedMeta)
    ensures
        m@ == trending_meta_spec(opt_str_view(lang)),
{
    let suffix = match lang {
        Some(l) => cat(" - ", l),
        None => String::new(),
    };
    FeedMeta {
        title: cat("GitHub Trending", suffix.as_str()),
        link: trending_url(lang),
        description: cat("GitHub trending repositories", suffix.as_str()),
        language: Some(owned("en")),
    }
}

/// The trending feed of the page `html`: one item per repository that has a
/// name link, in page order. Fails only when one of the page's fixed
/// selectors does not parse.
pub fn trending_feed(lang: Option<&str>, html: &str) -> (r: Result<String, FeedError>)
    ensures
        r is Err <==> !trending_selectors_valid(),
        r matches Err(e) ==> e is FixedSelector,
        r matches Ok(xml) ==> xml@ == feed_xml(
            trending_meta_spec(opt_str_view(lang)),
            trending_items(html@),
        ),
{
    let mut fields: Vec<String> = Vec::new();
    fields.push(owned("h2.h3 a"));
    fields.push(owned("p.col-9"));
    fields.push(owned("span[itemprop='programmingLanguage']"));
    fields.push(owned("a.Link--muted"));
    fields.push(owned("span.d-inline-block.float-sm-right"));
    assert(views(fields@) =~= repo_fields());
    if !selector_valid("article.Box-row") {
        return Err(FeedError::FixedSelector(owned("article.Box-row")));
    }
    let mut k: usize = 0;
    while k < fields.len()
        invariant
            k <= fields.len(),
            views(fields@) == repo_fields(),
            forall|i: int| 0 <= i < k ==> css_selector_valid(#[trigger] repo_fields()[i]),
        decreases fields.len() - k,
    {
        if !selector_valid(fields[k].as_str()) {
            assert(views(fields@)[k as int] == fields@[k as int]@);
            return Err(FeedError::FixedSelector(fields[k].clone()));
        }
        assert(views(fields@)[k as int] == fields@[k as int]@);
        k = k + 1;
    }
    assert forall|i: int| 0 <= i < fields@.len() implies css_selector_valid(#[trigger] fields@[i]@) by {
        assert(views(fields@)[i] == fields@[i]@);
    }
    let rows = select_within(html, "article.Box-row", &fields, "href");
    let ghost table = info_tables(rows@);
    let ghost mapped = table.map_values(
        |row: Seq<Seq<ElementInfoView>>| trending_item_spec(row),
    );
    let mut items: Vec<FeedItem> = Vec::new();
    let mut i: usize = 0;
    while i < rows.len()
        invariant
            i <= rows.len(),
            table == info_tables(rows@),
            mapped == table.map_values(|row: Seq<Seq<ElementInfoView>>| trending_item_spec(row)),
            forall|j: int| 0 <= j < rows.len() ==> (#[trigger] rows@[j]).len() == 5,
            all_wf(items@),
            item_views(items@) == present(mapped.take(i as int)),
        decreases rows.len() - i,
    {
        assert(mapped.take(i + 1).drop_last() =~= mapped.take(i as int));
        assert(table[i as int] == info_lists(rows@[i as int]@));
        let it = trending_item(&rows[i]);
        match it {
            Some(item) => {
                items.push(item);
                assert(item_views(items@) =~= present(mapped.take(i + 1)));
            },
            None => {},
        }
        i = i + 1;
    }
    assert(mapped.take(rows.len() as int) =~= mapped);
    let meta = trending_meta(lang);
    Ok(build_rss(meta, items))
}

} // verus!
