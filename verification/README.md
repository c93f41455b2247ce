# rss_forge

A small server that turns web sites into RSS 2.0 feeds: GitHub trending,
Hacker News story lists, subreddits, V2EX topics, the Xuangubao news flash,
and any page through CSS selectors.

* `src/` is the library, verified with Verus. It decides what every feed
  says: the addresses to fetch, how fetched JSON records and HTML matches
  become feed items, the channel data, the rendering through the `rss`
  crate, the error texts and the HTTP replies. Outside crates (`rss`,
  `chrono`, `scraper`, `regex`, `html-escape`, `url`) are called through
  small trusted functions whose contracts are stated next to them.
* `app/` is the server: routing with `axum`, fetching with `reqwest`,
  decoding JSON with `serde`, and the index page.
* `tests/` runs the library on concrete pages and records.
