//! One feed per site: addresses to fetch, and what the fetched data becomes.
pub mod github;
pub mod hackernews;
pub mod reddit;
pub mod scraper;
pub mod v2ex;
pub mod xuangubao;
