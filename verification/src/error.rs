//! Why a feed could not be built.
use vstd::prelude::*;
use crate::text::{cat, owned};

verus! {

pub enum FeedError {
    /// A selector fixed by a route does not parse.
    FixedSelector(String),
    /// The pattern that finds HTML tags does not compile.
    TagPattern,
    /// The item selector given to the scraper does not parse.
    InvalidItemSelector(String),
    /// The title selector given to the scraper does not parse.
    InvalidTitleSelector(String),
    /// The link selector given to the scraper does not parse.
    InvalidLinkSelector,
    /// The description selector given to the scraper does not parse.
    InvalidDescSelector,
    /// The author selector given to the scraper does not parse.
    InvalidAuthorSelector,
    /// The page URL does not parse; the URL parser's message.
    InvalidUrl(String),
}

impl FeedError {
    /// The text that describes the error.
    pub open spec fn text(&self) -> Seq<char> {
        match self {
            FeedError::FixedSelector(s) => "Invalid selector: "@ + s@,
            FeedError::TagPattern => "Invalid tag pattern"@,
            FeedError::InvalidItemSelector(s) => "Invalid item selector: "@ + s@,
            FeedError::InvalidTitleSelector(s) => "Invalid title selector: "@ + s@,
            FeedError::InvalidLinkSelector => "Invalid link selector"@,
            FeedError::InvalidDescSelector => "Invalid desc selector"@,
            FeedError::InvalidAuthorSelector => "Invalid author selector"@,
            FeedError::InvalidUrl(m) => m@,
        }
    }

    /// The text that describes the error.
    pub fn message(&self) -> (r: String)
        ensures
            r@ == self.text(),
    {
        match self {
            FeedError::FixedSelector(s) => cat("Invalid selector: ", s.as_str()),
            FeedError::TagPattern => owned("Invalid tag pattern"),
            FeedError::InvalidItemSelector(s) => cat("Invalid item selector: ", s.as_str()),
            FeedError::InvalidTitleSelector(s) => cat("Invalid title selector: ", s.as_str()),
            FeedError::InvalidLinkSelector => owned("Invalid link selector"),
            FeedError::InvalidDescSelector => owned("Invalid desc selector"),
            FeedError::InvalidAuthorSelector => owned("Invalid author selector"),
            FeedError::InvalidUrl(m) => m.clone(),
        }
    }
}

} // verus!
