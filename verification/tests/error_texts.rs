use rss_forge::error::FeedError;

#[test]
fn every_error_has_its_text() {
    assert_eq!(FeedError::FixedSelector("title".to_string()).message(), "Invalid selector: title");
    assert_eq!(FeedError::TagPattern.message(), "Invalid tag pattern");
    assert_eq!(FeedError::InvalidItemSelector("a[".to_string()).message(), "Invalid item selector: a[");
    assert_eq!(FeedError::InvalidTitleSelector("b[".to_string()).message(), "Invalid title selector: b[");
    assert_eq!(FeedError::InvalidLinkSelector.message(), "Invalid link selector");
    assert_eq!(FeedError::InvalidDescSelector.message(), "Invalid desc selector");
    assert_eq!(FeedError::InvalidAuthorSelector.message(), "Invalid author selector");
    assert_eq!(FeedError::InvalidUrl("empty host".to_string()).message(), "empty host");
}
