use metasearch::errors::EngineErrorType;
use metasearch::locator::ParsedUrl;
use metasearch::SearchResult;

#[test]
fn new_result_is_unscored_with_one_source() {
    let r = SearchResult::new("https://example.com/a?b=c", "Title", "Text", "Bing").unwrap();
    assert_eq!(r.title, "Title");
    assert_eq!(r.description, "Text");
    assert_eq!(r.score, 0);
    assert_eq!(r.sources, vec!["Bing".to_string()]);
    assert_eq!(r.url.href, "https://example.com/a?b=c");
    assert_eq!(r.url.host, Some("example.com".to_string()));
    assert_eq!(r.url.path, "/a");
    assert_eq!(r.url.query, Some("b=c".to_string()));
    assert!(r.has_source());
    let mut bare = r.clone();
    bare.sources.clear();
    assert!(!bare.has_source());
}

#[test]
fn url_is_normalized_by_the_parser() {
    let r = SearchResult::new("HTTP://Example.COM", "", "", "Bing").unwrap();
    assert_eq!(r.url.href, "http://example.com/");
    assert_eq!(r.url.host, Some("example.com".to_string()));
    assert_eq!(r.url.path, "/");
    assert_eq!(r.url.query, None);
}

#[test]
fn unparsable_url_is_parse_failed() {
    let r = SearchResult::new("not a url", "Title", "Text", "Bing");
    assert_eq!(r.err(), Some(EngineErrorType::ParseFailed));
    let r = SearchResult::new("", "Title", "Text", "Bing");
    assert_eq!(r.err(), Some(EngineErrorType::ParseFailed));
}

#[test]
fn with_url_fails_without_a_url() {
    let r = SearchResult::with_url(None, "Title", "Text", "Bing");
    assert_eq!(r.err(), Some(EngineErrorType::ParseFailed));
    let url = ParsedUrl::parse("https://example.com/").unwrap();
    let r = SearchResult::with_url(Some(url.duplicate()), "Title", "Text", "Bing").unwrap();
    assert_eq!(r.url, url);
    assert_eq!(r.sources.len(), 1);
}

#[test]
fn url_without_host_has_none() {
    let url = ParsedUrl::parse("mailto:someone@example.com").unwrap();
    assert_eq!(url.host, None);
    assert_eq!(url.path, "someone@example.com");
    assert!(ParsedUrl::parse("://").is_none());
}

#[test]
fn results_are_equal_by_target() {
    let plain = SearchResult::new("http://x.com/a?b", "one", "first", "Bing").unwrap();
    let secure = SearchResult::new("https://x.com/a?b", "two", "second", "DuckDuckGo").unwrap();
    let other = SearchResult::new("https://x.com/a?c", "one", "first", "Bing").unwrap();
    assert!(plain == secure);
    assert!(plain != other);
    assert_eq!(plain, secure);
}
