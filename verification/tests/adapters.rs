use metasearch::engines::bing::{get_og_url, target_of_pairs, Bing};
use metasearch::engines::duckduckgo::DuckDuckGo;
use metasearch::engines::{get_engines, request_headers, Block, Engine};
use metasearch::errors::EngineErrorType;
use metasearch::{Query, QueryType, Relavancy, SafeSearchLevel};

fn headers(cookie: &str) -> Vec<(String, String)> {
    vec![
        ("REFERER".to_string(), "https://google.com/".to_string()),
        ("CONTENT_TYPE".to_string(), "application/x-www-form-urlencoded".to_string()),
        ("COOKIE".to_string(), cookie.to_string()),
    ]
}

const BING_COOKIE: &str =
    "_EDGE_V=1;SRCHD=AF=NOFORM;_Rwho=u=d;bngps=s=0;_UR=QS=0&TQS=0;_UR=QS=0&TQS=0;";

const BING_PAGE: &str = "<html><body><ol id=\"b_results\" class=\"b_results\">\
<li class=\"b_algo\"><div class=\"b_tpcn\"><a class=\"tilk\" href=\"https://example.com/one\">example.com</a></div>\
<h2><a href=\"https://example.com/one\"> First <strong>result</strong> </a></h2>\
<div class=\"b_caption\"><p><span class=\"algoSlug_icon\">Web</span>&nbsp;\u{b7} Snippet <strong>one</strong></p></div></li>\
<li class=\"b_algo\"><div class=\"b_tpcn\"><a class=\"tilk\" href=\"https://www.bing.com/ck/a?!&amp;&amp;p=abc&amp;u=a1aHR0cHM6Ly9leGFtcGxlLmNvbS9wYWdl&amp;ntb=1\">example.com</a></div>\
<h2><a>Second</a></h2>\
<div class=\"b_lineclamp3\"><p>Clamped snippet</p></div></li>\
<li class=\"b_algo\"><div class=\"b_tpcn\"><a class=\"tilk\" href=\"https://example.com/untitled\">x</a></div>\
<div class=\"b_caption\"><p>No title here</p></div></li>\
<li class=\"b_algo\"><div class=\"b_tpcn\"><a class=\"tilk\">no address</a></div>\
<h2><a>Fourth</a></h2><div class=\"b_caption\"><p>No address here</p></div></li>\
<li class=\"b_algo\"><div class=\"b_tpcn\"><a class=\"tilk\" href=\"https://example.com/five\">x</a></div>\
<h2><a>Fifth</a></h2><div class=\"b_caption\"><p>Five</p></div></li>\
</ol></body></html>";

const DDG_PAGE: &str = "<html><body><div class=\"results\">\
<div class=\"result\"><h2 class=\"result__title\"><a class=\"result__a\" href=\"x\"> First <b>title</b> </a></h2>\
<a class=\"result__url\" href=\"x\"> example.com/one </a>\
<a class=\"result__snippet\"> Snippet <b>one</b> </a></div>\
<div class=\"result\"><h2 class=\"result__title\"><a class=\"result__a\">No address</a></h2>\
<a class=\"result__snippet\">s</a></div>\
<div class=\"result\"><h2 class=\"result__title\"><a class=\"result__a\">Empty address</a></h2>\
<a class=\"result__url\"> </a><a class=\"result__snippet\">s</a></div>\
<div class=\"result\"><h2 class=\"result__title\"><a class=\"result__a\">Second</a></h2>\
<a class=\"result__url\">example.org/two?x=1</a><a class=\"result__snippet\">Snippet two</a></div>\
</div></body></html>";

#[test]
fn engine_names() {
    let engines = get_engines().unwrap();
    assert_eq!(engines.len(), 2);
    assert_eq!(engines[0].get_name(), "Bing");
    assert_eq!(engines[1].get_name(), "DuckDuckGo");
    assert_eq!(Bing::new().unwrap().get_name(), "Bing");
    assert_eq!(DuckDuckGo::new().unwrap().get_name(), "DuckDuckGo");
}

#[test]
fn bing_first_page_names_no_offset() {
    assert_eq!(Bing::text_search_url(0, "rust lang"), "https://www.bing.com/search?q=rust lang");
}

#[test]
fn bing_later_pages_name_their_first_result() {
    assert_eq!(Bing::page_offset(1), 11);
    assert_eq!(Bing::page_offset(2), 21);
    assert_eq!(Bing::page_offset(65535), 655_351);
    assert_eq!(Bing::text_search_url(1, "q"), "https://www.bing.com/search?q=q&first=11");
    assert_eq!(Bing::text_search_url(3, "q"), "https://www.bing.com/search?q=q&first=31");
    assert_eq!(Bing::text_search_url(65535, "q"), "https://www.bing.com/search?q=q&first=655351");
}

#[test]
fn duckduckgo_pages_one_and_two_share_an_offset() {
    assert_eq!(DuckDuckGo::page_offset(0), None);
    assert_eq!(DuckDuckGo::page_offset(1), Some(20));
    assert_eq!(DuckDuckGo::page_offset(2), Some(20));
    assert_eq!(DuckDuckGo::page_offset(3), Some(120));
    assert_eq!(DuckDuckGo::page_offset(4), Some(170));
    assert_eq!(DuckDuckGo::page_offset(65535), Some(3_276_720));
    assert_eq!(DuckDuckGo::text_search_url(1, "q"), DuckDuckGo::text_search_url(2, "q"));
}

#[test]
fn duckduckgo_urls() {
    assert_eq!(
        DuckDuckGo::text_search_url(0, "q"),
        "https://html.duckduckgo.com/html/?q=q&s=&dc=&v=1&o=json&api=/d.js"
    );
    assert_eq!(
        DuckDuckGo::text_search_url(1, "q"),
        "https://duckduckgo.com/html/?q=q&s=20&dc=21&v=1&o=json&api=/d.js"
    );
    assert_eq!(
        DuckDuckGo::text_search_url(2, "q"),
        "https://duckduckgo.com/html/?q=q&s=20&dc=21&v=1&o=json&api=/d.js"
    );
    assert_eq!(
        DuckDuckGo::text_search_url(3, "rust"),
        "https://duckduckgo.com/html/?q=rust&s=120&dc=121&v=1&o=json&api=/d.js"
    );
}

#[test]
fn request_carries_url_and_headers() {
    let engines = get_engines().unwrap();
    let bing = engines[0].text_request(2, "q", None, None);
    assert_eq!(bing.url, "https://www.bing.com/search?q=q&first=21");
    assert_eq!(bing.headers, headers(BING_COOKIE));
    let ddg = engines[1].text_request(0, "q", Some(Relavancy::PastDay), Some(SafeSearchLevel::High));
    assert_eq!(ddg.url, "https://html.duckduckgo.com/html/?q=q&s=&dc=&v=1&o=json&api=/d.js");
    assert_eq!(ddg.headers, headers("kl=wt-wt"));
    assert_eq!(Bing::headers(), headers(BING_COOKIE));
    assert_eq!(DuckDuckGo::headers(), headers("kl=wt-wt"));
    assert_eq!(request_headers("a=b"), headers("a=b"));
}

#[test]
fn request_for_a_query() {
    let engines = get_engines().unwrap();
    let mut query = Query {
        text: "q".to_string(),
        qtype: QueryType::Text,
        page: Some(0),
        safe_search_level: None,
        relavancy: None,
    };
    assert_eq!(engines[0].request(&query).unwrap().url, "https://www.bing.com/search?q=q");
    query.page = None;
    assert_eq!(engines[0].request(&query).unwrap().url, "https://www.bing.com/search?q=q&first=11");
    query.qtype = QueryType::Image;
    assert!(engines[0].request(&query).is_none());
    query.qtype = QueryType::File;
    assert!(engines[1].request(&query).is_none());
}

#[test]
fn bing_page_is_parsed() {
    let bing = Bing::new().unwrap();
    let results = bing.parse_text_results(BING_PAGE).unwrap();
    assert_eq!(results.len(), 3);
    assert_eq!(results[0].url.href, "https://example.com/one");
    assert_eq!(results[0].title, "First result");
    assert_eq!(results[0].description, " Snippet <strong>one</strong>");
    assert_eq!(results[0].sources, vec!["Bing".to_string()]);
    assert_eq!(results[0].score, 0);
    assert_eq!(results[1].url.href, "https://example.com/page");
    assert_eq!(results[1].title, "Second");
    assert_eq!(results[1].description, "Clamped snippet");
    assert_eq!(results[2].url.href, "https://example.com/five");
    assert_eq!(results[2].title, "Fifth");
}

#[test]
fn bing_page_without_results_is_no_results() {
    let bing = Bing::new().unwrap();
    let page = "<html><body><ol class=\"b_results b_algo\"><li>There are no results</li></ol></body></html>";
    assert_eq!(bing.parse_text_results(page).err(), Some(EngineErrorType::NoResults));
}

#[test]
fn bing_page_without_blocks_is_empty() {
    let bing = Bing::new().unwrap();
    let page = "<html><body><ol class=\"b_results\"></ol></body></html>";
    assert_eq!(bing.parse_text_results(page).unwrap().len(), 0);
    assert_eq!(bing.parse_text_results("").unwrap().len(), 0);
}

#[test]
fn bing_block_with_unparsable_address_fails_the_page() {
    let bing = Bing::new().unwrap();
    let page = "<html><body><ol class=\"b_results\">\
<li class=\"b_algo\"><div class=\"b_tpcn\"><a class=\"tilk\" href=\"https://example.com/one\">x</a></div>\
<h2><a>One</a></h2><div class=\"b_caption\"><p>One</p></div></li>\
<li class=\"b_algo\"><div class=\"b_tpcn\"><a class=\"tilk\" href=\"not a url\">x</a></div>\
<h2><a>Two</a></h2><div class=\"b_caption\"><p>Two</p></div></li>\
</ol></body></html>";
    assert_eq!(bing.parse_text_results(page).err(), Some(EngineErrorType::ParseFailed));
}

#[test]
fn bing_blocks() {
    let bing = Bing::new().unwrap();
    let some = |s: &str| Some(s.to_string());
    assert!(matches!(bing.build_block(None, some("https://a.example/"), some("d")), Block::Skipped));
    assert!(matches!(bing.build_block(some("t"), None, some("d")), Block::Skipped));
    assert!(matches!(bing.build_block(some("t"), some("https://a.example/"), None), Block::Skipped));
    assert!(matches!(bing.build_block(some("t"), some("no url"), some("d")), Block::Failed));
    assert!(matches!(
        bing.build_block(some("t"), some("https://www.bing.com/ck/a?p=1"), some("d")),
        Block::Failed
    ));
    assert!(matches!(
        bing.build_block(some("t"), some("https://www.bing.com/ck/a?u=a1bm90IGEgdXJs"), some("d")),
        Block::Failed
    ));
    match bing.build_block(
        some("  <strong>Bold</strong> title "),
        some("https://www.bing.com/ck/a?u=a1aHR0cHM6Ly9leGFtcGxlLm9yZy9hP2I9Yw"),
        some(" <span>2 days ago</span> text "),
    ) {
        Block::Found(result) => {
            assert_eq!(result.url.href, "https://example.org/a?b=c");
            assert_eq!(result.title, "Bold title");
            assert_eq!(result.description, " text");
        }
        _ => panic!("the block holds a result"),
    }
}

#[test]
fn tracker_link_is_decoded() {
    let url = "https://www.bing.com/ck/a?!&&p=abc&u=a1aHR0cHM6Ly9leGFtcGxlLmNvbS9wYWdl&ntb=1";
    assert_eq!(get_og_url(url), Ok("https://example.com/page".to_string()));
    let twice = "https://www.bing.com/ck/a?u=a1a1aHR0cHM6Ly9leGFtcGxlLmNvbS9wYWdl";
    assert_eq!(get_og_url(twice), Ok("https://example.com/page".to_string()));
    let bare = "https://www.bing.com/ck/a?u=aHR0cHM6Ly9leGFtcGxlLmNvbS9wYWdl";
    assert_eq!(get_og_url(bare), Ok("https://example.com/page".to_string()));
}

#[test]
fn tracker_link_that_cannot_be_read_is_parse_failed() {
    assert_eq!(get_og_url("https://www.bing.com/ck/a?p=abc"), Err(EngineErrorType::ParseFailed));
    assert_eq!(get_og_url("https://www.bing.com/ck/a"), Err(EngineErrorType::ParseFailed));
    assert_eq!(get_og_url("https://www.bing.com/ck/a?u=a1__4"), Err(EngineErrorType::ParseFailed));
    assert_eq!(get_og_url("https://www.bing.com/ck/a?u=a1%%%"), Err(EngineErrorType::ParseFailed));
    assert_eq!(get_og_url("no url"), Err(EngineErrorType::ParseFailed));
    assert_eq!(
        get_og_url("https://www.bing.com/ck/a?u=a1__4&u=a1aHR0cHM6Ly9leGFtcGxlLmNvbS9wYWdl"),
        Err(EngineErrorType::ParseFailed)
    );
}

#[test]
fn first_pair_named_u_decides() {
    let pair = |k: &str, v: &str| (k.to_string(), v.to_string());
    assert_eq!(target_of_pairs(&vec![]), None);
    assert_eq!(target_of_pairs(&vec![pair("U", "a1aHR0cHM6Ly9leGFtcGxlLmNvbS9wYWdl")]), None);
    assert_eq!(
        target_of_pairs(&vec![pair("p", "x"), pair("u", "a1bm90IGEgdXJs"), pair("u", "a1__4")]),
        Some("not a url".to_string())
    );
}

#[test]
fn duckduckgo_page_is_parsed() {
    let duckduckgo = DuckDuckGo::new().unwrap();
    let results = duckduckgo.parse_text_results(DDG_PAGE).unwrap();
    assert_eq!(results.len(), 2);
    assert_eq!(results[0].url.href, "https://example.com/one");
    assert_eq!(results[0].title, "First <b>title</b>");
    assert_eq!(results[0].description, "Snippet <b>one</b>");
    assert_eq!(results[0].sources, vec!["DuckDuckGo".to_string()]);
    assert_eq!(results[1].url.href, "https://example.org/two?x=1");
    assert_eq!(results[1].url.query, Some("x=1".to_string()));
    assert_eq!(results[1].title, "Second");
}

#[test]
fn duckduckgo_page_without_results_is_no_results() {
    let duckduckgo = DuckDuckGo::new().unwrap();
    let page = "<html><body><div class=\"no-results\">No results.</div>\
<div class=\"results\"><div class=\"result\"></div></div></body></html>";
    assert_eq!(duckduckgo.parse_text_results(page).err(), Some(EngineErrorType::NoResults));
}

#[test]
fn duckduckgo_page_without_blocks_is_empty() {
    let duckduckgo = DuckDuckGo::new().unwrap();
    let page = "<html><body><div class=\"results\"></div></body></html>";
    assert_eq!(duckduckgo.parse_text_results(page).unwrap().len(), 0);
}

#[test]
fn duckduckgo_blocks() {
    let some = |s: &str| Some(s.to_string());
    assert!(matches!(DuckDuckGo::build_block(None, some("a.example"), some("d")), Block::Skipped));
    assert!(matches!(DuckDuckGo::build_block(some("t"), None, some("d")), Block::Skipped));
    assert!(matches!(DuckDuckGo::build_block(some("t"), some("a.example"), None), Block::Skipped));
    assert!(matches!(DuckDuckGo::build_block(some("t"), some(""), some("d")), Block::Skipped));
    match DuckDuckGo::build_block(some(" t "), some("\n a.example/x \t"), some(" d ")) {
        Block::Found(result) => {
            assert_eq!(result.url.href, "https://a.example/x");
            assert_eq!(result.url.host, Some("a.example".to_string()));
            assert_eq!(result.title, "t");
            assert_eq!(result.description, "d");
        }
        _ => panic!("the block holds a result"),
    }
}

#[test]
fn engines_parse_their_own_pages() {
    let engines = get_engines().unwrap();
    assert_eq!(engines[0].parse_text_results(BING_PAGE).unwrap().len(), 3);
    assert_eq!(engines[1].parse_text_results(DDG_PAGE).unwrap().len(), 2);
    assert_eq!(engines[0].parse_text_results(DDG_PAGE).unwrap().len(), 0);
    assert!(matches!(engines[0], Engine::Bing(_)));
    assert!(matches!(engines[1], Engine::DuckDuckGo(_)));
}
