//! The Bing adapter.

use vstd::prelude::*;
use vstd::utf8::{decode_utf8, valid_utf8};
use crate::codec::{base64url_decoded, decode_base64url, utf8_string};
use crate::engines::{
    browser_headers, headers_view, page_outcome, request_headers, with_block, Block, BlockView,
};
use crate::errors::{EngineErrorKind, EngineErrorType};
use crate::locator::{parse_query_pairs, pairs_view, parsed_url, query_pairs, ParsedUrl};
use crate::markup::{
    attribute_of_match, attribute_under_match, count_matches, document_text, markup_under_match,
    match_attribute, match_count, nested_attribute, nested_markup, parse_document, parse_selector,
    selector_parses, selector_text,
};
use crate::pattern::{compile, pattern_compiles, pattern_text, remove_matches, without_matches};
use crate::text::{
    joined, contains, decimal, is_prefix, occurs_in, optional_text, push_decimal, same_text,
    starts_with, strip_leading, trim, trimmed, without_leading,
};
use crate::aggregator::all_sourced;
use crate::{fresh_result, results_view, SearchResult, SearchResultView};

verus! {

/// The cookie sent with every request: that of a session just begun.
pub open spec fn cookie() -> Seq<char> {
    "_EDGE_V=1;SRCHD=AF=NOFORM;_Rwho=u=d;bngps=s=0;_UR=QS=0&TQS=0;_UR=QS=0&TQS=0;"@
}

/// The number of the first result of page `page_idx`.
pub open spec fn offset(page_idx: u16) -> nat {
    (10 * page_idx + 1) as nat
}

/// The URL that asks for page `page_idx` of the results for `query`: the
/// first page names no offset, later pages name that of their first result.
pub open spec fn search_url(page_idx: u16, query: Seq<char>) -> Seq<char> {
    if page_idx == 0 {
        "https://www.bing.com/search?q="@ + query
    } else {
        "https://www.bing.com/search?q="@ + query + "&first="@ + decimal(offset(page_idx))
    }
}

/// The selector of the results container, whose classes tell an empty page.
pub open spec fn no_results_selector() -> Seq<char> {
    ".b_results"@
}

/// The selector of a result block.
pub open spec fn results_selector() -> Seq<char> {
    ".b_algo"@
}

/// The selector of a block's link.
pub open spec fn url_selector() -> Seq<char> {
    ".b_tpcn a.tilk"@
}

/// The selector of a block's title.
pub open spec fn title_selector() -> Seq<char> {
    "h2 a"@
}

/// The selector of a block's snippet.
pub open spec fn desc_selector() -> Seq<char> {
    ".b_caption p"@
}

/// The selector of a block's snippet where the first finds none.
pub open spec fn clamped_desc_selector() -> Seq<char> {
    ".b_lineclamp3 p"@
}

/// The pattern of the leading annotations that are cut from snippets.
pub open spec fn span_pattern() -> Seq<char> {
    "<span.*?>.*?(?:</span>&nbsp;\u{b7}|</span>)"@
}

/// The pattern of the emphasis tags that are cut from titles.
pub open spec fn strong_pattern() -> Seq<char> {
    "(<strong>|</strong>)"@
}

/// The start of a link that leads through Bing's click tracker.
pub open spec fn tracker_prefix() -> Seq<char> {
    "https://www.bing.com/ck/a?"@
}

/// Every selector and pattern of the adapter is accepted.
pub open spec fn ready() -> bool {
    &&& selector_parses(no_results_selector())
    &&& selector_parses(results_selector())
    &&& selector_parses(url_selector())
    &&& selector_parses(title_selector())
    &&& selector_parses(desc_selector())
    &&& selector_parses(clamped_desc_selector())
    &&& pattern_compiles(span_pattern())
    &&& pattern_compiles(strong_pattern())
}

/// The index of the first pair at or after `from` whose name is `name`, or
/// the number of pairs where there is none.
pub open spec fn first_named(pairs: Seq<(Seq<char>, Seq<char>)>, name: Seq<char>, from: int) -> int
    decreases pairs.len() - from,
{
    if from < 0 || from >= pairs.len() {
        pairs.len() as int
    } else if pairs[from].0 == name {
        from
    } else {
        first_named(pairs, name, from + 1)
    }
}

/// The text that a tracker parameter stands for: the value without its
/// leading `a1` marks, decoded from base64url and read as UTF-8.
pub open spec fn decoded_target(value: Seq<char>) -> Option<Seq<char>> {
    match base64url_decoded(without_leading("a1"@, value)) {
        Some(bytes) => if valid_utf8(bytes) {
            Some(decode_utf8(bytes))
        } else {
            None
        },
        None => None,
    }
}

/// The destination that the pairs of a tracker link name: what the first
/// pair named `u` decodes to.
pub open spec fn target_in(pairs: Seq<(Seq<char>, Seq<char>)>) -> Option<Seq<char>> {
    let at = first_named(pairs, "u"@, 0);
    if at < pairs.len() {
        decoded_target(pairs[at].1)
    } else {
        None
    }
}

/// The destination of a tracker link: that which the pairs of its query name.
pub open spec fn og_url(url: Seq<char>) -> Option<Seq<char>> {
    match parsed_url(url) {
        Some(parts) => target_in(
            query_pairs(
                match parts.query {
                    Some(query) => query,
                    None => Seq::empty(),
                },
            ),
        ),
        None => None,
    }
}

/// The first of two optional values that is there.
pub open spec fn first_of(a: Option<Seq<char>>, b: Option<Seq<char>>) -> Option<Seq<char>> {
    if a is Some {
        a
    } else {
        b
    }
}

/// What a block comes to, given the inner markup of its title and snippet
/// and the address of its link where it has them: without one of the three
/// it is skipped. A link through the tracker stands for its destination, and
/// the block fails where that cannot be read. The block also fails where the
/// address is no URL. Else it is the result with the emphasis tags cut from
/// the title and the annotations cut from the snippet.
pub open spec fn block_of(
    title: Option<Seq<char>>,
    href: Option<Seq<char>>,
    desc: Option<Seq<char>>,
) -> BlockView {
    if title is Some && href is Some && desc is Some {
        let target = if is_prefix(tracker_prefix(), href->0) {
            og_url(href->0)
        } else {
            href
        };
        if target is Some && parsed_url(target->0) is Some {
            BlockView::Found(
                fresh_result(
                    parsed_url(target->0)->0,
                    without_matches(strong_pattern(), trimmed(title->0)),
                    without_matches(span_pattern(), trimmed(desc->0)),
                    "Bing"@,
                ),
            )
        } else {
            BlockView::Failed
        }
    } else {
        BlockView::Skipped
    }
}

/// What the block with the given index on the page comes to.
pub open spec fn page_block(page: Seq<char>, index: nat) -> BlockView {
    block_of(
        nested_markup(page, results_selector(), index, title_selector()),
        nested_attribute(page, results_selector(), index, url_selector(), "href"@),
        first_of(
            nested_markup(page, results_selector(), index, desc_selector()),
            nested_markup(page, results_selector(), index, clamped_desc_selector()),
        ),
    )
}

/// The results of the first `count` blocks of the page, in the order of the
/// page; `None` where one of them failed.
pub open spec fn block_results(page: Seq<char>, count: nat) -> Option<Seq<SearchResultView>>
    decreases count,
{
    if count == 0 {
        Some(Seq::empty())
    } else {
        with_block(block_results(page, (count - 1) as nat), page_block(page, (count - 1) as nat))
    }
}

/// Whether the page says that nothing was found: its results container is
/// itself marked as a result block.
pub open spec fn says_no_results(page: Seq<char>) -> bool {
    match match_attribute(page, no_results_selector(), 0, "class"@) {
        Some(classes) => occurs_in("b_algo"@, classes),
        None => false,
    }
}

/// What the parser returns for a page: `NoResults` where the page says that
/// nothing was found, else the results of all its blocks, or `ParseFailed`
/// where a block failed.
pub open spec fn page_results(page: Seq<char>, r: Result<Vec<SearchResult>, EngineErrorType>) -> bool {
    if says_no_results(page) {
        r is Err && r->Err_0@ == EngineErrorKind::NoResults
    } else {
        page_outcome(block_results(page, match_count(page, results_selector())), r)
    }
}

/// Reads the destination out of the pairs of a tracker link.
pub fn target_of_pairs(pairs: &Vec<(String, String)>) -> (r: Option<String>)
    ensures
        optional_text(r) == target_in(pairs_view(pairs@)),
{
    let ghost all = pairs_view(pairs@);
    let mut at: usize = 0;
    while at < pairs.len()
        invariant
            at <= pairs.len(),
            all == pairs_view(pairs@),
            first_named(all, "u"@, 0) == first_named(all, "u"@, at as int),
        decreases pairs.len() - at,
    {
        assert(all[at as int] == (pairs@[at as int].0@, pairs@[at as int].1@));
        if same_text(pairs[at].0.as_str(), "u") {
            let value = strip_leading(pairs[at].1.as_str(), "a1");
            return match decode_base64url(value.as_str()) {
                Some(bytes) => utf8_string(bytes),
                None => None,
            };
        }
        at += 1;
    }
    None
}

/// Reads the destination of a link that leads through the click tracker, or
/// fails with `ParseFailed` where the link names none that can be read.
pub fn get_og_url(url: &str) -> (r: Result<String, EngineErrorType>)
    ensures
        og_url(url@) is Some ==> r is Ok && r->Ok_0@ == og_url(url@)->0,
        og_url(url@) is None ==> r is Err && r->Err_0@ == EngineErrorKind::ParseFailed,
{
    match ParsedUrl::parse(url) {
        Some(parsed) => {
            let pairs = match &parsed.query {
                Some(query) => parse_query_pairs(query.as_str()),
                None => {
                    let empty = String::new();
                    parse_query_pairs(empty.as_str())
                },
            };
            match target_of_pairs(&pairs) {
                Some(target) => Ok(target),
                None => Err(EngineErrorType::ParseFailed),
            }
        },
        None => Err(EngineErrorType::ParseFailed),
    }
}

/// The Bing adapter with its selectors and patterns.
pub struct Bing {
    no_results_selector: scraper::Selector,
    text_results_selector: scraper::Selector,
    text_result_url_selector: scraper::Selector,
    text_result_title_selector: scraper::Selector,
    text_result_desc_selector: scraper::Selector,
    text_result_clamped_desc_selector: scraper::Selector,
    re_span: regex::Regex,
    re_strong: regex::Regex,
}

impl Bing {
    /// Each selector and pattern is the one the adapter names.
    pub closed spec fn well_formed(self) -> bool {
        &&& selector_text(self.no_results_selector) == no_results_selector()
        &&& selector_text(self.text_results_selector) == results_selector()
        &&& selector_text(self.text_result_url_selector) == url_selector()
        &&& selector_text(self.text_result_title_selector) == title_selector()
        &&& selector_text(self.text_result_desc_selector) == desc_selector()
        &&& selector_text(self.text_result_clamped_desc_selector) == clamped_desc_selector()
        &&& pattern_text(self.re_span) == span_pattern()
        &&& pattern_text(self.re_strong) == strong_pattern()
    }

    /// Sets the adapter up; `None` where one of its selectors or patterns is
    /// rejected.
    pub fn new() -> (r: Option<Bing>)
        ensures
            r is Some == ready(),
            r is Some ==> r->0.well_formed(),
    {
        let no_results = parse_selector(".b_results");
        let results = parse_selector(".b_algo");
        let url = parse_selector(".b_tpcn a.tilk");
        let title = parse_selector("h2 a");
        let desc = parse_selector(".b_caption p");
        let clamped = parse_selector(".b_lineclamp3 p");
        let span = compile("<span.*?>.*?(?:</span>&nbsp;\u{b7}|</span>)");
        let strong = compile("(<strong>|</strong>)");
        match (no_results, results, url, title, desc, clamped, span, strong) {
            (
                Some(no_results),
                Some(results),
                Some(url),
                Some(title),
                Some(desc),
                Some(clamped),
                Some(span),
                Some(strong),
            ) => Some(
                Bing {
                    no_results_selector: no_results,
                    text_results_selector: results,
                    text_result_url_selector: url,
                    text_result_title_selector: title,
                    text_result_desc_selector: desc,
                    text_result_clamped_desc_selector: clamped,
                    re_span: span,
                    re_strong: strong,
                },
            ),
            _ => None,
        }
    }

    /// The engine's name.
    pub fn get_name(&self) -> (name: String)
        ensures
            name@ == "Bing"@,
    {
        "Bing".to_owned()
    }

    /// The number of the first result of page `page_idx`.
    pub fn page_offset(page_idx: u16) -> (first: u32)
        ensures
            first == offset(page_idx),
    {
        10 * (page_idx as u32) + 1
    }

    /// The URL that asks for page `page_idx` of the results for `query`.
    pub fn text_search_url(page_idx: u16, query: &str) -> (url: String)
        ensures
            url@ == search_url(page_idx, query@),
    {
        let head = joined("https://www.bing.com/search?q=", query);
        if page_idx == 0 {
            head
        } else {
            let mut url = joined(head.as_str(), "&first=");
            push_decimal(&mut url, Bing::page_offset(page_idx));
            url
        }
    }

    /// The headers sent with every request.
    pub fn headers() -> (headers: Vec<(String, String)>)
        ensures
            headers_view(headers@) == browser_headers(cookie()),
    {
        request_headers(
            "_EDGE_V=1;SRCHD=AF=NOFORM;_Rwho=u=d;bngps=s=0;_UR=QS=0&TQS=0;_UR=QS=0&TQS=0;",
        )
    }

    /// Builds the result of a block from the inner markup of its title and
    /// snippet and the address of its link.
    pub fn build_block(&self, title: Option<String>, href: Option<String>, desc: Option<String>) -> (block: Block)
        requires
            self.well_formed(),
        ensures
            block@ == block_of(optional_text(title), optional_text(href), optional_text(desc)),
            block matches Block::Found(result) ==> result.well_formed(),
    {
        match (title, href, desc) {
            (Some(title), Some(href), Some(desc)) => {
                let target = if starts_with(href.as_str(), "https://www.bing.com/ck/a?") {
                    match get_og_url(href.as_str()) {
                        Ok(target) => target,
                        Err(_) => {
                            return Block::Failed;
                        },
                    }
                } else {
                    href
                };
                let clean_title = remove_matches(&self.re_strong, trim(title.as_str()));
                let clean_desc = remove_matches(&self.re_span, trim(desc.as_str()));
                match SearchResult::new(
                    target.as_str(),
                    clean_title.as_str(),
                    clean_desc.as_str(),
                    "Bing",
                ) {
                    Ok(result) => Block::Found(result),
                    Err(_) => Block::Failed,
                }
            },
            _ => Block::Skipped,
        }
    }

    /// Parses a page of text results.
    pub fn parse_text_results(&self, page: &str) -> (r: Result<Vec<SearchResult>, EngineErrorType>)
        requires
            self.well_formed(),
        ensures
            page_results(page@, r),
            r is Ok ==> all_sourced(results_view(r->Ok_0@)),
    {
        let document = parse_document(page);
        match attribute_of_match(&document, &self.no_results_selector, 0, "class") {
            Some(classes) => {
                if contains(classes.as_str(), "b_algo") {
                    return Err(EngineErrorType::NoResults);
                }
            },
            None => {},
        }
        let count = count_matches(&document, &self.text_results_selector);
        let mut results: Vec<SearchResult> = Vec::new();
        assert(results_view(results@) =~= Seq::empty());
        let mut index: usize = 0;
        while index < count
            invariant
                index <= count,
                self.well_formed(),
                document_text(document) == page@,
                !says_no_results(page@),
                count == match_count(page@, results_selector()),
                all_sourced(results_view(results@)),
                block_results(page@, index as nat) == Some(results_view(results@)),
            decreases count - index,
        {
            let title = markup_under_match(
                &document,
                &self.text_results_selector,
                index,
                &self.text_result_title_selector,
            );
            let href = attribute_under_match(
                &document,
                &self.text_results_selector,
                index,
                &self.text_result_url_selector,
                "href",
            );
            let desc = match markup_under_match(
                &document,
                &self.text_results_selector,
                index,
                &self.text_result_desc_selector,
            ) {
                Some(desc) => Some(desc),
                None => markup_under_match(
                    &document,
                    &self.text_results_selector,
                    index,
                    &self.text_result_clamped_desc_selector,
                ),
            };
            let ghost before = results_view(results@);
            match self.build_block(title, href, desc) {
                Block::Found(result) => {
                    results.push(result);
                    assert(results_view(results@) =~= before.push(result@));
                    assert(result@.sources.len() == result.sources@.len());
                },
                Block::Failed => {
                    proof {
                        assert(block_results(page@, (index + 1) as nat) is None);
                        lemma_failure_stays(page@, (index + 1) as nat, count as nat);
                    }
                    return Err(EngineErrorType::ParseFailed);
                },
                Block::Skipped => {},
            }
            index += 1;
        }
        Ok(results)
    }
}

/// Once a block has failed the page has failed, however many blocks follow.
pub proof fn lemma_failure_stays(page: Seq<char>, failed: nat, count: nat)
    requires
        failed <= count,
        block_results(page, failed) is None,
    ensures
        block_results(page, count) is None,
    decreases count,
{
    if failed < count {
        lemma_failure_stays(page, failed, (count - 1) as nat);
    }
}

} // verus!
