//! The DuckDuckGo adapter.

use vstd::prelude::*;
use crate::engines::{page_outcome, request_headers, with_block, Block, BlockView, browser_headers, headers_view};
use crate::errors::{EngineErrorKind, EngineErrorType};
use crate::locator::parsed_url;
use crate::markup::{
    count_matches, document_text, markup_under_match, match_count, nested_markup,
    parse_document, parse_selector, selector_parses, selector_text,
};
use crate::text::{joined, decimal, optional_text, push_decimal, trim, trimmed};
use crate::aggregator::all_sourced;
use crate::{fresh_result, results_view, SearchResult, SearchResultView};

verus! {

/// The region cookie sent with every request.
pub open spec fn cookie() -> Seq<char> {
    "kl=wt-wt"@
}

/// The offset of the first result of a page after the first. Pages 1 and 2
/// both start at 20; from page 3 on each page starts 50 after the one before.
pub open spec fn offset(page_idx: u16) -> nat {
    if page_idx == 2 {
        20
    } else {
        ((page_idx - 1) * 50 + 20) as nat
    }
}

/// The URL that asks for page `page_idx` of the results for `query`. The
/// first page is asked of the form endpoint with empty offsets; later pages
/// carry the offset of their first result and, as `dc`, that offset plus one.
pub open spec fn search_url(page_idx: u16, query: Seq<char>) -> Seq<char> {
    if page_idx == 0 {
        "https://html.duckduckgo.com/html/?q="@ + query + "&s=&dc=&v=1&o=json&api=/d.js"@
    } else {
        "https://duckduckgo.com/html/?q="@ + query + "&s="@ + decimal(offset(page_idx)) + "&dc="@
            + decimal(offset(page_idx) + 1) + "&v=1&o=json&api=/d.js"@
    }
}

/// The selector of the element that says that nothing was found.
pub open spec fn no_results_selector() -> Seq<char> {
    ".no-results"@
}

/// The selector of a result block.
pub open spec fn results_selector() -> Seq<char> {
    ".results>.result"@
}

/// The selector of a block's displayed URL.
pub open spec fn url_selector() -> Seq<char> {
    ".result__url"@
}

/// The selector of a block's title.
pub open spec fn title_selector() -> Seq<char> {
    ".result__title>.result__a"@
}

/// The selector of a block's snippet.
pub open spec fn desc_selector() -> Seq<char> {
    ".result__snippet"@
}

/// Every selector of the adapter is accepted.
pub open spec fn ready() -> bool {
    &&& selector_parses(no_results_selector())
    &&& selector_parses(results_selector())
    &&& selector_parses(url_selector())
    &&& selector_parses(title_selector())
    &&& selector_parses(desc_selector())
}

/// What a block comes to, given the inner markup of its title, displayed URL
/// and snippet where it has them: without one of the three it is skipped;
/// else it is the result for the displayed host under `https://`, or skipped
/// where that is no URL.
pub open spec fn block_of(
    title: Option<Seq<char>>,
    url: Option<Seq<char>>,
    desc: Option<Seq<char>>,
) -> BlockView {
    if title is Some && url is Some && desc is Some {
        let target = "https://"@ + trimmed(url->0);
        match parsed_url(target) {
            Some(parts) => BlockView::Found(
                fresh_result(parts, trimmed(title->0), trimmed(desc->0), "DuckDuckGo"@),
            ),
            None => BlockView::Skipped,
        }
    } else {
        BlockView::Skipped
    }
}

/// What the block with the given index on the page comes to.
pub open spec fn page_block(page: Seq<char>, index: nat) -> BlockView {
    block_of(
        nested_markup(page, results_selector(), index, title_selector()),
        nested_markup(page, results_selector(), index, url_selector()),
        nested_markup(page, results_selector(), index, desc_selector()),
    )
}

/// The results of the first `count` blocks of the page, in the order of the
/// page.
pub open spec fn block_results(page: Seq<char>, count: nat) -> Option<Seq<SearchResultView>>
    decreases count,
{
    if count == 0 {
        Some(Seq::empty())
    } else {
        with_block(block_results(page, (count - 1) as nat), page_block(page, (count - 1) as nat))
    }
}

/// What the parser returns for a page: `NoResults` where the page says that
/// nothing was found, else the results of all its blocks.
pub open spec fn page_results(page: Seq<char>, r: Result<Vec<SearchResult>, EngineErrorType>) -> bool {
    if match_count(page, no_results_selector()) > 0 {
        r is Err && r->Err_0@ == EngineErrorKind::NoResults
    } else {
        page_outcome(block_results(page, match_count(page, results_selector())), r)
    }
}

/// The DuckDuckGo adapter with its selectors.
pub struct DuckDuckGo {
    no_results_selector: scraper::Selector,
    text_results_selector: scraper::Selector,
    text_result_url_selector: scraper::Selector,
    text_result_title_selector: scraper::Selector,
    text_result_desc_selector: scraper::Selector,
}

impl DuckDuckGo {
    /// Each selector is the one the adapter names.
    pub closed spec fn well_formed(self) -> bool {
        &&& selector_text(self.no_results_selector) == no_results_selector()
        &&& selector_text(self.text_results_selector) == results_selector()
        &&& selector_text(self.text_result_url_selector) == url_selector()
        &&& selector_text(self.text_result_title_selector) == title_selector()
        &&& selector_text(self.text_result_desc_selector) == desc_selector()
    }

    /// Sets the adapter up; `None` where one of its selectors is rejected.
    pub fn new() -> (r: Option<DuckDuckGo>)
        ensures
            r is Some == ready(),
            r is Some ==> r->0.well_formed(),
    {
        let no_results = parse_selector(".no-results");
        let results = parse_selector(".results>.result");
        let url = parse_selector(".result__url");
        let title = parse_selector(".result__title>.result__a");
        let desc = parse_selector(".result__snippet");
        match (no_results, results, url, title, desc) {
            (Some(no_results), Some(results), Some(url), Some(title), Some(desc)) => Some(
                DuckDuckGo {
                    no_results_selector: no_results,
                    text_results_selector: results,
                    text_result_url_selector: url,
                    text_result_title_selector: title,
                    text_result_desc_selector: desc,
                },
            ),
            _ => None,
        }
    }

    /// The engine's name.
    pub fn get_name(&self) -> (name: String)
        ensures
            name@ == "DuckDuckGo"@,
    {
        "DuckDuckGo".to_owned()
    }

    /// The offset of the first result of page `page_idx`; `None` for the
    /// first page, which carries none.
    pub fn page_offset(page_idx: u16) -> (r: Option<u32>)
        ensures
            r is Some == (page_idx != 0),
            r is Some ==> r->0 == offset(page_idx),
    {
        if page_idx == 0 {
            None
        } else if page_idx == 2 {
            Some(20)
        } else {
            Some((page_idx as u32 - 1) * 50 + 20)
        }
    }

    /// The URL that asks for page `page_idx` of the results for `query`.
    pub fn text_search_url(page_idx: u16, query: &str) -> (url: String)
        ensures
            url@ == search_url(page_idx, query@),
    {
        match DuckDuckGo::page_offset(page_idx) {
            None => {
                let head = joined("https://html.duckduckgo.com/html/?q=", query);
                joined(head.as_str(), "&s=&dc=&v=1&o=json&api=/d.js")
            },
            Some(first) => {
                let head = joined("https://duckduckgo.com/html/?q=", query);
                let mut url = joined(head.as_str(), "&s=");
                push_decimal(&mut url, first);
                let mut url = joined(url.as_str(), "&dc=");
                push_decimal(&mut url, first + 1);
                joined(url.as_str(), "&v=1&o=json&api=/d.js")
            },
        }
    }

    /// The headers sent with every request.
    pub fn headers() -> (headers: Vec<(String, String)>)
        ensures
            headers_view(headers@) == browser_headers(cookie()),
    {
        request_headers("kl=wt-wt")
    }

    /// Builds the result of a block from the inner markup of its title,
    /// displayed URL and snippet.
    pub fn build_block(title: Option<String>, url: Option<String>, desc: Option<String>) -> (block:
        Block)
        ensures
            block@ == block_of(optional_text(title), optional_text(url), optional_text(desc)),
            block matches Block::Found(result) ==> result.well_formed(),
    {
        match (title, url, desc) {
            (Some(title), Some(url), Some(desc)) => {
                let target = joined("https://", trim(url.as_str()));
                match SearchResult::new(
                    target.as_str(),
                    trim(title.as_str()),
                    trim(desc.as_str()),
                    "DuckDuckGo",
                ) {
                    Ok(result) => Block::Found(result),
                    Err(_) => Block::Skipped,
                }
            },
            _ => Block::Skipped,
        }
    }

    /// Parses a page of text results.
    pub fn parse_text_results(&self, page: &str) -> (r: Result<Vec<SearchResult>, EngineErrorType>)
        requires
            self.well_formed(),
        ensures
            page_results(page@, r),
            r is Ok ==> all_sourced(results_view(r->Ok_0@)),
    {
        let document = parse_document(page);
        if count_matches(&document, &self.no_results_selector) > 0 {
            return Err(EngineErrorType::NoResults);
        }
        let count = count_matches(&document, &self.text_results_selector);
        let mut results: Vec<SearchResult> = Vec::new();
        assert(results_view(results@) =~= Seq::empty());
        let mut index: usize = 0;
        while index < count
            invariant
                index <= count,
                self.well_formed(),
                document_text(document) == page@,
                all_sourced(results_view(results@)),
                block_results(page@, index as nat) == Some(results_view(results@)),
            decreases count - index,
        {
            let title = markup_under_match(
                &document,
                &self.text_results_selector,
                index,
                &self.text_result_title_selector,
            );
            let url = markup_under_match(
                &document,
                &self.text_results_selector,
                index,
                &self.text_result_url_selector,
            );
            let desc = markup_under_match(
                &document,
                &self.text_results_selector,
                index,
                &self.text_result_desc_selector,
            );
            let ghost before = results_view(results@);
            match DuckDuckGo::build_block(title, url, desc) {
                Block::Found(result) => {
                    results.push(result);
                    assert(results_view(results@) =~= before.push(result@));
                    assert(result@.sources.len() == result.sources@.len());
                },
                _ => {},
            }
            index += 1;
        }
        Ok(results)
    }
}

} // verus!
