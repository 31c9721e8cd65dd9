//! The upstream engines: for each, the request that asks it for a page of
//! results and the parser of the page it answers with.

use vstd::prelude::*;
use crate::aggregator::all_sourced;
use crate::engines::bing::Bing;
use crate::engines::duckduckgo::DuckDuckGo;
use crate::errors::{EngineErrorKind, EngineErrorType};
use crate::{
    results_view, Query, QueryType, Relavancy, SafeSearchLevel, SearchResult, SearchResultView,
};

pub mod bing;
pub mod duckduckgo;

verus! {

/// What to send to an engine: the URL to fetch and the headers to send along.
#[derive(Debug, Clone, PartialEq, Eq)]
pub struct Request {
    pub url: String,
    pub headers: Vec<(String, String)>,
}

/// Header names and values over plain sequences.
pub open spec fn headers_view(headers: Seq<(String, String)>) -> Seq<(Seq<char>, Seq<char>)> {
    headers.map_values(|header: (String, String)| (header.0@, header.1@))
}

/// The headers that both engines share, followed by the engine's cookie.
pub open spec fn browser_headers(cookie: Seq<char>) -> Seq<(Seq<char>, Seq<char>)> {
    seq![
        ("REFERER"@, "https://google.com/"@),
        ("CONTENT_TYPE"@, "application/x-www-form-urlencoded"@),
        ("COOKIE"@, cookie),
    ]
}

/// Builds the headers of a request: a referrer, a content type and the
/// engine's cookie.
pub fn request_headers(cookie: &str) -> (headers: Vec<(String, String)>)
    ensures
        headers_view(headers@) == browser_headers(cookie@),
{
    let mut headers: Vec<(String, String)> = Vec::new();
    headers.push(("REFERER".to_owned(), "https://google.com/".to_owned()));
    headers.push(("CONTENT_TYPE".to_owned(), "application/x-www-form-urlencoded".to_owned()));
    headers.push(("COOKIE".to_owned(), cookie.to_owned()));
    assert(headers_view(headers@) =~= browser_headers(cookie@));
    headers
}

/// What one result block of a page came to.
pub enum Block {
    /// A field was missing: the block is passed over.
    Skipped,
    /// The fields were there, but no result could be built from them.
    Failed,
    /// The result of the block.
    Found(SearchResult),
}

/// A [`Block`] over plain sequences.
pub ghost enum BlockView {
    Skipped,
    Failed,
    Found(SearchResultView),
}

impl View for Block {
    type V = BlockView;

    open spec fn view(&self) -> BlockView {
        match self {
            Block::Skipped => BlockView::Skipped,
            Block::Failed => BlockView::Failed,
            Block::Found(result) => BlockView::Found(result@),
        }
    }
}

/// The results of a page after one more block: a skipped block changes
/// nothing, a found result is added at the end, and a failed block fails the
/// page, as does any block after a failure.
pub open spec fn with_block(results: Option<Seq<SearchResultView>>, block: BlockView) -> Option<
    Seq<SearchResultView>,
> {
    match results {
        None => None,
        Some(found) => match block {
            BlockView::Skipped => Some(found),
            BlockView::Failed => None,
            BlockView::Found(result) => Some(found.push(result)),
        },
    }
}

/// What a page parser returns for the results of the page's blocks: the
/// results, or `ParseFailed` where a block failed.
pub open spec fn page_outcome(
    results: Option<Seq<SearchResultView>>,
    r: Result<Vec<SearchResult>, EngineErrorType>,
) -> bool {
    match results {
        Some(found) => r is Ok && results_view(r->Ok_0@) == found,
        None => r is Err && r->Err_0@ == EngineErrorKind::ParseFailed,
    }
}

/// One of the engines that the service can ask.
pub enum Engine {
    Bing(Bing),
    DuckDuckGo(DuckDuckGo),
}

/// The page that a query asks for: page 1 where it names none.
pub open spec fn page_of(query: Query) -> u16 {
    match query.page {
        Some(page) => page,
        None => 1,
    }
}

impl Engine {
    /// The adapter is ready to parse pages.
    pub open spec fn well_formed(self) -> bool {
        match self {
            Engine::Bing(bing) => bing.well_formed(),
            Engine::DuckDuckGo(duckduckgo) => duckduckgo.well_formed(),
        }
    }

    /// The engine's name as spec.
    pub open spec fn name(self) -> Seq<char> {
        match self {
            Engine::Bing(_) => "Bing"@,
            Engine::DuckDuckGo(_) => "DuckDuckGo"@,
        }
    }

    /// The engine's name.
    pub fn get_name(&self) -> (name: String)
        ensures
            name@ == self.name(),
    {
        match self {
            Engine::Bing(bing) => bing.get_name(),
            Engine::DuckDuckGo(duckduckgo) => duckduckgo.get_name(),
        }
    }

    /// The request for one page of text results.
    pub open spec fn text_request_spec(self, page_idx: u16, query: Seq<char>) -> (
        Seq<char>,
        Seq<(Seq<char>, Seq<char>)>,
    ) {
        match self {
            Engine::Bing(_) => (
                bing::search_url(page_idx, query),
                browser_headers(bing::cookie()),
            ),
            Engine::DuckDuckGo(_) => (
                duckduckgo::search_url(page_idx, query),
                browser_headers(duckduckgo::cookie()),
            ),
        }
    }

    /// The request that asks this engine for page `page_idx` of the text
    /// results for `query`. Neither engine is asked to filter by time or by
    /// level of safety, so the request is the same whatever the two are.
    pub fn text_request(
        &self,
        page_idx: u16,
        query: &str,
        _relavancy: Option<Relavancy>,
        _safe_level: Option<SafeSearchLevel>,
    ) -> (request: Request)
        ensures
            (request.url@, headers_view(request.headers@)) == self.text_request_spec(
                page_idx,
                query@,
            ),
    {
        match self {
            Engine::Bing(_) => Request {
                url: Bing::text_search_url(page_idx, query),
                headers: Bing::headers(),
            },
            Engine::DuckDuckGo(_) => Request {
                url: DuckDuckGo::text_search_url(page_idx, query),
                headers: DuckDuckGo::headers(),
            },
        }
    }

    /// The request for a query: that for its text and page where it asks for
    /// text, none for the other kinds of query.
    pub fn request(&self, query: &Query) -> (request: Option<Request>)
        ensures
            request is Some == (query.qtype is Text),
            request is Some ==> (request->0.url@, headers_view(request->0.headers@))
                == self.text_request_spec(page_of(*query), query.text@),
    {
        match query.qtype {
            QueryType::Text => {
                let page_idx: u16 = match query.page {
                    Some(page) => page,
                    None => 1,
                };
                Some(
                    self.text_request(
                        page_idx,
                        query.text.as_str(),
                        query.relavancy,
                        query.safe_search_level,
                    ),
                )
            },
            _ => None,
        }
    }

    /// The results of a page as this engine's parser reads them.
    pub open spec fn text_results_spec(
        self,
        page: Seq<char>,
        r: Result<Vec<SearchResult>, EngineErrorType>,
    ) -> bool {
        match self {
            Engine::Bing(_) => bing::page_results(page, r),
            Engine::DuckDuckGo(_) => duckduckgo::page_results(page, r),
        }
    }

    /// Parses a page of text results that the engine answered with.
    pub fn parse_text_results(&self, page: &str) -> (r: Result<Vec<SearchResult>, EngineErrorType>)
        requires
            self.well_formed(),
        ensures
            self.text_results_spec(page@, r),
            r is Ok ==> all_sourced(results_view(r->Ok_0@)),
    {
        match self {
            Engine::Bing(bing) => bing.parse_text_results(page),
            Engine::DuckDuckGo(duckduckgo) => duckduckgo.parse_text_results(page),
        }
    }
}

/// All engines that the service knows, or `None` where one of them cannot be
/// set up.
pub fn get_engines() -> (engines: Option<Vec<Engine>>)
    ensures
        engines is Some == (bing::ready() && duckduckgo::ready()),
        engines is Some ==> {
            &&& engines->0@.len() == 2
            &&& engines->0@[0] is Bing
            &&& engines->0@[1] is DuckDuckGo
            &&& engines->0@[0].well_formed()
            &&& engines->0@[1].well_formed()
        },
{
    let bing = Bing::new();
    let duckduckgo = DuckDuckGo::new();
    match bing {
        Some(bing) => match duckduckgo {
            Some(duckduckgo) => {
                let mut engines: Vec<Engine> = Vec::new();
                engines.push(Engine::Bing(bing));
                engines.push(Engine::DuckDuckGo(duckduckgo));
                Some(engines)
            },
            None => None,
        },
        None => None,
    }
}

} // verus!
