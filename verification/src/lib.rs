//! Core of a metasearch service: request building and result-page parsing for
//! each upstream engine, classification of per-engine outcomes, and the merge
//! that ranks and deduplicates what the engines returned.
//!
//! Scores and score multipliers are fixed-point numbers counted in millionths:
//! the multiplier `1.0` is [`aggregator::UNIT_MULTIPLIER`].

use vstd::prelude::*;
use crate::aggregator::{deduplicated, ranked, Aggregator};
use crate::errors::{EngineError, EngineErrorKind, EngineErrorType};
use crate::handler::{errors_view, failures, successes, EngineHandler, TaskOutcome};
use crate::locator::{parsed_url, ParsedUrl, UrlParts};

pub mod aggregator;
pub mod codec;
pub mod config;
pub mod engines;
pub mod errors;
pub mod handler;
pub mod locator;
pub mod markup;
pub mod network;
pub mod pattern;
pub mod text;

verus! {

/// How strictly results are filtered.
#[derive(Debug, Clone, Copy, PartialEq, Eq)]
pub enum SafeSearchLevel {
    /// No filtering.
    Off,
    /// The engines are asked to filter.
    Medium,
    /// As `Medium`, with the service's own allow and block lists.
    High,
}

/// How recent the results should be.
#[derive(Debug, Clone, Copy, PartialEq, Eq)]
pub enum Relavancy {
    AnyTime,
    PastDay,
    PastWeek,
    PastMonth,
    PastYear,
}

/// The kind of document searched for.
#[derive(Debug, Clone, Copy, PartialEq, Eq)]
pub enum QueryType {
    Text,
    Image,
    File,
}

/// One search request.
#[derive(Debug, Clone)]
pub struct Query {
    pub text: String,
    pub qtype: QueryType,
    /// The page asked for, counted from 0.
    pub page: Option<u16>,
    /// Where `None`, the service's default level applies.
    pub safe_search_level: Option<SafeSearchLevel>,
    pub relavancy: Option<Relavancy>,
}

/// One result of a search.
#[derive(Debug, Clone)]
pub struct SearchResult {
    pub url: ParsedUrl,
    pub title: String,
    pub description: String,
    /// The score in millionths; 0 until the aggregator has scored the result.
    pub score: u128,
    /// The engines that returned this result.
    pub sources: Vec<String>,
}

/// A [`SearchResult`] over plain sequences.
pub ghost struct SearchResultView {
    pub url: UrlParts,
    pub title: Seq<char>,
    pub description: Seq<char>,
    pub score: nat,
    pub sources: Seq<Seq<char>>,
}

/// The characters of each string of a list.
pub open spec fn names_view(names: Seq<String>) -> Seq<Seq<char>> {
    names.map_values(|name: String| name@)
}

/// The view of each result of a list.
pub open spec fn results_view(results: Seq<SearchResult>) -> Seq<SearchResultView> {
    results.map_values(|result: SearchResult| result@)
}

/// The view of each list of a list of result lists.
pub open spec fn lists_view(lists: Seq<Vec<SearchResult>>) -> Seq<Seq<SearchResultView>> {
    lists.map_values(|list: Vec<SearchResult>| results_view(list@))
}

impl View for SearchResult {
    type V = SearchResultView;

    open spec fn view(&self) -> SearchResultView {
        SearchResultView {
            url: self.url@,
            title: self.title@,
            description: self.description@,
            score: self.score as nat,
            sources: names_view(self.sources@),
        }
    }
}

/// Two results are equal where they name the same target: host, path and
/// query of their URLs agree, whatever the scheme and the other fields.
impl PartialEq for SearchResult {
    fn eq(&self, other: &SearchResult) -> (r: bool) {
        self.url.same_target(&other.url)
    }
}

impl vstd::std_specs::cmp::PartialEqSpecImpl for SearchResult {
    open spec fn obeys_eq_spec() -> bool {
        true
    }

    open spec fn eq_spec(&self, other: &SearchResult) -> bool {
        self@.url.key() == other@.url.key()
    }
}

/// The unscored result with the given fields and a single source.
pub open spec fn fresh_result(
    url: UrlParts,
    title: Seq<char>,
    description: Seq<char>,
    source: Seq<char>,
) -> SearchResultView {
    SearchResultView { url, title, description, score: 0, sources: seq![source] }
}

impl SearchResult {
    /// A result carries at least one source.
    pub open spec fn well_formed(self) -> bool {
        self.sources@.len() >= 1
    }

    /// Whether the result names a source, as every result must.
    pub fn has_source(&self) -> (r: bool)
        ensures
            r == self.well_formed(),
    {
        self.sources.len() >= 1
    }

    /// Builds an unscored result from a URL that may have failed to parse:
    /// without a URL the result is `ParseFailed`.
    pub fn with_url(url: Option<ParsedUrl>, title: &str, description: &str, source: &str) -> (r:
        Result<SearchResult, EngineErrorType>)
        ensures
            url is None ==> r is Err && r->Err_0@ == EngineErrorKind::ParseFailed,
            url is Some ==> r is Ok && r->Ok_0.well_formed() && r->Ok_0@ == fresh_result(
                url->0@,
                title@,
                description@,
                source@,
            ),
    {
        match url {
            Some(url) => {
                let mut sources: Vec<String> = Vec::new();
                sources.push(source.to_owned());
                assert(names_view(sources@) =~= seq![source@]);
                Ok(
                    SearchResult {
                        url,
                        title: title.to_owned(),
                        description: description.to_owned(),
                        score: 0,
                        sources,
                    },
                )
            },
            None => Err(EngineErrorType::ParseFailed),
        }
    }

    /// Builds an unscored result for the URL written in `url`, or fails with
    /// `ParseFailed` where that text is no URL.
    pub fn new(url: &str, title: &str, description: &str, source: &str) -> (r: Result<
        SearchResult,
        EngineErrorType,
    >)
        ensures
            parsed_url(url@) is None ==> r is Err && r->Err_0@ == EngineErrorKind::ParseFailed,
            parsed_url(url@) is Some ==> r is Ok && r->Ok_0.well_formed() && r->Ok_0@
                == fresh_result(parsed_url(url@)->0, title@, description@, source@),
    {
        SearchResult::with_url(ParsedUrl::parse(url), title, description, source)
    }

    /// Whether two results name the same target: host, path and query of
    /// their URLs agree, whatever the scheme.
    pub fn same_target(&self, other: &SearchResult) -> (r: bool)
        ensures
            r == (self@.url.key() == other@.url.key()),
    {
        self.url.same_target(&other.url)
    }
}

/// What a search returns: the ranked results and the failures of the engines
/// that gave none.
#[derive(Debug)]
pub struct QueryResult {
    pub results: Vec<SearchResult>,
    pub errors: Vec<EngineError>,
}

/// The service: the selected engines, the aggregator and the default level
/// of filtering.
pub struct Handler {
    aggregator: Aggregator,
    engine_handler: EngineHandler,
    safe_search_level: SafeSearchLevel,
}

impl Handler {
    /// The multiplier table of the aggregator.
    pub closed spec fn multipliers(self) -> Seq<(Seq<char>, u32)> {
        self.aggregator.table()
    }

    /// The selected engines.
    pub closed spec fn engine_handler_spec(self) -> EngineHandler {
        self.engine_handler
    }

    /// The level of filtering for queries that name none.
    pub closed spec fn default_level(self) -> SafeSearchLevel {
        self.safe_search_level
    }

    /// Sets the service up from its configuration: the multipliers in
    /// millionths, the names of the engines to ask, and the default level of
    /// filtering. `None` where the engines cannot be set up.
    pub fn new(
        engine_score_multipliers: Vec<(String, u32)>,
        engines: &Vec<String>,
        safe_search_level: SafeSearchLevel,
    ) -> (r: Option<Handler>)
        ensures
            r is Some == (engines::bing::ready() && engines::duckduckgo::ready()),
            r is Some ==> {
                &&& r->0.multipliers() == aggregator::table_view(engine_score_multipliers@)
                &&& r->0.default_level() == safe_search_level
                &&& handler::all_well_formed(r->0.engine_handler_spec().selection())
                &&& handler::engine_names(r->0.engine_handler_spec().selection())
                    == handler::selected(names_view(engines@), engines@.len())
            },
    {
        let aggregator = Aggregator::new(engine_score_multipliers);
        match EngineHandler::new(engines) {
            Some(engine_handler) => Some(Handler { aggregator, engine_handler, safe_search_level }),
            None => None,
        }
    }

    /// The selected engines.
    pub fn engine_handler(&self) -> (handler: &EngineHandler)
        ensures
            *handler == self.engine_handler_spec(),
    {
        &self.engine_handler
    }

    /// The query as the engines are to see it: a query that names no level
    /// of filtering gets the default one, and nothing else changes.
    pub fn prepare(&self, query: Query) -> (prepared: Query)
        ensures
            prepared.safe_search_level == Some(
                match query.safe_search_level {
                    Some(level) => level,
                    None => self.default_level(),
                },
            ),
            prepared.text == query.text,
            prepared.qtype == query.qtype,
            prepared.page == query.page,
            prepared.relavancy == query.relavancy,
    {
        let mut prepared = query;
        if prepared.safe_search_level.is_none() {
            prepared.safe_search_level = Some(self.safe_search_level);
        }
        prepared
    }

    /// What the search returns once every task has ended: the results of the
    /// engines that returned some, merged and ranked, and the failures of the
    /// others.
    pub fn search(&self, outcomes: Vec<TaskOutcome>) -> (r: QueryResult)
        requires
            handler::outcomes_sourced(outcomes@),
        ensures
            results_view(r.results@) == ranked(
                deduplicated(self.multipliers(), successes(outcomes@, outcomes@.len())),
            ),
            errors_view(r.errors@) == failures(outcomes@, outcomes@.len()),
    {
        proof {
            handler::lemma_successes_sourced(outcomes@, outcomes@.len());
        }
        let (raw_results, errors) = EngineHandler::search(outcomes);
        let results = self.aggregator.process(raw_results);
        QueryResult { results, errors }
    }
}

} // verus!
