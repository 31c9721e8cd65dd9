use metasearch::engines::duckduckgo::DuckDuckGo;
use metasearch::errors::{EngineError, EngineErrorType, NetworkError};
use metasearch::handler::{EngineHandler, TaskOutcome};
use metasearch::{Handler, Query, QueryType, SafeSearchLevel, SearchResult};

fn result(url: &str, title: &str, source: &str) -> SearchResult {
    SearchResult::new(url, title, "", source).unwrap()
}

fn finished(engine: &str, result: Result<Vec<SearchResult>, EngineErrorType>) -> TaskOutcome {
    TaskOutcome::Finished { engine: engine.to_string(), result }
}

fn names(handler: &EngineHandler) -> Vec<String> {
    handler.engines().iter().map(|e| e.get_name()).collect()
}

#[test]
fn configured_names_select_engines() {
    let configured = vec![
        "bing".to_string(),
        "DuckDuckGo".to_string(),
        "mojeek".to_string(),
        "BING".to_string(),
        "".to_string(),
    ];
    let handler = EngineHandler::new(&configured).unwrap();
    assert_eq!(names(&handler), vec!["Bing", "DuckDuckGo", "Bing"]);
    let none = EngineHandler::new(&Vec::new()).unwrap();
    assert!(none.engines().is_empty());
}

#[test]
fn empty_list_without_sentinel_is_one_no_results_error() {
    let duckduckgo = DuckDuckGo::new().unwrap();
    let parsed = duckduckgo.parse_text_results("<html><body><p>layout changed</p></body></html>");
    assert_eq!(parsed.as_ref().map(|r| r.len()), Ok(0));
    let (lists, errors) = EngineHandler::search(vec![finished("DuckDuckGo", parsed)]);
    assert!(lists.is_empty());
    assert_eq!(
        errors,
        vec![EngineError { engine: "DuckDuckGo".to_string(), source: EngineErrorType::NoResults }]
    );
}

#[test]
fn classify_each_kind_of_outcome() {
    let ok = EngineHandler::classify(finished("Bing", Ok(vec![result("https://a.example/", "A", "Bing")])));
    assert_eq!(ok.map(|r| r.len()).unwrap(), 1);
    let empty = EngineHandler::classify(finished("Bing", Ok(Vec::new())));
    assert_eq!(
        empty.err(),
        Some(EngineError { engine: "Bing".to_string(), source: EngineErrorType::NoResults })
    );
    let failed = EngineHandler::classify(finished("Bing", Err(EngineErrorType::Ratelimited)));
    assert_eq!(
        failed.err(),
        Some(EngineError { engine: "Bing".to_string(), source: EngineErrorType::Ratelimited })
    );
    let aborted = EngineHandler::classify(TaskOutcome::Aborted);
    assert_eq!(
        aborted.err(),
        Some(EngineError { engine: String::new(), source: EngineErrorType::ExecFailed })
    );
}

#[test]
fn outcomes_are_sorted_in_order() {
    let timeout = EngineErrorType::Network(NetworkError::ConnectionTimeout("www.bing.com".to_string()));
    let (lists, errors) = EngineHandler::search(vec![
        finished("DuckDuckGo", Ok(vec![result("https://d.example/", "D", "DuckDuckGo")])),
        finished("Bing", Err(timeout.clone())),
        TaskOutcome::Aborted,
        finished("Mojeek", Ok(Vec::new())),
        finished("Bing", Ok(vec![
            result("https://a.example/", "A", "Bing"),
            result("https://b.example/", "B", "Bing"),
        ])),
    ]);
    assert_eq!(lists.len(), 2);
    assert_eq!(lists[0].len(), 1);
    assert_eq!(lists[0][0].title, "D");
    assert_eq!(lists[1].len(), 2);
    assert_eq!(
        errors,
        vec![
            EngineError { engine: "Bing".to_string(), source: timeout },
            EngineError { engine: String::new(), source: EngineErrorType::ExecFailed },
            EngineError { engine: "Mojeek".to_string(), source: EngineErrorType::NoResults },
        ]
    );
}

#[test]
fn no_outcomes_give_nothing() {
    let (lists, errors) = EngineHandler::search(Vec::new());
    assert!(lists.is_empty());
    assert!(errors.is_empty());
}

#[test]
fn search_merges_results_and_reports_failures() {
    let handler = Handler::new(
        vec![("Bing".to_string(), 1_000_000), ("DuckDuckGo".to_string(), 800_000)],
        &vec!["Bing".to_string(), "DuckDuckGo".to_string()],
        SafeSearchLevel::Medium,
    )
    .unwrap();
    assert_eq!(handler.engine_handler().engines().len(), 2);
    let out = handler.search(vec![
        finished("Bing", Ok(vec![
            result("https://r1.example/", "R1", "Bing"),
            result("https://r2.example/", "R2", "Bing"),
            result("https://r3.example/", "R3", "Bing"),
        ])),
        finished("DuckDuckGo", Ok(vec![
            result("https://r1.example/", "R1", "DuckDuckGo"),
            result("https://d2.example/", "D2", "DuckDuckGo"),
        ])),
        finished("Mojeek", Err(EngineErrorType::ParseFailed)),
    ]);
    let titles: Vec<&str> = out.results.iter().map(|r| r.title.as_str()).collect();
    assert_eq!(titles, vec!["R1", "R2", "D2", "R3"]);
    assert_eq!(out.results[0].score, 1_800_000);
    assert_eq!(
        out.errors,
        vec![EngineError { engine: "Mojeek".to_string(), source: EngineErrorType::ParseFailed }]
    );
}

#[test]
fn search_without_successes_returns_the_errors() {
    let handler = Handler::new(Vec::new(), &Vec::new(), SafeSearchLevel::Off).unwrap();
    let out = handler.search(vec![
        finished("Bing", Err(EngineErrorType::NoResults)),
        finished("DuckDuckGo", Ok(Vec::new())),
    ]);
    assert!(out.results.is_empty());
    assert_eq!(out.errors.len(), 2);
}

#[test]
fn query_without_level_gets_the_default() {
    let handler = Handler::new(Vec::new(), &Vec::new(), SafeSearchLevel::High).unwrap();
    let query = Query {
        text: "q".to_string(),
        qtype: QueryType::Text,
        page: Some(3),
        safe_search_level: None,
        relavancy: None,
    };
    let prepared = handler.prepare(query);
    assert_eq!(prepared.safe_search_level, Some(SafeSearchLevel::High));
    assert_eq!(prepared.text, "q");
    assert_eq!(prepared.page, Some(3));
    let query = Query {
        text: "q".to_string(),
        qtype: QueryType::Text,
        page: None,
        safe_search_level: Some(SafeSearchLevel::Off),
        relavancy: None,
    };
    assert_eq!(handler.prepare(query).safe_search_level, Some(SafeSearchLevel::Off));
}
