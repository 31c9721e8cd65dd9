use metasearch::aggregator::{absorb_into, rank, Aggregator, UNIT_MULTIPLIER};
use metasearch::SearchResult;

fn result(url: &str, title: &str, source: &str) -> SearchResult {
    SearchResult::new(url, title, "", source).unwrap()
}

fn table() -> Vec<(String, u32)> {
    vec![("Bing".to_string(), 1_000_000), ("DuckDuckGo".to_string(), 800_000)]
}

fn close(score: u128, expected: f64) -> bool {
    (score as f64 / 1_000_000.0 - expected).abs() < 0.001
}

#[test]
fn empty_input_gives_empty_output() {
    let aggregator = Aggregator::new(Vec::new());
    assert!(aggregator.process(Vec::new()).is_empty());
}

#[test]
fn two_engines_merge_and_rank() {
    let aggregator = Aggregator::new(table());
    let bing = vec![
        result("https://r1.example/", "R1", "Bing"),
        result("https://r2.example/", "R2", "Bing"),
        result("https://r3.example/", "R3", "Bing"),
    ];
    let duckduckgo = vec![
        result("https://r1.example/", "R1", "DuckDuckGo"),
        result("https://d2.example/", "D2", "DuckDuckGo"),
    ];
    let out = aggregator.process(vec![bing, duckduckgo]);
    let titles: Vec<&str> = out.iter().map(|r| r.title.as_str()).collect();
    assert_eq!(titles, vec!["R1", "R2", "D2", "R3"]);
    assert_eq!(out[0].score, 1_800_000);
    assert!(close(out[0].score, 1.8));
    assert!(close(out[1].score, 0.667));
    assert!(close(out[2].score, 0.4));
    assert!(close(out[3].score, 0.333));
    assert_eq!(out[1].score, 666_666);
    assert_eq!(out[2].score, 400_000);
    assert_eq!(out[3].score, 333_333);
    assert_eq!(out[0].sources, vec!["Bing".to_string(), "DuckDuckGo".to_string()]);
    assert_eq!(out[1].sources, vec!["Bing".to_string()]);
    assert_eq!(out[2].sources, vec!["DuckDuckGo".to_string()]);
}

#[test]
fn first_result_weighs_the_multiplier() {
    let aggregator = Aggregator::new(table());
    let item = result("https://a.example/", "A", "DuckDuckGo");
    assert_eq!(aggregator.score_result(&item, 5, 5), 800_000);
    assert_eq!(aggregator.score_result(&item, 1, 1), 800_000);
}

#[test]
fn weights_fall_with_relevance() {
    let aggregator = Aggregator::new(table());
    let item = result("https://a.example/", "A", "Bing");
    let total = 7;
    let mut last = aggregator.score_result(&item, total, total);
    assert_eq!(last, 1_000_000);
    for position in (1..total).rev() {
        let w = aggregator.score_result(&item, position, total);
        assert!(w <= last);
        last = w;
    }
    assert_eq!(last, 142_857);
}

#[test]
fn weight_is_position_over_length() {
    let aggregator = Aggregator::new(table());
    let item = result("https://a.example/", "A", "DuckDuckGo");
    assert_eq!(aggregator.score_result(&item, 1, 2), 400_000);
    assert_eq!(aggregator.score_result(&item, 2, 3), 533_333);
    assert_eq!(aggregator.score_result(&item, 1, 4), 200_000);
}

#[test]
fn scheme_does_not_tell_results_apart() {
    let aggregator = Aggregator::new(table());
    let plain = result("http://x.com/a?b", "plain", "Bing");
    let secure = result("https://x.com/a?b", "secure", "DuckDuckGo");
    assert!(plain.same_target(&secure));
    let out = aggregator.process(vec![vec![plain], vec![secure]]);
    assert_eq!(out.len(), 1);
    assert_eq!(out[0].score, 1_800_000);
    assert_eq!(out[0].title, "plain");
    assert_eq!(out[0].url.href, "http://x.com/a?b");
    assert_eq!(out[0].sources, vec!["Bing".to_string(), "DuckDuckGo".to_string()]);
}

#[test]
fn host_path_and_query_tell_results_apart() {
    let base = result("https://x.com/a?b", "", "Bing");
    assert!(!base.same_target(&result("https://y.com/a?b", "", "Bing")));
    assert!(!base.same_target(&result("https://x.com/c?b", "", "Bing")));
    assert!(!base.same_target(&result("https://x.com/a?d", "", "Bing")));
    assert!(!base.same_target(&result("https://x.com/a", "", "Bing")));
    assert!(base.same_target(&result("https://x.com/a?b#fragment", "", "Bing")));
    let aggregator = Aggregator::new(table());
    let out = aggregator.process(vec![
        vec![result("https://x.com/a?b", "", "Bing")],
        vec![result("https://x.com/a?d", "", "Bing")],
    ]);
    assert_eq!(out.len(), 2);
}

#[test]
fn unknown_engine_has_multiplier_one() {
    let aggregator = Aggregator::new(table());
    assert_eq!(aggregator.multiplier("Mojeek"), UNIT_MULTIPLIER);
    assert_eq!(aggregator.multiplier("Mojeek"), 1_000_000);
    assert_eq!(aggregator.multiplier("DuckDuckGo"), 800_000);
    assert_eq!(aggregator.multiplier("duckduckgo"), 1_000_000);
    let item = result("https://a.example/", "A", "Mojeek");
    let out = aggregator.process(vec![vec![item]]);
    assert_eq!(out.len(), 1);
    assert_eq!(out[0].score, 1_000_000);
    let empty = Aggregator::new(Vec::new());
    assert_eq!(empty.multiplier("Bing"), 1_000_000);
}

#[test]
fn first_entry_of_the_table_counts() {
    let aggregator = Aggregator::new(vec![
        ("Bing".to_string(), 500_000),
        ("Bing".to_string(), 700_000),
    ]);
    assert_eq!(aggregator.multiplier("Bing"), 500_000);
}

#[test]
fn result_without_sources_is_scored_with_one() {
    let aggregator = Aggregator::new(table());
    let mut item = result("https://a.example/", "A", "DuckDuckGo");
    item.sources.clear();
    assert_eq!(aggregator.score_result(&item, 1, 2), 500_000);
}

#[test]
fn duplicates_in_one_list_add_up_and_repeat_the_source() {
    let aggregator = Aggregator::new(table());
    let out = aggregator.process(vec![vec![
        result("https://a.example/", "first", "Bing"),
        result("https://a.example/", "second", "Bing"),
    ]]);
    assert_eq!(out.len(), 1);
    assert_eq!(out[0].score, 1_500_000);
    assert_eq!(out[0].title, "second");
    assert_eq!(out[0].sources, vec!["Bing".to_string(), "Bing".to_string()]);
}

#[test]
fn equal_scores_keep_the_order_of_first_meeting() {
    let aggregator = Aggregator::new(table());
    let out = aggregator.process(vec![
        vec![result("https://a.example/", "A", "Bing")],
        vec![result("https://b.example/", "B", "Bing")],
        vec![result("https://c.example/", "C", "DuckDuckGo")],
        vec![result("https://d.example/", "D", "Bing")],
    ]);
    let titles: Vec<&str> = out.iter().map(|r| r.title.as_str()).collect();
    assert_eq!(titles, vec!["A", "B", "D", "C"]);
}

#[test]
fn rank_orders_by_falling_score() {
    let mut items = Vec::new();
    for (i, score) in [3u128, 9, 1, 9, 4].iter().enumerate() {
        let mut item = result(&format!("https://h{}.example/", i), &format!("{}", i), "Bing");
        item.score = *score;
        items.push(item);
    }
    let out = rank(items);
    let titles: Vec<&str> = out.iter().map(|r| r.title.as_str()).collect();
    assert_eq!(titles, vec!["1", "3", "4", "0", "2"]);
}

#[test]
fn absorb_adds_new_targets_at_the_end() {
    let mut merged = Vec::new();
    absorb_into(&mut merged, result("https://a.example/", "A", "Bing"), 10);
    absorb_into(&mut merged, result("https://b.example/", "B", "Bing"), 20);
    absorb_into(&mut merged, result("http://a.example/", "A2", "DuckDuckGo"), 5);
    assert_eq!(merged.len(), 2);
    assert_eq!(merged[0].score, 15);
    assert_eq!(merged[0].title, "A");
    assert_eq!(merged[1].score, 20);
}

#[test]
fn many_occurrences_add_up_exactly() {
    let aggregator = Aggregator::new(vec![("Bing".to_string(), u32::MAX)]);
    let mut lists = Vec::new();
    for _ in 0..5 {
        lists.push(vec![result("https://a.example/", "A", "Bing")]);
    }
    let out = aggregator.process(lists);
    assert_eq!(out.len(), 1);
    assert_eq!(out[0].score, 5 * (u32::MAX as u128));
    assert_eq!(out[0].sources.len(), 5);
}
