//! Merging the engines' result lists into one ranked list without duplicates.
//!
//! Each list is scored by position: counted from its end, the result at
//! position `p` of a list of `L` results weighs `p / L` times the multiplier of
//! the engine it came from. Results with the same host, path and query are one
//! result, whose score is the sum of the weights and whose sources are those
//! of all its occurrences. The merged results are ordered by falling score;
//! results of equal score stay in the order in which they were first met.

use vstd::prelude::*;
use crate::locator::UrlKey;
use crate::text::same_text;
use crate::{lists_view, names_view, results_view, SearchResult, SearchResultView};

verus! {

/// The multiplier `1.0`, in millionths.
pub const UNIT_MULTIPLIER: u32 = 1_000_000;

/// The largest multiplier, and so the largest weight of one occurrence.
pub const MAX_MULTIPLIER: u32 = 0xFFFF_FFFF;

/// The engine names and multipliers of a table over plain sequences.
pub open spec fn table_view(table: Seq<(String, u32)>) -> Seq<(Seq<char>, u32)> {
    table.map_values(|entry: (String, u32)| (entry.0@, entry.1))
}

/// The multiplier of the first entry for `engine` at or after `from`, or
/// [`UNIT_MULTIPLIER`] where there is none.
pub open spec fn multiplier_from(table: Seq<(Seq<char>, u32)>, engine: Seq<char>, from: int) -> u32
    decreases table.len() - from,
{
    if from < 0 || from >= table.len() {
        UNIT_MULTIPLIER
    } else if table[from].0 == engine {
        table[from].1
    } else {
        multiplier_from(table, engine, from + 1)
    }
}

/// The multiplier configured for `engine`, or [`UNIT_MULTIPLIER`] where the
/// table does not name it.
pub open spec fn multiplier_of(table: Seq<(Seq<char>, u32)>, engine: Seq<char>) -> u32 {
    multiplier_from(table, engine, 0)
}

/// Whether the table names `engine`.
pub open spec fn names_engine(table: Seq<(Seq<char>, u32)>, engine: Seq<char>) -> bool {
    exists|i: int| 0 <= i < table.len() && (#[trigger] table[i]).0 == engine
}

/// The multiplier under which a result is scored: that of the engine named
/// last among its sources, or `1.0` for a result that names none.
pub open spec fn origin_multiplier(table: Seq<(Seq<char>, u32)>, item: SearchResultView) -> u32 {
    if item.sources.len() == 0 {
        UNIT_MULTIPLIER
    } else {
        multiplier_of(table, item.sources.last())
    }
}

/// The weight of the result at `position`, counted from 1 at the end of a
/// list of `total` results.
pub open spec fn weight(multiplier: u32, position: nat, total: nat) -> nat {
    if total == 0 {
        0
    } else {
        (multiplier as nat * position) / total
    }
}

/// The index of the first result at or after `from` with the given key, or
/// the length of `merged` where there is none.
pub open spec fn position_from(merged: Seq<SearchResultView>, key: UrlKey, from: int) -> int
    decreases merged.len() - from,
{
    if from < 0 || from >= merged.len() {
        merged.len() as int
    } else if merged[from].url.key() == key {
        from
    } else {
        position_from(merged, key, from + 1)
    }
}

/// The merged list after one more occurrence: a known target gains the
/// weight and the sources, a new one is added at the end with the weight as
/// its score.
pub open spec fn absorb(merged: Seq<SearchResultView>, item: SearchResultView, w: nat) -> Seq<
    SearchResultView,
> {
    let at = position_from(merged, item.url.key(), 0);
    if at < merged.len() {
        merged.update(
            at,
            SearchResultView {
                score: merged[at].score + w,
                sources: merged[at].sources + item.sources,
                ..merged[at]
            },
        )
    } else {
        merged.push(SearchResultView { score: w, ..item })
    }
}

/// No score is larger than the sum of as many largest weights as the result
/// names sources. Merged lists keep to this, so their scores cannot overflow.
pub open spec fn scores_bounded(results: Seq<SearchResultView>) -> bool {
    forall|i: int|
        0 <= i < results.len() ==> (#[trigger] results[i]).score <= results[i].sources.len()
            * MAX_MULTIPLIER
}

/// Every result of the list names at least one source.
pub open spec fn all_sourced(results: Seq<SearchResultView>) -> bool {
    forall|i: int| 0 <= i < results.len() ==> (#[trigger] results[i]).sources.len() >= 1
}

/// Every result of every list names at least one source.
pub open spec fn lists_sourced(lists: Seq<Seq<SearchResultView>>) -> bool {
    forall|i: int| 0 <= i < lists.len() ==> all_sourced(#[trigger] lists[i])
}

/// The merged list after the last `count` results of `list`, taken from the
/// end of the list towards its start.
pub open spec fn absorb_list(
    table: Seq<(Seq<char>, u32)>,
    merged: Seq<SearchResultView>,
    list: Seq<SearchResultView>,
    count: nat,
) -> Seq<SearchResultView>
    decreases count,
{
    if count == 0 || count > list.len() {
        merged
    } else {
        let item = list[list.len() - count];
        absorb(
            absorb_list(table, merged, list, (count - 1) as nat),
            item,
            weight(origin_multiplier(table, item), count, list.len()),
        )
    }
}

/// The merged list after the first `count` lists.
pub open spec fn absorb_lists(
    table: Seq<(Seq<char>, u32)>,
    lists: Seq<Seq<SearchResultView>>,
    count: nat,
) -> Seq<SearchResultView>
    decreases count,
{
    if count == 0 || count > lists.len() {
        Seq::empty()
    } else {
        absorb_list(
            table,
            absorb_lists(table, lists, (count - 1) as nat),
            lists[count - 1],
            lists[count - 1].len(),
        )
    }
}

/// All lists merged, in the order in which the targets were first met.
pub open spec fn deduplicated(table: Seq<(Seq<char>, u32)>, lists: Seq<Seq<SearchResultView>>) -> Seq<
    SearchResultView,
> {
    absorb_lists(table, lists, lists.len())
}

/// `item` put into a list ordered by falling score, behind every result whose
/// score is not smaller.
pub open spec fn insert_ranked(ranked: Seq<SearchResultView>, item: SearchResultView) -> Seq<
    SearchResultView,
>
    decreases ranked.len(),
{
    if ranked.len() == 0 {
        seq![item]
    } else if ranked.last().score >= item.score {
        ranked.push(item)
    } else {
        insert_ranked(ranked.drop_last(), item).push(ranked.last())
    }
}

/// The results ordered by falling score; results of equal score keep their
/// order.
pub open spec fn ranked(results: Seq<SearchResultView>) -> Seq<SearchResultView>
    decreases results.len(),
{
    if results.len() == 0 {
        Seq::empty()
    } else {
        insert_ranked(ranked(results.drop_last()), results.last())
    }
}

/// Scores, merges and ranks the results of the engines.
#[derive(Debug)]
pub struct Aggregator {
    score_multipliers: Vec<(String, u32)>,
}

impl Aggregator {
    /// The multiplier table: engine names with their multipliers in
    /// millionths.
    pub closed spec fn table(self) -> Seq<(Seq<char>, u32)> {
        table_view(self.score_multipliers@)
    }

    /// An aggregator with the given multipliers, in millionths. Of two
    /// entries for one engine the first counts.
    pub fn new(score_multipliers: Vec<(String, u32)>) -> (aggregator: Aggregator)
        ensures
            aggregator.table() == table_view(score_multipliers@),
    {
        Aggregator { score_multipliers }
    }

    /// The multiplier of `engine`: the configured one, or `1.0` for an engine
    /// that the table does not name.
    pub fn multiplier(&self, engine: &str) -> (m: u32)
        ensures
            m == multiplier_of(self.table(), engine@),
            !names_engine(self.table(), engine@) ==> m == UNIT_MULTIPLIER,
    {
        let mut i: usize = 0;
        while i < self.score_multipliers.len()
            invariant
                i <= self.score_multipliers.len(),
                multiplier_of(self.table(), engine@) == multiplier_from(
                    self.table(),
                    engine@,
                    i as int,
                ),
                forall|j: int| 0 <= j < i ==> (#[trigger] self.table()[j]).0 != engine@,
            decreases self.score_multipliers.len() - i,
        {
            if same_text(self.score_multipliers[i].0.as_str(), engine) {
                return self.score_multipliers[i].1;
            }
            i += 1;
        }
        UNIT_MULTIPLIER
    }

    /// The weight of `result` at `position`, counted from 1 at the end of a
    /// list of `total` results: the multiplier of its engine times
    /// `position / total`, rounded down to a millionth.
    pub fn score_result(&self, result: &SearchResult, position: usize, total: usize) -> (w: u64)
        requires
            1 <= position <= total,
        ensures
            w == weight(origin_multiplier(self.table(), result@), position as nat, total as nat),
            w <= origin_multiplier(self.table(), result@),
            w <= MAX_MULTIPLIER,
    {
        let count = result.sources.len();
        let multiplier: u32 = if count == 0 {
            UNIT_MULTIPLIER
        } else {
            self.multiplier(result.sources[count - 1].as_str())
        };
        proof {
            lemma_weight_bounds(multiplier, position as nat, total as nat);
            assert(multiplier as nat * position as nat <= 0xFFFF_FFFF * 0xFFFF_FFFF_FFFF_FFFF)
                by (nonlinear_arith)
                requires
                    multiplier <= 0xFFFF_FFFF,
                    position <= 0xFFFF_FFFF_FFFF_FFFF,
            ;
        }
        let scaled: u128 = (multiplier as u128) * (position as u128);
        (scaled / (total as u128)) as u64
    }

    /// Scores the results of each list by position, merges results with the
    /// same host, path and query, and orders what is left by falling score.
    /// Every result given names its engine.
    pub fn process(&self, raw_results: Vec<Vec<SearchResult>>) -> (out: Vec<SearchResult>)
        requires
            lists_sourced(lists_view(raw_results@)),
        ensures
            results_view(out@) == ranked(deduplicated(self.table(), lists_view(raw_results@))),
            scores_fall(results_view(out@)),
            results_view(out@).to_multiset() == deduplicated(
                self.table(),
                lists_view(raw_results@),
            ).to_multiset(),
            targets_differ(deduplicated(self.table(), lists_view(raw_results@))),
    {
        let ghost lists = lists_view(raw_results@);
        let ghost raw = raw_results@;
        let mut merged: Vec<SearchResult> = Vec::new();
        assert(results_view(merged@) =~= Seq::empty());
        for results in it: raw_results
            invariant
                it.seq() == raw,
                lists == lists_view(raw),
                lists_sourced(lists),
                scores_bounded(results_view(merged@)),
                results_view(merged@) == absorb_lists(self.table(), lists, it.index() as nat),
        {
            assert(lists[it.index() as int] == results_view(results@));
            self.merge_list(&mut merged, results);
        }
        proof {
            lemma_ranked_is_sorted(results_view(merged@));
            lemma_deduplicated_targets_differ(self.table(), lists);
        }
        rank(merged)
    }

    /// Merges one list into `merged`, from its last result to its first.
    pub fn merge_list(&self, merged: &mut Vec<SearchResult>, results: Vec<SearchResult>)
        requires
            scores_bounded(results_view(old(merged)@)),
            all_sourced(results_view(results@)),
        ensures
            results_view(final(merged)@) == absorb_list(
                self.table(),
                results_view(old(merged)@),
                results_view(results@),
                results@.len(),
            ),
            scores_bounded(results_view(final(merged)@)),
    {
        let ghost list = results_view(results@);
        let total = results.len();
        let mut rest = results;
        let mut done: usize = 0;
        while done < total
            invariant
                done <= total,
                total == list.len(),
                rest@.len() == total - done,
                results_view(rest@) == list.subrange(0, total - done),
                all_sourced(list),
                scores_bounded(results_view(merged@)),
                results_view(merged@) == absorb_list(
                    self.table(),
                    results_view(old(merged)@),
                    list,
                    done as nat,
                ),
            decreases total - done,
        {
            let ghost before = results_view(rest@);
            let popped = rest.pop();
            match popped {
                Some(item) => {
                    done += 1;
                    assert(item@ == before[total - done]);
                    assert(item@ == list[total - done]);
                    assert(results_view(rest@) =~= list.subrange(0, total - done));
                    let w = self.score_result(&item, done, total);
                    absorb_into(merged, item, w);
                },
                None => {
                    assert(false);
                },
            }
        }
    }
}

/// The weight of the last position is the multiplier itself, and no weight
/// is larger.
pub proof fn lemma_weight_bounds(multiplier: u32, position: nat, total: nat)
    requires
        1 <= position <= total,
    ensures
        weight(multiplier, position, total) <= multiplier,
        weight(multiplier, total, total) == multiplier,
{
    let m = multiplier as nat;
    assert((m * position) / total <= m) by (nonlinear_arith)
        requires
            1 <= position <= total,
    ;
    assert((m * total) / total == m) by (nonlinear_arith)
        requires
            1 <= total,
    ;
}

/// Merges one occurrence of a result, with its weight, into `merged`.
pub fn absorb_into(merged: &mut Vec<SearchResult>, item: SearchResult, w: u64)
    requires
        scores_bounded(results_view(old(merged)@)),
        item.sources@.len() >= 1,
        w <= MAX_MULTIPLIER,
    ensures
        results_view(final(merged)@) == absorb(results_view(old(merged)@), item@, w as nat),
        scores_bounded(results_view(final(merged)@)),
{
    let ghost before = results_view(merged@);
    let ghost incoming = item@;
    let ghost key = item@.url.key();
    let mut at: usize = 0;
    let mut found = false;
    while at < merged.len() && !found
        invariant
            at <= merged.len(),
            results_view(merged@) == before,
            merged@ == old(merged)@,
            key == item@.url.key(),
            !found ==> position_from(before, key, 0) == position_from(before, key, at as int),
            found ==> at < merged.len() && position_from(before, key, 0) == at,
        decreases merged.len() - at + (if found { 0int } else { 1int }),
    {
        assert(before[at as int] == merged@[at as int]@);
        if merged[at].same_target(&item) {
            found = true;
        } else {
            at += 1;
        }
    }
    if found {
        let mut known = merged.remove(at);
        let mut item = item;
        let ghost had = names_view(known.sources@);
        assert(known@ == before[at as int]);
        let had_count = known.sources.len();
        let new_count = item.sources.len();
        assert(known.score + w <= (had_count + new_count) * MAX_MULTIPLIER) by (nonlinear_arith)
            requires
                known.score <= had_count * MAX_MULTIPLIER,
                w <= MAX_MULTIPLIER,
                new_count >= 1,
        ;
        assert((had_count + new_count) * MAX_MULTIPLIER <= 0x2_0000_0000_0000_0000 * 0xFFFF_FFFF)
            by (nonlinear_arith)
            requires
                had_count + new_count <= 0x2_0000_0000_0000_0000,
                MAX_MULTIPLIER == 0xFFFF_FFFF,
        ;
        known.score = known.score + w as u128;
        known.sources.append(&mut item.sources);
        assert(names_view(known.sources@) =~= had + incoming.sources);
        merged.insert(at, known);
        assert(results_view(merged@) =~= absorb(before, incoming, w as nat));
        assert forall|i: int| 0 <= i < merged@.len() implies (#[trigger] results_view(
            merged@,
        )[i]).score <= results_view(merged@)[i].sources.len() * MAX_MULTIPLIER by {
            if i != at {
                assert(results_view(merged@)[i] == before[i]);
            }
        }
    } else {
        let mut item = item;
        item.score = w as u128;
        merged.push(item);
        assert(results_view(merged@) =~= absorb(before, incoming, w as nat));
        assert forall|i: int| 0 <= i < merged@.len() implies (#[trigger] results_view(
            merged@,
        )[i]).score <= results_view(merged@)[i].sources.len() * MAX_MULTIPLIER by {
            if i < before.len() {
                assert(results_view(merged@)[i] == before[i]);
            } else {
                assert(w <= incoming.sources.len() * MAX_MULTIPLIER) by (nonlinear_arith)
                    requires
                        w <= MAX_MULTIPLIER,
                        incoming.sources.len() >= 1,
                ;
            }
        }
    }
}

/// `ranked` with `item` put in at `at`, where every result from `at` on has a
/// smaller score and the one before `at`, if any, has not.
proof fn lemma_insert_ranked(ranked: Seq<SearchResultView>, item: SearchResultView, at: int)
    requires
        0 <= at <= ranked.len(),
        forall|i: int| at <= i < ranked.len() ==> ranked[i].score < item.score,
        at > 0 ==> ranked[at - 1].score >= item.score,
    ensures
        insert_ranked(ranked, item) == ranked.insert(at, item),
    decreases ranked.len(),
{
    if ranked.len() == 0 {
        assert(ranked.insert(at, item) =~= seq![item]);
    } else if at == ranked.len() {
        assert(ranked.insert(at, item) =~= ranked.push(item));
    } else {
        lemma_insert_ranked(ranked.drop_last(), item, at);
        assert(ranked.drop_last().insert(at, item).push(ranked.last()) =~= ranked.insert(at, item));
    }
}

/// Orders results by falling score; results of equal score keep their order.
pub fn rank(results: Vec<SearchResult>) -> (out: Vec<SearchResult>)
    ensures
        results_view(out@) == ranked(results_view(results@)),
        scores_fall(results_view(out@)),
        results_view(out@).to_multiset() == results_view(results@).to_multiset(),
{
    proof {
        lemma_ranked_is_sorted(results_view(results@));
    }
    let ghost all = results_view(results@);
    let ghost given = results@;
    let mut out: Vec<SearchResult> = Vec::new();
    assert(results_view(out@) =~= ranked(all.subrange(0, 0)));
    for item in it: results
        invariant
            it.seq() == given,
            all == results_view(given),
            results_view(out@) == ranked(all.subrange(0, it.index() as int)),
    {
        let ghost sorted = results_view(out@);
        let mut at: usize = out.len();
        while at > 0 && out[at - 1].score < item.score
            invariant
                at <= out.len(),
                results_view(out@) == sorted,
                forall|i: int| at <= i < sorted.len() ==> sorted[i].score < item@.score,
            decreases at,
        {
            at -= 1;
        }
        proof {
            lemma_insert_ranked(sorted, item@, at as int);
            let upto = all.subrange(0, it.index() + 1);
            assert(upto.drop_last() =~= all.subrange(0, it.index() as int));
            assert(upto.last() == item@);
        }
        out.insert(at, item);
        assert(results_view(out@) =~= sorted.insert(at as int, item@));
    }
    assert(all.subrange(0, all.len() as int) =~= all);
    out
}

/// The weight of the result at `index` of a list of `total` results, the
/// most relevant result being at index 0.
pub open spec fn weight_at(multiplier: u32, index: nat, total: nat) -> nat {
    weight(multiplier, (total - index) as nat, total)
}

/// In a list that is not empty, the first result weighs the multiplier of
/// its engine, and no result weighs more than one that stands before it.
pub proof fn lemma_weights_fall(multiplier: u32, total: nat, earlier: nat, later: nat)
    requires
        earlier <= later < total,
    ensures
        weight_at(multiplier, 0, total) == multiplier,
        weight_at(multiplier, later, total) <= weight_at(multiplier, earlier, total),
{
    lemma_weight_bounds(multiplier, total, total);
    let m = multiplier as nat;
    let p = (total - later) as nat;
    let q = (total - earlier) as nat;
    assert((m * p) / total <= (m * q) / total) by (nonlinear_arith)
        requires
            p <= q,
            total > 0,
    ;
}

/// An engine that the table does not name has the multiplier `1.0`.
pub proof fn lemma_unnamed_engine_has_unit(table: Seq<(Seq<char>, u32)>, engine: Seq<char>)
    requires
        !names_engine(table, engine),
    ensures
        multiplier_of(table, engine) == UNIT_MULTIPLIER,
{
    lemma_unnamed_from(table, engine, 0);
}

proof fn lemma_unnamed_from(table: Seq<(Seq<char>, u32)>, engine: Seq<char>, from: int)
    requires
        !names_engine(table, engine),
        0 <= from,
    ensures
        multiplier_from(table, engine, from) == UNIT_MULTIPLIER,
    decreases table.len() - from,
{
    if from < table.len() {
        assert(table[from].0 != engine);
        lemma_unnamed_from(table, engine, from + 1);
    }
}

/// The first position of a key is that of a result with the key, where the
/// list holds one.
pub proof fn lemma_position_found(merged: Seq<SearchResultView>, key: UrlKey, from: int, at: int)
    requires
        0 <= from <= at < merged.len(),
        merged[at].url.key() == key,
    ensures
        from <= position_from(merged, key, from) <= at,
        merged[position_from(merged, key, from)].url.key() == key,
    decreases at - from,
{
    if merged[from].url.key() != key {
        lemma_position_found(merged, key, from + 1, at);
    }
}

/// A result whose host, path and query are those of a result already merged
/// is the same result: the list grows by nothing, the known result gains the
/// weight and the sources, and every other result stays as it is.
pub proof fn lemma_same_target_merges(
    merged: Seq<SearchResultView>,
    item: SearchResultView,
    w: nat,
    at: int,
)
    requires
        0 <= at < merged.len(),
        merged[at].url.key() == item.url.key(),
    ensures
        absorb(merged, item, w).len() == merged.len(),
        ({
            let first = position_from(merged, item.url.key(), 0);
            &&& 0 <= first <= at
            &&& merged[first].url.key() == item.url.key()
            &&& absorb(merged, item, w)[first].score == merged[first].score + w
            &&& absorb(merged, item, w)[first].sources == merged[first].sources + item.sources
            &&& forall|i: int|
                0 <= i < merged.len() && i != first ==> absorb(merged, item, w)[i] == merged[i]
        }),
{
    lemma_position_found(merged, item.url.key(), 0, at);
}

/// Two engines that each return one result, the two with the same host, path
/// and query, give one merged result. Its score is the sum of the two
/// weights, which are the engines' multipliers, and its sources are those of
/// both.
pub proof fn lemma_scheme_is_ignored(
    table: Seq<(Seq<char>, u32)>,
    first: SearchResultView,
    second: SearchResultView,
)
    requires
        first.url.key() == second.url.key(),
    ensures
        deduplicated(table, seq![seq![first], seq![second]]) == seq![
            SearchResultView {
                score: (origin_multiplier(table, first) + origin_multiplier(table, second)) as nat,
                sources: first.sources + second.sources,
                ..first
            },
        ],
{
    let lists = seq![seq![first], seq![second]];
    let one = seq![first];
    let two = seq![second];
    let m1 = origin_multiplier(table, first);
    let m2 = origin_multiplier(table, second);
    lemma_weight_bounds(m1, 1, 1);
    lemma_weight_bounds(m2, 1, 1);
    assert(absorb_lists(table, lists, 0) =~= Seq::empty());
    assert(lists[0] == one);
    assert(lists[1] == two);
    assert(absorb_list(table, Seq::empty(), one, 0) =~= Seq::empty());
    let after_first = absorb_list(table, Seq::empty(), one, 1);
    assert(after_first == absorb(Seq::empty(), first, m1 as nat));
    assert(position_from(Seq::<SearchResultView>::empty(), first.url.key(), 0) == 0);
    let kept = SearchResultView { score: m1 as nat, ..first };
    assert(after_first =~= seq![kept]);
    assert(absorb_lists(table, lists, 1) == after_first);
    assert(absorb_list(table, after_first, two, 0) == after_first);
    let after_second = absorb_list(table, after_first, two, 1);
    assert(after_second == absorb(after_first, second, m2 as nat));
    assert(position_from(after_first, second.url.key(), 0) == 0);
    assert(after_second =~= seq![
        SearchResultView {
            score: (m1 + m2) as nat,
            sources: first.sources + second.sources,
            ..first
        },
    ]);
    assert(absorb_lists(table, lists, 2) == after_second);
}

/// The scores of the list never rise from one result to the next.
pub open spec fn scores_fall(results: Seq<SearchResultView>) -> bool {
    forall|i: int, j: int| 0 <= i <= j < results.len() ==> results[i].score >= results[j].score
}

proof fn lemma_insert_ranked_falls(sorted: Seq<SearchResultView>, item: SearchResultView)
    requires
        scores_fall(sorted),
    ensures
        scores_fall(insert_ranked(sorted, item)),
        insert_ranked(sorted, item).len() == sorted.len() + 1,
        insert_ranked(sorted, item).to_multiset() == sorted.to_multiset().insert(item),
        forall|k: int|
            0 <= k < insert_ranked(sorted, item).len() ==> insert_ranked(sorted, item)[k] == item
                || exists|j: int| 0 <= j < sorted.len() && insert_ranked(sorted, item)[k] == sorted[j],
    decreases sorted.len(),
{
    broadcast use vstd::seq_lib::group_to_multiset_ensures;

    if sorted.len() == 0 {
        assert(sorted =~= Seq::empty());
        assert(seq![item] =~= Seq::<SearchResultView>::empty().push(item));
    } else if sorted.last().score >= item.score {
        let out = sorted.push(item);
        assert forall|k: int| 0 <= k < out.len() implies out[k] == item || exists|j: int|
            0 <= j < sorted.len() && out[k] == sorted[j] by {
            if k < sorted.len() {
                assert(out[k] == sorted[k]);
            }
        }
    } else {
        let front = sorted.drop_last();
        let last = sorted.last();
        lemma_insert_ranked_falls(front, item);
        let inner = insert_ranked(front, item);
        let out = inner.push(last);
        assert(sorted =~= front.push(last));
        assert(sorted.to_multiset() =~= front.to_multiset().insert(last));
        assert(out.to_multiset() =~= sorted.to_multiset().insert(item));
        assert forall|k: int| 0 <= k < out.len() implies out[k] == item || exists|j: int|
            0 <= j < sorted.len() && out[k] == sorted[j] by {
            if k < inner.len() {
                if inner[k] != item {
                    let j = choose|j: int| 0 <= j < front.len() && inner[k] == front[j];
                    assert(out[k] == sorted[j]);
                }
            } else {
                assert(out[k] == sorted[sorted.len() - 1]);
            }
        }
        assert forall|i: int, j: int| 0 <= i <= j < out.len() implies out[i].score
            >= out[j].score by {
            if j == inner.len() && i < inner.len() {
                if inner[i] != item {
                    let k = choose|k: int| 0 <= k < front.len() && inner[i] == front[k];
                    assert(sorted[k].score >= sorted[sorted.len() - 1].score);
                }
            }
        }
    }
}

/// Ranking reorders and nothing else: the scores of the ranked list never
/// rise, and it holds the same results as the list given, each as often.
pub proof fn lemma_ranked_is_sorted(results: Seq<SearchResultView>)
    ensures
        scores_fall(ranked(results)),
        ranked(results).len() == results.len(),
        ranked(results).to_multiset() == results.to_multiset(),
    decreases results.len(),
{
    broadcast use vstd::seq_lib::group_to_multiset_ensures;

    if results.len() > 0 {
        lemma_ranked_is_sorted(results.drop_last());
        lemma_insert_ranked_falls(ranked(results.drop_last()), results.last());
        assert(results =~= results.drop_last().push(results.last()));
        assert(results.to_multiset() =~= results.drop_last().to_multiset().insert(results.last()));
    } else {
        assert(results =~= Seq::empty());
    }
}

/// No two results of the list have the same host, path and query.
pub open spec fn targets_differ(results: Seq<SearchResultView>) -> bool {
    forall|i: int, j: int|
        0 <= i < j < results.len() ==> results[i].url.key() != results[j].url.key()
}

proof fn lemma_position_absent(merged: Seq<SearchResultView>, key: UrlKey, from: int)
    requires
        0 <= from <= merged.len(),
    ensures
        from <= position_from(merged, key, from) <= merged.len(),
        position_from(merged, key, from) >= merged.len() ==> forall|i: int|
            from <= i < merged.len() ==> merged[i].url.key() != key,
    decreases merged.len() - from,
{
    if from < merged.len() {
        lemma_position_absent(merged, key, from + 1);
    }
}

proof fn lemma_absorb_keeps(merged: Seq<SearchResultView>, item: SearchResultView, w: nat)
    requires
        targets_differ(merged),
    ensures
        targets_differ(absorb(merged, item, w)),
        all_sourced(merged) && item.sources.len() >= 1 ==> all_sourced(absorb(merged, item, w)),
{
    let at = position_from(merged, item.url.key(), 0);
    let out = absorb(merged, item, w);
    lemma_position_absent(merged, item.url.key(), 0);
    if at < merged.len() {
        assert forall|i: int, j: int| 0 <= i < j < out.len() implies out[i].url.key()
            != out[j].url.key() by {
            assert(out[i].url == merged[i].url);
            assert(out[j].url == merged[j].url);
        }
        assert forall|i: int| 0 <= i < out.len() && all_sourced(merged) implies (
        #[trigger] out[i]).sources.len() >= 1 by {
            assert(merged[i].sources.len() >= 1);
        }
    } else {
        assert forall|i: int| 0 <= i < out.len() && all_sourced(merged) && item.sources.len()
            >= 1 implies (#[trigger] out[i]).sources.len() >= 1 by {
            if i < merged.len() {
                assert(merged[i].sources.len() >= 1);
            }
        }
    }
}

proof fn lemma_absorb_list_keeps(
    table: Seq<(Seq<char>, u32)>,
    merged: Seq<SearchResultView>,
    list: Seq<SearchResultView>,
    count: nat,
)
    requires
        targets_differ(merged),
        count <= list.len(),
    ensures
        targets_differ(absorb_list(table, merged, list, count)),
        all_sourced(merged) && all_sourced(list) ==> all_sourced(
            absorb_list(table, merged, list, count),
        ),
    decreases count,
{
    if count > 0 {
        lemma_absorb_list_keeps(table, merged, list, (count - 1) as nat);
        let item = list[list.len() - count];
        lemma_absorb_keeps(
            absorb_list(table, merged, list, (count - 1) as nat),
            item,
            weight(origin_multiplier(table, item), count, list.len()),
        );
    }
}

proof fn lemma_absorb_lists_keeps(
    table: Seq<(Seq<char>, u32)>,
    lists: Seq<Seq<SearchResultView>>,
    count: nat,
)
    requires
        count <= lists.len(),
    ensures
        targets_differ(absorb_lists(table, lists, count)),
        lists_sourced(lists) ==> all_sourced(absorb_lists(table, lists, count)),
    decreases count,
{
    if count > 0 {
        lemma_absorb_lists_keeps(table, lists, (count - 1) as nat);
        lemma_absorb_list_keeps(
            table,
            absorb_lists(table, lists, (count - 1) as nat),
            lists[count - 1],
            lists[count - 1].len(),
        );
    }
}

/// Merging leaves no duplicates: no two merged results have the same host,
/// path and query. And where every result given names a source, so does
/// every merged result.
pub proof fn lemma_deduplicated_targets_differ(
    table: Seq<(Seq<char>, u32)>,
    lists: Seq<Seq<SearchResultView>>,
)
    ensures
        targets_differ(deduplicated(table, lists)),
        lists_sourced(lists) ==> all_sourced(deduplicated(table, lists)),
{
    lemma_absorb_lists_keeps(table, lists, lists.len());
}

} // verus!
