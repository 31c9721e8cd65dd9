//! The orchestrator's decisions: which engines a configuration selects, and
//! what each engine's outcome contributes once every search task has ended.
//!
//! The tasks themselves are run by the caller, one per selected engine, each
//! tagged with the name of its engine. Their outcomes are handed over in the
//! order in which they ended.

use vstd::prelude::*;
use crate::aggregator::{all_sourced, lists_sourced};
use crate::engines::bing::Bing;
use crate::engines::duckduckgo::DuckDuckGo;
use crate::engines::{bing, duckduckgo, Engine};
use crate::errors::{EngineError, EngineErrorKind, EngineErrorType, EngineErrorView};
use crate::text::{eq_ignore_ascii_case, same_ignoring_ascii_case};
use crate::{lists_view, names_view, results_view, SearchResult, SearchResultView};

verus! {

/// How one search task ended.
pub enum TaskOutcome {
    /// The task of the named engine ran to its end and returned `result`.
    Finished { engine: String, result: Result<Vec<SearchResult>, EngineErrorType> },
    /// The task could not be run to its end; its engine is not known.
    Aborted,
}

/// The results that an outcome contributes: the list that an engine returned
/// where it is not empty, else nothing.
pub open spec fn success_of(outcome: TaskOutcome) -> Option<Seq<SearchResultView>> {
    match outcome {
        TaskOutcome::Finished { engine, result: Ok(results) } => if results@.len() > 0 {
            Some(results_view(results@))
        } else {
            None
        },
        _ => None,
    }
}

/// The failure that an outcome reports: the engine's own error, `NoResults`
/// for an engine that returned an empty list, `ExecFailed` under an empty
/// name for a task that did not end; nothing for an engine that returned
/// results.
pub open spec fn failure_of(outcome: TaskOutcome) -> Option<EngineErrorView> {
    match outcome {
        TaskOutcome::Finished { engine, result: Ok(results) } => if results@.len() > 0 {
            None
        } else {
            Some(EngineErrorView { engine: engine@, source: EngineErrorKind::NoResults })
        },
        TaskOutcome::Finished { engine, result: Err(error) } => Some(
            EngineErrorView { engine: engine@, source: error@ },
        ),
        TaskOutcome::Aborted => Some(
            EngineErrorView { engine: Seq::empty(), source: EngineErrorKind::ExecFailed },
        ),
    }
}

/// The result lists that the first `count` outcomes contribute, in order.
pub open spec fn successes(outcomes: Seq<TaskOutcome>, count: nat) -> Seq<Seq<SearchResultView>>
    decreases count,
{
    if count == 0 || count > outcomes.len() {
        Seq::empty()
    } else {
        let before = successes(outcomes, (count - 1) as nat);
        match success_of(outcomes[count - 1]) {
            Some(results) => before.push(results),
            None => before,
        }
    }
}

/// The failures that the first `count` outcomes report, in order.
pub open spec fn failures(outcomes: Seq<TaskOutcome>, count: nat) -> Seq<EngineErrorView>
    decreases count,
{
    if count == 0 || count > outcomes.len() {
        Seq::empty()
    } else {
        let before = failures(outcomes, (count - 1) as nat);
        match failure_of(outcomes[count - 1]) {
            Some(error) => before.push(error),
            None => before,
        }
    }
}

/// Every result that the outcomes hold names at least one source.
pub open spec fn outcomes_sourced(outcomes: Seq<TaskOutcome>) -> bool {
    forall|i: int|
        0 <= i < outcomes.len() && success_of(#[trigger] outcomes[i]) is Some ==> all_sourced(
            success_of(outcomes[i])->0,
        )
}

/// Where every result of the outcomes names a source, so does every result
/// of the lists that they contribute.
pub proof fn lemma_successes_sourced(outcomes: Seq<TaskOutcome>, count: nat)
    requires
        outcomes_sourced(outcomes),
        count <= outcomes.len(),
    ensures
        lists_sourced(successes(outcomes, count)),
    decreases count,
{
    if count > 0 {
        lemma_successes_sourced(outcomes, (count - 1) as nat);
        let before = successes(outcomes, (count - 1) as nat);
        let all = successes(outcomes, count);
        assert forall|i: int| 0 <= i < all.len() implies all_sourced(#[trigger] all[i]) by {
            if i < before.len() {
                assert(all[i] == before[i]);
            }
        }
    }
}

/// The view of each failure of a list.
pub open spec fn errors_view(errors: Seq<EngineError>) -> Seq<EngineErrorView> {
    errors.map_values(|error: EngineError| error@)
}

/// The names of the engines that the first `count` configured names select:
/// a name that reads `bing` or `duckduckgo`, in whatever case, selects that
/// engine; any other name selects none.
pub open spec fn selected(names: Seq<Seq<char>>, count: nat) -> Seq<Seq<char>>
    decreases count,
{
    if count == 0 || count > names.len() {
        Seq::empty()
    } else {
        let before = selected(names, (count - 1) as nat);
        if same_ignoring_ascii_case(names[count - 1], "bing"@) {
            before.push("Bing"@)
        } else if same_ignoring_ascii_case(names[count - 1], "duckduckgo"@) {
            before.push("DuckDuckGo"@)
        } else {
            before
        }
    }
}

/// The names of a list of engines.
pub open spec fn engine_names(engines: Seq<Engine>) -> Seq<Seq<char>> {
    engines.map_values(|engine: Engine| engine.name())
}

/// Every engine of the list is ready to parse pages.
pub open spec fn all_well_formed(engines: Seq<Engine>) -> bool {
    forall|i: int| 0 <= i < engines.len() ==> (#[trigger] engines[i]).well_formed()
}

/// The engines that a configuration selected.
pub struct EngineHandler {
    engines: Vec<Engine>,
}

impl EngineHandler {
    /// The selected engines, in the order of the configuration.
    pub closed spec fn selection(self) -> Seq<Engine> {
        self.engines@
    }

    /// Selects the engines that the configured names stand for; `None` where
    /// the adapters cannot be set up.
    pub fn new(activated_engines: &Vec<String>) -> (r: Option<EngineHandler>)
        ensures
            r is Some == (bing::ready() && duckduckgo::ready()),
            r is Some ==> all_well_formed(r->0.selection()) && engine_names(r->0.selection())
                == selected(names_view(activated_engines@), activated_engines@.len()),
    {
        if Bing::new().is_none() || DuckDuckGo::new().is_none() {
            return None;
        }
        let ghost names = names_view(activated_engines@);
        let mut engines: Vec<Engine> = Vec::new();
        assert(engine_names(engines@) =~= Seq::empty());
        let mut i: usize = 0;
        while i < activated_engines.len()
            invariant
                i <= activated_engines.len(),
                bing::ready(),
                duckduckgo::ready(),
                names == names_view(activated_engines@),
                all_well_formed(engines@),
                engine_names(engines@) == selected(names, i as nat),
            decreases activated_engines.len() - i,
        {
            let ghost before = engine_names(engines@);
            assert(names[i as int] == activated_engines@[i as int]@);
            if eq_ignore_ascii_case(activated_engines[i].as_str(), "bing") {
                match Bing::new() {
                    Some(bing) => {
                        engines.push(Engine::Bing(bing));
                        assert(engine_names(engines@) =~= before.push("Bing"@));
                    },
                    None => {},
                }
            } else if eq_ignore_ascii_case(activated_engines[i].as_str(), "duckduckgo") {
                match DuckDuckGo::new() {
                    Some(duckduckgo) => {
                        engines.push(Engine::DuckDuckGo(duckduckgo));
                        assert(engine_names(engines@) =~= before.push("DuckDuckGo"@));
                    },
                    None => {},
                }
            }
            i += 1;
        }
        Some(EngineHandler { engines })
    }

    /// The selected engines.
    pub fn engines(&self) -> (engines: &Vec<Engine>)
        ensures
            engines@ == self.selection(),
    {
        &self.engines
    }

    /// Sorts one outcome: the results of an engine that returned some, or
    /// the failure to report.
    pub fn classify(outcome: TaskOutcome) -> (r: Result<Vec<SearchResult>, EngineError>)
        ensures
            r is Ok == success_of(outcome) is Some,
            r is Ok ==> results_view(r->Ok_0@) == success_of(outcome)->0,
            r is Err ==> failure_of(outcome) == Some(r->Err_0@),
    {
        match outcome {
            TaskOutcome::Finished { engine, result } => match result {
                Ok(results) => {
                    if results.is_empty() {
                        Err(EngineError { engine, source: EngineErrorType::NoResults })
                    } else {
                        Ok(results)
                    }
                },
                Err(error) => Err(EngineError { engine, source: error }),
            },
            TaskOutcome::Aborted => Err(
                EngineError { engine: String::new(), source: EngineErrorType::ExecFailed },
            ),
        }
    }

    /// Sorts the outcomes of all tasks into the result lists of the engines
    /// that returned some and the failures of the others, each in the order
    /// of the outcomes.
    pub fn search(outcomes: Vec<TaskOutcome>) -> (r: (Vec<Vec<SearchResult>>, Vec<EngineError>))
        ensures
            lists_view(r.0@) == successes(outcomes@, outcomes@.len()),
            errors_view(r.1@) == failures(outcomes@, outcomes@.len()),
    {
        let ghost all = outcomes@;
        let mut search_results: Vec<Vec<SearchResult>> = Vec::new();
        let mut engine_errors: Vec<EngineError> = Vec::new();
        assert(lists_view(search_results@) =~= Seq::empty());
        assert(errors_view(engine_errors@) =~= Seq::empty());
        for outcome in it: outcomes
            invariant
                it.seq() == all,
                lists_view(search_results@) == successes(all, it.index() as nat),
                errors_view(engine_errors@) == failures(all, it.index() as nat),
        {
            let ghost lists = lists_view(search_results@);
            let ghost errors = errors_view(engine_errors@);
            match EngineHandler::classify(outcome) {
                Ok(results) => {
                    search_results.push(results);
                    assert(lists_view(search_results@) =~= lists.push(results_view(results@)));
                },
                Err(error) => {
                    engine_errors.push(error);
                    assert(errors_view(engine_errors@) =~= errors.push(error@));
                },
            }
        }
        (search_results, engine_errors)
    }
}

/// The outcomes before `count` decide what the first `count` contribute,
/// whatever follows them.
proof fn lemma_prefix_decides(outcomes: Seq<TaskOutcome>, longer: Seq<TaskOutcome>, count: nat)
    requires
        count <= outcomes.len() <= longer.len(),
        forall|i: int| 0 <= i < outcomes.len() ==> longer[i] == outcomes[i],
    ensures
        successes(longer, count) == successes(outcomes, count),
        failures(longer, count) == failures(outcomes, count),
    decreases count,
{
    if count > 0 {
        lemma_prefix_decides(outcomes, longer, (count - 1) as nat);
    }
}

/// An engine that returned an empty list is reported once, as `NoResults`
/// under its name, and contributes no results: after its outcome the result
/// lists are those before it, and the failures are those before it followed
/// by the one report.
pub proof fn lemma_empty_list_is_no_results(
    before: Seq<TaskOutcome>,
    engine: String,
    results: Vec<SearchResult>,
)
    requires
        results@.len() == 0,
    ensures
        ({
            let all = before.push(TaskOutcome::Finished { engine, result: Ok(results) });
            &&& successes(all, all.len()) == successes(before, before.len())
            &&& failures(all, all.len()) == failures(before, before.len()).push(
                EngineErrorView { engine: engine@, source: EngineErrorKind::NoResults },
            )
        }),
{
    let all = before.push(TaskOutcome::Finished { engine, result: Ok(results) });
    lemma_prefix_decides(before, all, before.len());
}

/// Every outcome is counted once: as a list of results or as a failure.
pub proof fn lemma_every_outcome_counts(outcomes: Seq<TaskOutcome>, count: nat)
    requires
        count <= outcomes.len(),
    ensures
        successes(outcomes, count).len() + failures(outcomes, count).len() == count,
    decreases count,
{
    if count > 0 {
        lemma_every_outcome_counts(outcomes, (count - 1) as nat);
    }
}

} // verus!
