//! The reduction of a run's results to its totals and the names of the
//! requests that failed.

use vstd::prelude::*;
use vstd::string::*;
use crate::outcome::{RequestResult, ResultView};
use crate::text::texts_view;

verus! {

/// The views of a list of results, in order.
pub open spec fn results_view(results: Seq<RequestResult>) -> Seq<ResultView> {
    results.map_values(|result: RequestResult| result@)
}

/// How many of the results are successes.
pub open spec fn success_count(results: Seq<ResultView>) -> nat {
    results.filter(|result: ResultView| result.success).len()
}

/// The results that are no successes, in order.
pub open spec fn failures(results: Seq<ResultView>) -> Seq<ResultView> {
    results.filter(|result: ResultView| !result.success)
}

/// The names of the requests that did not succeed, in the order of the
/// results.
pub open spec fn failed_names(results: Seq<ResultView>) -> Seq<Seq<char>> {
    failures(results).map_values(|result: ResultView| result.name)
}

/// The positions of the results that are no successes, in rising order.
pub open spec fn failed_positions(results: Seq<ResultView>) -> Seq<int>
    decreases results.len(),
{
    if results.len() == 0 {
        Seq::empty()
    } else if results.last().success {
        failed_positions(results.drop_last())
    } else {
        failed_positions(results.drop_last()).push(results.len() - 1)
    }
}

/// The totals of a run, with its results in the order of arrival.
#[derive(Debug)]
pub struct TestSummary {
    pub total: usize,
    pub success: usize,
    pub failed: usize,
    pub results: Vec<RequestResult>,
}

impl TestSummary {
    /// The totals agree with the results: every result is counted once,
    /// as a success or as a failure.
    pub open spec fn wf(&self) -> bool {
        &&& self.total == self.results@.len()
        &&& self.success == success_count(results_view(self.results@))
        &&& self.failed == self.total - self.success
    }

    /// The two numbers of which the success rate is the quotient, times
    /// one hundred: the successes and the total. A run without requests
    /// has none, and its rate is zero.
    pub fn success_ratio(&self) -> (ratio: Option<(usize, usize)>)
        ensures
            ratio == if self.total > 0 {
                Some((self.success, self.total))
            } else {
                None
            },
    {
        if self.total > 0 {
            Some((self.success, self.total))
        } else {
            None
        }
    }
}

/// Counts the successes among the results.
pub fn count_successes(results: &Vec<RequestResult>) -> (count: usize)
    ensures
        count == success_count(results_view(results@)),
        count <= results@.len(),
{
    let ghost pred = |result: ResultView| result.success;
    let ghost view_of = |result: RequestResult| result@;
    let mut count: usize = 0;
    let mut i: usize = 0;
    assert(Seq::<ResultView>::empty().filter(pred) =~= Seq::empty()) by {
        reveal(Seq::filter);
    }
    while i < results.len()
        invariant
            i <= results.len(),
            count <= i,
            pred == |result: ResultView| result.success,
            view_of == |result: RequestResult| result@,
            count == success_count(results_view(results@.take(i as int))),
        decreases results.len() - i,
    {
        proof {
            let seen = results@.take(i as int);
            assert(results@.take(i + 1) =~= seen.push(results@[i as int]));
            seen.lemma_push_map_commute(view_of, results@[i as int]);
            results_view(seen).lemma_filter_push(results@[i as int]@, pred);
        }
        if results[i].success {
            count += 1;
        }
        i += 1;
    }
    assert(results@.take(results.len() as int) =~= results@);
    count
}

/// Lists the names of the requests that did not succeed, in the order
/// of the results.
pub fn failed_request_names(results: &Vec<RequestResult>) -> (names: Vec<String>)
    ensures
        texts_view(names@) == failed_names(results_view(results@)),
{
    let ghost pred = |result: ResultView| !result.success;
    let ghost view_of = |result: RequestResult| result@;
    let ghost name_of = |result: ResultView| result.name;
    let ghost text_of = |text: String| text@;
    let mut names: Vec<String> = Vec::new();
    let mut i: usize = 0;
    assert(Seq::<ResultView>::empty().filter(pred) =~= Seq::empty()) by {
        reveal(Seq::filter);
    }
    while i < results.len()
        invariant
            i <= results.len(),
            pred == |result: ResultView| !result.success,
            view_of == |result: RequestResult| result@,
            name_of == |result: ResultView| result.name,
            text_of == |text: String| text@,
            texts_view(names@) == failed_names(results_view(results@.take(i as int))),
        decreases results.len() - i,
    {
        let ghost before = names@;
        proof {
            let seen = results@.take(i as int);
            assert(results@.take(i + 1) =~= seen.push(results@[i as int]));
            seen.lemma_push_map_commute(view_of, results@[i as int]);
            results_view(seen).lemma_filter_push(results@[i as int]@, pred);
            failures(results_view(seen)).lemma_push_map_commute(name_of, results@[i as int]@);
        }
        if !results[i].success {
            names.push(results[i].name.clone());
            proof {
                before.lemma_push_map_commute(text_of, names@.last());
            }
        }
        i += 1;
    }
    assert(results@.take(results.len() as int) =~= results@);
    names
}

/// Reduces the results of a run to its summary: the number of results,
/// how many of them are successes, and how many are not.
pub fn summarize(results: Vec<RequestResult>) -> (summary: TestSummary)
    ensures
        summary.results == results,
        summary.wf(),
        summary.total == summary.success + summary.failed,
        summary.success + summary.failed == summary.results@.len(),
        results@.len() == 0 ==> summary.total == 0 && summary.success == 0 && summary.failed == 0,
{
    let total = results.len();
    let success = count_successes(&results);
    TestSummary { total, success, failed: total - success, results }
}

/// Every request that did not succeed is named exactly once, and the
/// names come in the order of the results: the list of names follows the
/// positions of the failures, which rise strictly, hold only failures
/// and leave no failure out. What is not named is a success.
pub proof fn lemma_failed_names_once_in_order(results: Seq<ResultView>)
    ensures
        failed_names(results).len() == failed_positions(results).len(),
        failed_names(results).len() + success_count(results) == results.len(),
        forall|k: int|
            0 <= k < failed_positions(results).len() ==> {
                let at = #[trigger] failed_positions(results)[k];
                &&& 0 <= at < results.len()
                &&& !results[at].success
                &&& failed_names(results)[k] == results[at].name
            },
        forall|j: int, k: int|
            0 <= j < k < failed_positions(results).len() ==> failed_positions(results)[j]
                < failed_positions(results)[k],
        forall|i: int|
            0 <= i < results.len() && !results[i].success ==> failed_positions(results).contains(
                i,
            ),
    decreases results.len(),
{
    let failed = |result: ResultView| !result.success;
    let succeeded = |result: ResultView| result.success;
    let name_of = |result: ResultView| result.name;
    if results.len() == 0 {
        reveal(Seq::filter);
    } else {
        let rest = results.drop_last();
        let last = results.last();
        lemma_failed_names_once_in_order(rest);
        assert(results =~= rest.push(last));
        rest.lemma_filter_push(last, failed);
        rest.lemma_filter_push(last, succeeded);
        failures(rest).lemma_push_map_commute(name_of, last);
        let pos = failed_positions(results);
        let before = failed_positions(rest);
        assert forall|i: int| 0 <= i < results.len() && !results[i].success implies pos.contains(
            i,
        ) by {
            if i < rest.len() {
                assert(before.contains(i));
                let k = choose|k: int| 0 <= k < before.len() && before[k] == i;
                assert(pos[k] == i);
            } else {
                assert(pos[pos.len() - 1] == i);
            }
        }
    }
}

/// The results of a run as they come in. Each result is given the
/// next arrival number, counted from one.
#[derive(Debug)]
pub struct Arrivals {
    pub results: Vec<RequestResult>,
}

impl Arrivals {
    /// Starts a run in which nothing has arrived yet.
    pub fn new() -> (arrivals: Self)
        ensures
            arrivals.results@ == Seq::<RequestResult>::empty(),
    {
        Arrivals { results: Vec::new() }
    }

    /// Takes in the result that has just arrived and gives its arrival
    /// number: one for the first result, two for the second, and so on.
    pub fn record(&mut self, result: RequestResult) -> (index: usize)
        ensures
            final(self).results@ == old(self).results@.push(result),
            index == old(self).results@.len() + 1,
    {
        self.results.push(result);
        self.results.len()
    }

    /// How many results have arrived.
    pub fn arrived(&self) -> (count: usize)
        ensures
            count == self.results@.len(),
    {
        self.results.len()
    }

    /// Closes the run and reduces what arrived to the summary, with the
    /// results in the order of their arrival.
    pub fn finish(self) -> (summary: TestSummary)
        ensures
            summary.results == self.results,
            summary.wf(),
            summary.total == summary.success + summary.failed,
    {
        summarize(self.results)
    }
}

} // verus!
