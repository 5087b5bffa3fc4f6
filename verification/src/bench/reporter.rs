//! The grouping of benchmark results for a report: workloads in the order they first appear,
//! and the CPython result each is compared with.

use vstd::prelude::*;

use super::runner::BenchResult;
use crate::adapter::route::{contains_name, views};
use crate::text::{first_occurrences, str_equal};

verus! {

broadcast use vstd::string::group_string_axioms;

/// Formats benchmark results.
pub struct Reporter;

/// The workload names of the results.
pub open spec fn workload_names(results: Seq<BenchResult>) -> Seq<Seq<char>> {
    results.map_values(|r: BenchResult| r.workload_name@)
}

/// The first index from `i` on of a CPython result for workload `w`.
pub open spec fn baseline_from(results: Seq<BenchResult>, w: Seq<char>, i: int) -> Option<int>
    decreases results.len() - i,
{
    if i < 0 || i >= results.len() {
        Option::None
    } else if results[i].workload_name@ == w && results[i].runner_name@ == "cpython"@ {
        Option::Some(i)
    } else {
        baseline_from(results, w, i + 1)
    }
}

impl Reporter {
    /// The workloads of the results, each once, in the order they first appear.
    pub fn workload_order(results: &Vec<BenchResult>) -> (r: Vec<String>)
        ensures
            views(r@) == first_occurrences(workload_names(results@)),
    {
        let mut order: Vec<String> = Vec::new();
        let mut i: usize = 0;
        while i < results.len()
            invariant
                i <= results@.len(),
                views(order@) == first_occurrences(workload_names(results@.take(i as int))),
            decreases results@.len() - i,
        {
            let ghost names = workload_names(results@.take(i + 1));
            assert(names.drop_last() =~= workload_names(results@.take(i as int)));
            assert(names.last() == results@[i as int].workload_name@);
            if !contains_name(&order, results[i].workload_name.as_str()) {
                let ghost before = order@;
                order.push(results[i].workload_name.clone());
                assert(views(order@) =~= views(before).push(results@[i as int].workload_name@));
            }
            i = i + 1;
        }
        assert(results@.take(results@.len() as int) =~= results@);
        order
    }

    /// The indices of the results of workload `name`, in order.
    pub fn results_of(results: &Vec<BenchResult>, name: &str) -> (r: Vec<usize>)
        ensures
            forall|k: int| 0 <= k < r@.len() ==> (#[trigger] r@[k]) < results@.len() && results@[r@[k] as int].workload_name@ == name@,
            forall|k: int, l: int| 0 <= k < l < r@.len() ==> r@[k] < r@[l],
            forall|j: int|
                0 <= j < results@.len() && (#[trigger] results@[j]).workload_name@ == name@ ==> r@.contains(j as usize),
    {
        let mut out: Vec<usize> = Vec::new();
        let mut i: usize = 0;
        while i < results.len()
            invariant
                i <= results@.len(),
                forall|k: int| 0 <= k < out@.len() ==> (#[trigger] out@[k]) < i && results@[out@[k] as int].workload_name@ == name@,
                forall|k: int, l: int| 0 <= k < l < out@.len() ==> out@[k] < out@[l],
                forall|j: int| 0 <= j < i && (#[trigger] results@[j]).workload_name@ == name@ ==> out@.contains(j as usize),
            decreases results@.len() - i,
        {
            if str_equal(results[i].workload_name.as_str(), name) {
                let ghost before = out@;
                out.push(i);
                assert(out@.last() == i);
                assert forall|j: int| 0 <= j < i + 1 && (#[trigger] results@[j]).workload_name@ == name@ implies out@.contains(j as usize) by {
                    if j < i {
                        let k = choose|k: int| 0 <= k < before.len() && before[k] == j as usize;
                        assert(out@[k] == j as usize);
                    } else {
                        assert(out@[out@.len() - 1] == j as usize);
                    }
                }
            }
            i = i + 1;
        }
        out
    }

    /// The index of the first CPython result of workload `name`, the baseline its speedups
    /// are measured against.
    pub fn baseline(results: &Vec<BenchResult>, name: &str) -> (r: Option<usize>)
        ensures
            match baseline_from(results@, name@, 0) {
                Option::Some(i) => r == Option::Some(i as usize),
                Option::None => r is None,
            },
    {
        proof { reveal_strlit("cpython"); }
        let mut i: usize = 0;
        while i < results.len()
            invariant
                i <= results@.len(),
                baseline_from(results@, name@, 0) == baseline_from(results@, name@, i as int),
            decreases results@.len() - i,
        {
            if str_equal(results[i].workload_name.as_str(), name) && str_equal(results[i].runner_name.as_str(), "cpython") {
                return Some(i);
            }
            i = i + 1;
        }
        None
    }
}

} // verus!
