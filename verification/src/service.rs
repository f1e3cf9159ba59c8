//! Merging of fan-out fetch results.
//!
//! `listRuns` fans out one request per repository target; each request
//! independently yields that repository's recent runs or a per-repository
//! `FetchError`. This module holds the fan-in: a failed repository
//! contributes zero rows and never fails the merge as a whole, and the
//! surviving rows are sorted by start time, most recent first.

use vstd::multiset::Multiset;
use vstd::prelude::*;

use crate::error::FetchError;
use crate::models::WorkflowRun;

verus! {

/// Runs ordered by start time, most recent first.
pub open spec fn sorted_desc(s: Seq<WorkflowRun>) -> bool {
    forall|i: int, j: int| 0 <= i <= j < s.len() ==> s[i].start_time >= s[j].start_time
}

/// The rows contributed by a sequence of per-repository results: the
/// successful payloads concatenated in order, failures contributing
/// nothing.
pub open spec fn flatten_ok(rs: Seq<Result<Vec<WorkflowRun>, FetchError>>) -> Seq<WorkflowRun>
    decreases rs.len(),
{
    if rs.len() == 0 {
        Seq::empty()
    } else {
        (match rs[0] {
            Ok(v) => v@,
            Err(_) => Seq::empty(),
        }) + flatten_ok(rs.drop_first())
    }
}

/// Index of a run with the greatest start time.
fn index_of_max_start(v: &Vec<WorkflowRun>) -> (m: usize)
    requires
        v@.len() > 0,
    ensures
        m < v@.len(),
        forall|j: int| 0 <= j < v@.len() ==> v@[m as int].start_time >= v@[j].start_time,
{
    let mut m: usize = 0;
    let mut i: usize = 1;
    while i < v.len()
        invariant
            m < i <= v@.len(),
            forall|j: int| 0 <= j < i ==> v@[m as int].start_time >= v@[j].start_time,
        decreases v@.len() - i,
    {
        if v[i].start_time > v[m].start_time {
            m = i;
        }
        i += 1;
    }
    m
}

/// Sorts runs by start time, most recent first. Ties keep no
/// particular order beyond the primary key.
pub fn sort_runs_desc(runs: Vec<WorkflowRun>) -> (out: Vec<WorkflowRun>)
    ensures
        sorted_desc(out@),
        out@.to_multiset() == runs@.to_multiset(),
{
    broadcast use vstd::seq_lib::group_to_multiset_ensures;
    broadcast use vstd::multiset::group_multiset_axioms;

    let mut rest = runs;
    let mut out: Vec<WorkflowRun> = Vec::new();
    while rest.len() > 0
        invariant
            out@.to_multiset().add(rest@.to_multiset()) == runs@.to_multiset(),
            sorted_desc(out@),
            forall|i: int, j: int|
                0 <= i < out@.len() && 0 <= j < rest@.len() ==> out@[i].start_time
                    >= rest@[j].start_time,
        decreases rest@.len(),
    {
        let ghost prev_out = out@;
        let ghost prev_rest = rest@;
        let m = index_of_max_start(&rest);
        let x = rest.remove(m);
        out.push(x);
        proof {
            vstd::seq_lib::to_multiset_build(prev_out, x);
            vstd::seq_lib::to_multiset_remove(prev_rest, m as int);
            vstd::seq_lib::to_multiset_contains(prev_rest, x);
            assert(prev_rest.contains(x)) by {
                assert(prev_rest[m as int] == x);
            }
            assert(out@.to_multiset() == prev_out.to_multiset().insert(x));
            assert(rest@.to_multiset() == prev_rest.to_multiset().remove(x));
            assert(out@.to_multiset().add(rest@.to_multiset()) =~= prev_out.to_multiset().add(
                prev_rest.to_multiset(),
            ));
        }
    }
    proof {
        assert(rest@.to_multiset() =~= Multiset::empty());
        assert(out@.to_multiset().add(Multiset::empty()) =~= out@.to_multiset());
    }
    out
}

/// Fan-in of the per-repository results of one `listRuns` call.
///
/// A single repository's failure contributes zero rows and never fails
/// the merge; the surviving rows are concatenated and sorted by start
/// time, most recent first.
pub fn collect_runs(results: Vec<Result<Vec<WorkflowRun>, FetchError>>) -> (out: Vec<
    WorkflowRun,
>)
    ensures
        sorted_desc(out@),
        out@.to_multiset() == flatten_ok(results@).to_multiset(),
{
    let mut rest = results;
    let mut merged: Vec<WorkflowRun> = Vec::new();
    while rest.len() > 0
        invariant
            merged@ + flatten_ok(rest@) == flatten_ok(results@),
        decreases rest@.len(),
    {
        let ghost prev_rest = rest@;
        let head = rest.remove(0);
        proof {
            assert(rest@ =~= prev_rest.drop_first());
        }
        match head {
            Ok(mut v) => {
                merged.append(&mut v);
                proof {
                    assert(merged@ + flatten_ok(rest@) =~= flatten_ok(results@));
                }
            },
            Err(_) => {
                proof {
                    assert(merged@ + flatten_ok(rest@) =~= flatten_ok(results@));
                }
            },
        }
    }
    proof {
        assert(merged@ + flatten_ok(rest@) =~= merged@);
    }
    sort_runs_desc(merged)
}

} // verus!
