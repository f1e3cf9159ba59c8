//! Pure rendering: view-state to table snapshots.
//!
//! Rendering never blocks on the network: it reads the current
//! view-state and produces plain string rows plus the selected row
//! index, ready for a terminal table. Column layout follows the two
//! panels: the run list shows project, branch, workflow name, the
//! first line of the commit message, the localized start time, status
//! and conclusion; the job detail shows name, start and completion
//! times, status and conclusion.

use vstd::prelude::*;

use crate::models::WorkflowJob;
use crate::models::WorkflowRun;
use crate::models::job_conclusion_label;
use crate::models::job_status_label;
use crate::models::run_conclusion_label;
use crate::models::run_status_label;
use crate::panels::WorkflowDetailsWidget;
use crate::panels::WorkflowRunListWidget;
use crate::state::LoadingState;
use crate::timefmt::MAX_FORMAT_SECS;
use crate::timefmt::local_rendering_of;
use crate::timefmt::local_time_label;

verus! {

/// The prefix of `s` up to (and not including) its first newline; all
/// of `s` when it has none.
pub open spec fn first_line_of(s: Seq<char>) -> Seq<char>
    decreases s.len(),
{
    if s.len() == 0 {
        s
    } else if s[0] == '\n' {
        Seq::empty()
    } else {
        seq![s[0]] + first_line_of(s.drop_first())
    }
}

proof fn lemma_first_line_at(s: Seq<char>, i: int)
    requires
        0 <= i <= s.len(),
        forall|k: int| 0 <= k < i ==> s[k] != '\n',
        i < s.len() ==> s[i] == '\n',
    ensures
        first_line_of(s) == s.subrange(0, i),
    decreases s.len(),
{
    if i == 0 {
        assert(first_line_of(s) =~= s.subrange(0, 0));
    } else {
        assert(s[0] != '\n');
        lemma_first_line_at(s.drop_first(), i - 1);
        assert(seq![s[0]] + s.drop_first().subrange(0, i - 1) =~= s.subrange(0, i));
    }
}

/// The first line of a commit message: everything before the first
/// newline.
pub fn first_line(s: &str) -> (r: String)
    ensures
        r@ == first_line_of(s@),
{
    let n = s.unicode_len();
    let mut i: usize = 0;
    while i < n
        invariant
            i <= n,
            n == s@.len(),
            forall|k: int| 0 <= k < i ==> s@[k] != '\n',
        decreases n - i,
    {
        if s.get_char(i) == '\n' {
            proof {
                lemma_first_line_at(s@, i as int);
            }
            return s.substring_char(0, i).to_owned();
        }
        i += 1;
    }
    proof {
        lemma_first_line_at(s@, n as int);
        assert(s@.subrange(0, n as int) =~= s@);
    }
    s.to_owned()
}

/// What a panel's status line shows for a loading state: the literal
/// state name while idle or loading, the refresh time once loaded,
/// the message after a failure.
pub open spec fn status_line_matches(st: LoadingState, line: Seq<char>) -> bool {
    match st {
        LoadingState::Idle => line == "Idle"@,
        LoadingState::Loading => line == "Loading"@,
        LoadingState::Loaded(t) => if 0 <= t <= MAX_FORMAT_SECS {
            exists|lab: Seq<char>|
                local_rendering_of(t as int, lab) && line == "Last refreshed at "@ + lab
        } else {
            line == "Last refreshed at "@
        },
        LoadingState::Error(m) => line == m@,
    }
}

/// The status line a panel shows for its loading state.
pub fn loading_status_line(state: &LoadingState) -> (r: String)
    ensures
        status_line_matches(*state, r@),
{
    match state {
        LoadingState::Idle => "Idle".to_owned(),
        LoadingState::Loading => "Loading".to_owned(),
        LoadingState::Loaded(t) => {
            let label = local_time_label(*t);
            "Last refreshed at ".to_owned().concat(label.as_str())
        },
        LoadingState::Error(m) => m.clone(),
    }
}

/// The columns a workflow run is rendered as: project, branch,
/// workflow name, first line of the commit message, localized start
/// time, status label, conclusion label.
pub open spec fn run_row_matches(row: Vec<String>, r: WorkflowRun) -> bool {
    &&& row@.len() == 7
    &&& row@[0]@ == r.owner@ + "/"@ + r.repo@
    &&& row@[1]@ == r.branch@
    &&& row@[2]@ == r.name@
    &&& row@[3]@ == first_line_of(r.commit_message@)
    &&& (0 <= r.start_time <= MAX_FORMAT_SECS ==> local_rendering_of(
        r.start_time as int,
        row@[4]@,
    ))
    &&& (!(0 <= r.start_time <= MAX_FORMAT_SECS) ==> row@[4]@ == Seq::<char>::empty())
    &&& row@[5]@ == run_status_label(r.status)
    &&& row@[6]@ == run_conclusion_label(r.conclusion)
}

/// Formats one run as its table row.
pub fn run_row(r: &WorkflowRun) -> (row: Vec<String>)
    ensures
        run_row_matches(row, *r),
{
    let project = r.owner.clone().concat("/").concat(r.repo.as_str());
    let mut row: Vec<String> = Vec::new();
    row.push(project);
    row.push(r.branch.clone());
    row.push(r.name.clone());
    row.push(first_line(r.commit_message.as_str()));
    row.push(local_time_label(r.start_time));
    row.push(r.status.label());
    row.push(r.conclusion.label());
    row
}

/// The columns a workflow job is rendered as: name, localized start
/// and completion times (the latter empty while the job still runs),
/// status label, conclusion label.
pub open spec fn job_row_matches(row: Vec<String>, j: WorkflowJob) -> bool {
    &&& row@.len() == 5
    &&& row@[0]@ == j.name@
    &&& (0 <= j.started_at <= MAX_FORMAT_SECS ==> local_rendering_of(
        j.started_at as int,
        row@[1]@,
    ))
    &&& (!(0 <= j.started_at <= MAX_FORMAT_SECS) ==> row@[1]@ == Seq::<char>::empty())
    &&& (j.completed_at matches Some(t) ==> (0 <= t <= MAX_FORMAT_SECS
        ==> local_rendering_of(t as int, row@[2]@)))
    &&& (j.completed_at is None ==> row@[2]@ == Seq::<char>::empty())
    &&& row@[3]@ == job_status_label(j.status)
    &&& row@[4]@ == job_conclusion_label(j.conclusion)
}

/// Formats one job as its table row.
pub fn job_row(j: &WorkflowJob) -> (row: Vec<String>)
    ensures
        job_row_matches(row, *j),
{
    let completed = match j.completed_at {
        Some(t) => local_time_label(t),
        None => String::new(),
    };
    let mut row: Vec<String> = Vec::new();
    row.push(j.name.clone());
    row.push(local_time_label(j.started_at));
    row.push(completed);
    row.push(j.status.label());
    row.push(j.conclusion.label());
    row
}

/// One panel's frame, ready to draw: a status line, one row of string
/// columns per data row, and the selected row index.
#[derive(Debug)]
pub struct TableSnapshot {
    pub status_line: String,
    pub rows: Vec<Vec<String>>,
    pub selected: Option<usize>,
}

/// Renders the run-list panel's view-state: one row per run, in list
/// order, with the panel's selection and status line.
pub fn render_run_list(w: &WorkflowRunListWidget) -> (s: TableSnapshot)
    requires
        w.wf(),
    ensures
        s.rows@.len() == w.workflow_runs@.len(),
        forall|i: int|
            0 <= i < w.workflow_runs@.len() ==> run_row_matches(
                #[trigger] s.rows@[i],
                w.workflow_runs@[i],
            ),
        s.selected == w.selected,
        status_line_matches(w.loading_state, s.status_line@),
{
    let mut rows: Vec<Vec<String>> = Vec::new();
    let mut i: usize = 0;
    while i < w.workflow_runs.len()
        invariant
            i <= w.workflow_runs@.len(),
            rows@.len() == i,
            forall|k: int|
                0 <= k < i ==> run_row_matches(#[trigger] rows@[k], w.workflow_runs@[k]),
        decreases w.workflow_runs@.len() - i,
    {
        rows.push(run_row(&w.workflow_runs[i]));
        i += 1;
    }
    TableSnapshot {
        status_line: loading_status_line(&w.loading_state),
        rows,
        selected: w.selected,
    }
}

/// Renders the job-detail panel's view-state: one row per job, in
/// provider order, with the panel's selection and status line.
pub fn render_details(w: &WorkflowDetailsWidget) -> (s: TableSnapshot)
    requires
        w.wf(),
    ensures
        s.rows@.len() == w.workflow_jobs@.len(),
        forall|i: int|
            0 <= i < w.workflow_jobs@.len() ==> job_row_matches(
                #[trigger] s.rows@[i],
                w.workflow_jobs@[i],
            ),
        s.selected == w.selected,
        status_line_matches(w.loading_state, s.status_line@),
{
    let mut rows: Vec<Vec<String>> = Vec::new();
    let mut i: usize = 0;
    while i < w.workflow_jobs.len()
        invariant
            i <= w.workflow_jobs@.len(),
            rows@.len() == i,
            forall|k: int|
                0 <= k < i ==> job_row_matches(#[trigger] rows@[k], w.workflow_jobs@[k]),
        decreases w.workflow_jobs@.len() - i,
    {
        rows.push(job_row(&w.workflow_jobs[i]));
        i += 1;
    }
    TableSnapshot {
        status_line: loading_status_line(&w.loading_state),
        rows,
        selected: w.selected,
    }
}

} // verus!
