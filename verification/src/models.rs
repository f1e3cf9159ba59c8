//! Domain model: repository targets, workflow runs, workflow jobs, and
//! the status / conclusion enumerations with their provider-string
//! normalization and display labels.
//!
//! Values are immutable per fetch: the fetch layer builds them from
//! plain provider fields and never mutates them afterwards. Timestamps
//! are Unix seconds; URLs are carried as plain strings.

use vstd::prelude::*;

verus! {

/// Compares two string slices character by character.
pub fn str_eq(a: &str, b: &str) -> (r: bool)
    ensures
        r == (a@ == b@),
{
    let alen = a.unicode_len();
    let blen = b.unicode_len();
    if alen != blen {
        return false;
    }
    let mut i: usize = 0;
    while i < alen
        invariant
            i <= alen,
            alen == a@.len(),
            blen == b@.len(),
            alen == blen,
            forall|k: int| 0 <= k < i ==> a@[k] == b@[k],
        decreases alen - i,
    {
        if a.get_char(i) != b.get_char(i) {
            return false;
        }
        i += 1;
    }
    proof {
        assert(a@ =~= b@);
    }
    true
}

/// One repository to poll: whose runs to list, on which branch, by
/// which actor, and how many recent runs to request.
#[derive(Debug, Clone)]
pub struct Repository {
    pub owner: String,
    pub name: String,
    pub branch: Option<String>,
    pub count: Option<u8>,
    pub actor: Option<String>,
}

impl Repository {
    /// The branch to filter runs by; `main` when none is configured.
    pub fn branch_or_default(&self) -> (r: String)
        ensures
            self.branch matches Some(b) ==> r@ == b@,
            self.branch is None ==> r@ == "main"@,
    {
        match &self.branch {
            Some(b) => b.clone(),
            None => "main".to_owned(),
        }
    }

    /// How many recent runs to request; one when none is configured.
    pub fn count_or_default(&self) -> (r: u8)
        ensures
            self.count matches Some(c) ==> r == c,
            self.count is None ==> r == 1,
    {
        match self.count {
            Some(c) => c,
            None => 1,
        }
    }

    /// The actor to filter runs by; empty when none is configured.
    pub fn actor_or_default(&self) -> (r: String)
        ensures
            self.actor matches Some(a) ==> r@ == a@,
            self.actor is None ==> r@.len() == 0,
    {
        match &self.actor {
            Some(a) => a.clone(),
            None => String::new(),
        }
    }
}

/// Lifecycle phase of a workflow run, normalized from the provider's
/// status string with an open escape hatch for unrecognized values.
#[derive(Debug, PartialEq)]
pub enum WorkflowRunStatus {
    InProgress,
    Completed,
    Other(String),
}

/// The run status that `provider` normalizes to.
pub open spec fn run_status_matches(r: WorkflowRunStatus, provider: Seq<char>) -> bool {
    if provider == "in_progress"@ {
        r is InProgress
    } else if provider == "completed"@ {
        r is Completed
    } else {
        r matches WorkflowRunStatus::Other(s) && s@ == provider
    }
}

/// The display label of a run status.
pub open spec fn run_status_label(r: WorkflowRunStatus) -> Seq<char> {
    match r {
        WorkflowRunStatus::InProgress => "In Progress"@,
        WorkflowRunStatus::Completed => "Completed"@,
        WorkflowRunStatus::Other(c) => c@,
    }
}

/// Two run statuses that carry the same value.
pub open spec fn run_status_eqv(a: WorkflowRunStatus, b: WorkflowRunStatus) -> bool {
    match (a, b) {
        (WorkflowRunStatus::InProgress, WorkflowRunStatus::InProgress) => true,
        (WorkflowRunStatus::Completed, WorkflowRunStatus::Completed) => true,
        (WorkflowRunStatus::Other(x), WorkflowRunStatus::Other(y)) => x@ == y@,
        _ => false,
    }
}

impl WorkflowRunStatus {
    /// Normalizes the provider's status string.
    pub fn from_provider(c: &str) -> (r: Self)
        ensures
            run_status_matches(r, c@),
    {
        if str_eq(c, "in_progress") {
            WorkflowRunStatus::InProgress
        } else if str_eq(c, "completed") {
            WorkflowRunStatus::Completed
        } else {
            WorkflowRunStatus::Other(c.to_owned())
        }
    }

    /// The human-readable label shown in the status column.
    pub fn label(&self) -> (r: String)
        ensures
            r@ == run_status_label(*self),
    {
        match self {
            WorkflowRunStatus::InProgress => "In Progress".to_owned(),
            WorkflowRunStatus::Completed => "Completed".to_owned(),
            WorkflowRunStatus::Other(c) => c.clone(),
        }
    }
}

impl Default for WorkflowRunStatus {
    fn default() -> (r: Self)
        ensures
            r is InProgress,
    {
        WorkflowRunStatus::InProgress
    }
}

impl Clone for WorkflowRunStatus {
    fn clone(&self) -> (r: Self)
        ensures
            run_status_eqv(*self, r),
    {
        match self {
            WorkflowRunStatus::InProgress => WorkflowRunStatus::InProgress,
            WorkflowRunStatus::Completed => WorkflowRunStatus::Completed,
            WorkflowRunStatus::Other(c) => WorkflowRunStatus::Other(c.clone()),
        }
    }
}

/// Terminal outcome of a workflow run. `Pending` stands for a run whose
/// conclusion the provider has not reported yet.
#[derive(Debug, PartialEq)]
pub enum WorkflowRunConclusion {
    Pending,
    Success,
    Failure,
    Other(String),
}

/// The run conclusion that `provider` normalizes to.
pub open spec fn run_conclusion_matches(r: WorkflowRunConclusion, provider: Seq<char>) -> bool {
    if provider == "success"@ {
        r is Success
    } else if provider == "failure"@ {
        r is Failure
    } else {
        r matches WorkflowRunConclusion::Other(s) && s@ == provider
    }
}

/// The display label of a run conclusion.
pub open spec fn run_conclusion_label(r: WorkflowRunConclusion) -> Seq<char> {
    match r {
        WorkflowRunConclusion::Pending => "⌛ Pending"@,
        WorkflowRunConclusion::Success => "✅ Success"@,
        WorkflowRunConclusion::Failure => "❌ Failure"@,
        WorkflowRunConclusion::Other(c) => c@,
    }
}

/// Two run conclusions that carry the same value.
pub open spec fn run_conclusion_eqv(a: WorkflowRunConclusion, b: WorkflowRunConclusion) -> bool {
    match (a, b) {
        (WorkflowRunConclusion::Pending, WorkflowRunConclusion::Pending) => true,
        (WorkflowRunConclusion::Success, WorkflowRunConclusion::Success) => true,
        (WorkflowRunConclusion::Failure, WorkflowRunConclusion::Failure) => true,
        (WorkflowRunConclusion::Other(x), WorkflowRunConclusion::Other(y)) => x@ == y@,
        _ => false,
    }
}

impl WorkflowRunConclusion {
    /// Normalizes the provider's conclusion string.
    pub fn from_provider(c: &str) -> (r: Self)
        ensures
            run_conclusion_matches(r, c@),
    {
        if str_eq(c, "success") {
            WorkflowRunConclusion::Success
        } else if str_eq(c, "failure") {
            WorkflowRunConclusion::Failure
        } else {
            WorkflowRunConclusion::Other(c.to_owned())
        }
    }

    /// The human-readable label shown in the completion column.
    pub fn label(&self) -> (r: String)
        ensures
            r@ == run_conclusion_label(*self),
    {
        match self {
            WorkflowRunConclusion::Pending => "⌛ Pending".to_owned(),
            WorkflowRunConclusion::Success => "✅ Success".to_owned(),
            WorkflowRunConclusion::Failure => "❌ Failure".to_owned(),
            WorkflowRunConclusion::Other(c) => c.clone(),
        }
    }
}

impl Default for WorkflowRunConclusion {
    fn default() -> (r: Self)
        ensures
            r is Pending,
    {
        WorkflowRunConclusion::Pending
    }
}

impl Clone for WorkflowRunConclusion {
    fn clone(&self) -> (r: Self)
        ensures
            run_conclusion_eqv(*self, r),
    {
        match self {
            WorkflowRunConclusion::Pending => WorkflowRunConclusion::Pending,
            WorkflowRunConclusion::Success => WorkflowRunConclusion::Success,
            WorkflowRunConclusion::Failure => WorkflowRunConclusion::Failure,
            WorkflowRunConclusion::Other(c) => WorkflowRunConclusion::Other(c.clone()),
        }
    }
}

/// Every named run conclusion has a stable, non-empty display label,
/// and the label of an `Other` conclusion is the unrecognized provider
/// string itself, carried verbatim.
pub proof fn lemma_run_conclusion_label_round_trip(c: WorkflowRunConclusion)
    ensures
        !(c matches WorkflowRunConclusion::Other(_)) ==> run_conclusion_label(c).len() > 0,
        c matches WorkflowRunConclusion::Other(s) ==> run_conclusion_label(c) == s@,
{
    reveal_strlit("⌛ Pending");
    reveal_strlit("✅ Success");
    reveal_strlit("❌ Failure");
}

/// Lifecycle phase of a job within a run, normalized from the
/// provider's status value.
#[derive(Debug, Clone, PartialEq)]
pub enum WorkflowJobStatus {
    Pending,
    Queued,
    InProgress,
    Completed,
    Failed,
    Other(String),
}

/// The job status that `provider` normalizes to.
pub open spec fn job_status_matches(r: WorkflowJobStatus, provider: Seq<char>) -> bool {
    if provider == "pending"@ {
        r is Pending
    } else if provider == "queued"@ {
        r is Queued
    } else if provider == "in_progress"@ {
        r is InProgress
    } else if provider == "completed"@ {
        r is Completed
    } else if provider == "failed"@ {
        r is Failed
    } else {
        r matches WorkflowJobStatus::Other(s) && s@ == provider
    }
}

/// The display label of a job status.
pub open spec fn job_status_label(r: WorkflowJobStatus) -> Seq<char> {
    match r {
        WorkflowJobStatus::Pending => "Pending"@,
        WorkflowJobStatus::Queued => "Queued"@,
        WorkflowJobStatus::InProgress => "In Progress"@,
        WorkflowJobStatus::Completed => "Completed"@,
        WorkflowJobStatus::Failed => "Failed"@,
        WorkflowJobStatus::Other(c) => c@,
    }
}

impl WorkflowJobStatus {
    /// Normalizes the provider's status value.
    pub fn from_provider(c: &str) -> (r: Self)
        ensures
            job_status_matches(r, c@),
    {
        if str_eq(c, "pending") {
            WorkflowJobStatus::Pending
        } else if str_eq(c, "queued") {
            WorkflowJobStatus::Queued
        } else if str_eq(c, "in_progress") {
            WorkflowJobStatus::InProgress
        } else if str_eq(c, "completed") {
            WorkflowJobStatus::Completed
        } else if str_eq(c, "failed") {
            WorkflowJobStatus::Failed
        } else {
            WorkflowJobStatus::Other(c.to_owned())
        }
    }

    /// The human-readable label shown in the status column.
    pub fn label(&self) -> (r: String)
        ensures
            r@ == job_status_label(*self),
    {
        match self {
            WorkflowJobStatus::Pending => "Pending".to_owned(),
            WorkflowJobStatus::Queued => "Queued".to_owned(),
            WorkflowJobStatus::InProgress => "In Progress".to_owned(),
            WorkflowJobStatus::Completed => "Completed".to_owned(),
            WorkflowJobStatus::Failed => "Failed".to_owned(),
            WorkflowJobStatus::Other(c) => c.clone(),
        }
    }
}

impl Default for WorkflowJobStatus {
    fn default() -> (r: Self)
        ensures
            r is Pending,
    {
        WorkflowJobStatus::Pending
    }
}

/// Terminal outcome of a job. `Neutral` stands for a job whose
/// conclusion the provider has not reported yet.
#[derive(Debug, Clone, PartialEq)]
pub enum WorkflowJobConclusion {
    ActionRequired,
    Cancelled,
    Failure,
    Neutral,
    Skipped,
    Success,
    TimedOut,
    Other(String),
}

/// The job conclusion that `provider` normalizes to.
pub open spec fn job_conclusion_matches(r: WorkflowJobConclusion, provider: Seq<char>) -> bool {
    if provider == "action_required"@ {
        r is ActionRequired
    } else if provider == "cancelled"@ {
        r is Cancelled
    } else if provider == "failure"@ {
        r is Failure
    } else if provider == "neutral"@ {
        r is Neutral
    } else if provider == "skipped"@ {
        r is Skipped
    } else if provider == "success"@ {
        r is Success
    } else if provider == "timed_out"@ {
        r is TimedOut
    } else {
        r matches WorkflowJobConclusion::Other(s) && s@ == provider
    }
}

/// The display label of a job conclusion.
pub open spec fn job_conclusion_label(r: WorkflowJobConclusion) -> Seq<char> {
    match r {
        WorkflowJobConclusion::ActionRequired => "Action Required"@,
        WorkflowJobConclusion::Cancelled => "🛑 Cancelled"@,
        WorkflowJobConclusion::Failure => "❌ Failure"@,
        WorkflowJobConclusion::Neutral => "Neutral"@,
        WorkflowJobConclusion::Skipped => "⏩ Skipped"@,
        WorkflowJobConclusion::Success => "✅ Success"@,
        WorkflowJobConclusion::TimedOut => "⏱️ Timed Out"@,
        WorkflowJobConclusion::Other(c) => c@,
    }
}

impl WorkflowJobConclusion {
    /// Normalizes the provider's conclusion value.
    pub fn from_provider(c: &str) -> (r: Self)
        ensures
            job_conclusion_matches(r, c@),
    {
        if str_eq(c, "action_required") {
            WorkflowJobConclusion::ActionRequired
        } else if str_eq(c, "cancelled") {
            WorkflowJobConclusion::Cancelled
        } else if str_eq(c, "failure") {
            WorkflowJobConclusion::Failure
        } else if str_eq(c, "neutral") {
            WorkflowJobConclusion::Neutral
        } else if str_eq(c, "skipped") {
            WorkflowJobConclusion::Skipped
        } else if str_eq(c, "success") {
            WorkflowJobConclusion::Success
        } else if str_eq(c, "timed_out") {
            WorkflowJobConclusion::TimedOut
        } else {
            WorkflowJobConclusion::Other(c.to_owned())
        }
    }

    /// The human-readable label shown in the conclusion column.
    pub fn label(&self) -> (r: String)
        ensures
            r@ == job_conclusion_label(*self),
    {
        match self {
            WorkflowJobConclusion::ActionRequired => "Action Required".to_owned(),
            WorkflowJobConclusion::Cancelled => "🛑 Cancelled".to_owned(),
            WorkflowJobConclusion::Failure => "❌ Failure".to_owned(),
            WorkflowJobConclusion::Neutral => "Neutral".to_owned(),
            WorkflowJobConclusion::Skipped => "⏩ Skipped".to_owned(),
            WorkflowJobConclusion::Success => "✅ Success".to_owned(),
            WorkflowJobConclusion::TimedOut => "⏱️ Timed Out".to_owned(),
            WorkflowJobConclusion::Other(c) => c.clone(),
        }
    }
}

impl Default for WorkflowJobConclusion {
    fn default() -> (r: Self)
        ensures
            r is Neutral,
    {
        WorkflowJobConclusion::Neutral
    }
}

/// Every named job conclusion has a stable, non-empty display label,
/// and the label of an `Other` conclusion is the unrecognized provider
/// string itself, carried verbatim.
pub proof fn lemma_job_conclusion_label_round_trip(c: WorkflowJobConclusion)
    ensures
        !(c matches WorkflowJobConclusion::Other(_)) ==> job_conclusion_label(c).len() > 0,
        c matches WorkflowJobConclusion::Other(s) ==> job_conclusion_label(c) == s@,
{
    reveal_strlit("Action Required");
    reveal_strlit("🛑 Cancelled");
    reveal_strlit("❌ Failure");
    reveal_strlit("Neutral");
    reveal_strlit("⏩ Skipped");
    reveal_strlit("✅ Success");
    reveal_strlit("⏱️ Timed Out");
}

/// One workflow run: one row of the list panel. `start_time` drives the
/// sort order of the list.
#[derive(Debug)]
pub struct WorkflowRun {
    pub id: u64,
    pub owner: String,
    pub repo: String,
    pub name: String,
    pub commit_message: String,
    pub branch: String,
    pub start_time: i64,
    pub status: WorkflowRunStatus,
    pub conclusion: WorkflowRunConclusion,
    pub html_url: String,
}

/// Two runs that carry the same values in every field.
pub open spec fn run_eqv(a: WorkflowRun, b: WorkflowRun) -> bool {
    &&& a.id == b.id
    &&& a.owner@ == b.owner@
    &&& a.repo@ == b.repo@
    &&& a.name@ == b.name@
    &&& a.commit_message@ == b.commit_message@
    &&& a.branch@ == b.branch@
    &&& a.start_time == b.start_time
    &&& run_status_eqv(a.status, b.status)
    &&& run_conclusion_eqv(a.conclusion, b.conclusion)
    &&& a.html_url@ == b.html_url@
}

impl WorkflowRun {
    /// Builds a run from the plain fields of one provider response
    /// item. A missing repository owner becomes the empty string; a
    /// missing conclusion means the run is still pending.
    pub fn from_parts(
        id: u64,
        owner: Option<String>,
        repo: String,
        name: String,
        commit_message: String,
        branch: String,
        start_time: i64,
        status: String,
        conclusion: Option<String>,
        html_url: String,
    ) -> (r: Self)
        ensures
            r.id == id,
            (owner matches Some(o) ==> r.owner@ == o@),
            owner is None ==> r.owner@.len() == 0,
            r.repo@ == repo@,
            r.name@ == name@,
            r.commit_message@ == commit_message@,
            r.branch@ == branch@,
            r.start_time == start_time,
            run_status_matches(r.status, status@),
            (conclusion matches Some(c) ==> run_conclusion_matches(r.conclusion, c@)),
            conclusion is None ==> r.conclusion is Pending,
            r.html_url@ == html_url@,
    {
        let resolved_owner = match owner {
            Some(o) => o,
            None => String::new(),
        };
        let resolved_conclusion = match conclusion {
            Some(c) => WorkflowRunConclusion::from_provider(c.as_str()),
            None => WorkflowRunConclusion::default(),
        };
        WorkflowRun {
            id,
            owner: resolved_owner,
            repo,
            name,
            commit_message,
            branch,
            start_time,
            status: WorkflowRunStatus::from_provider(status.as_str()),
            conclusion: resolved_conclusion,
            html_url,
        }
    }
}

impl Clone for WorkflowRun {
    fn clone(&self) -> (r: Self)
        ensures
            run_eqv(*self, r),
    {
        WorkflowRun {
            id: self.id,
            owner: self.owner.clone(),
            repo: self.repo.clone(),
            name: self.name.clone(),
            commit_message: self.commit_message.clone(),
            branch: self.branch.clone(),
            start_time: self.start_time,
            status: self.status.clone(),
            conclusion: self.conclusion.clone(),
            html_url: self.html_url.clone(),
        }
    }
}

/// One job within the currently selected run: one row of the detail
/// panel. The detail panel's rows are wholly replaced on each
/// successful fetch, never merged.
#[derive(Debug, Clone)]
pub struct WorkflowJob {
    pub id: u64,
    pub name: String,
    pub started_at: i64,
    pub completed_at: Option<i64>,
    pub status: WorkflowJobStatus,
    pub conclusion: WorkflowJobConclusion,
    pub html_url: String,
}

impl WorkflowJob {
    /// Builds a job from the plain fields of one provider response
    /// item. A missing conclusion means the job is still neutral.
    pub fn from_parts(
        id: u64,
        name: String,
        started_at: i64,
        completed_at: Option<i64>,
        status: String,
        conclusion: Option<String>,
        html_url: String,
    ) -> (r: Self)
        ensures
            r.id == id,
            r.name@ == name@,
            r.started_at == started_at,
            r.completed_at == completed_at,
            job_status_matches(r.status, status@),
            (conclusion matches Some(c) ==> job_conclusion_matches(r.conclusion, c@)),
            conclusion is None ==> r.conclusion is Neutral,
            r.html_url@ == html_url@,
    {
        let resolved_conclusion = match conclusion {
            Some(c) => WorkflowJobConclusion::from_provider(c.as_str()),
            None => WorkflowJobConclusion::default(),
        };
        WorkflowJob {
            id,
            name,
            started_at,
            completed_at,
            status: WorkflowJobStatus::from_provider(status.as_str()),
            conclusion: resolved_conclusion,
            html_url,
        }
    }
}

} // verus!
