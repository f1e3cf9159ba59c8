//! The two panel controllers: the run list and the job detail.
//!
//! Each controller owns the view-state of its panel: the rows, the
//! loading state and the selection, and, for the detail panel, a
//! visibility flag and the run it tracks. The surrounding program
//! guards a controller behind its own lock, runs the polling loops and
//! performs the returned actions; everything that decides — what a
//! fetch result does to the rows, how the selection moves, what a key
//! press means — is here.
//!
//! Selection across a refresh is preserved by index. When a refresh
//! shrinks the rows below the previous selection the selection is
//! clamped to the last remaining row, and cleared only when the new
//! row set is empty, so that it always stays a valid index.

use vstd::prelude::*;

use crate::events::Action;
use crate::events::Key;
use crate::models::Repository;
use crate::models::WorkflowJob;
use crate::models::WorkflowRun;
use crate::models::run_eqv;
use crate::state::FetchEvent;
use crate::state::LoadingState;
use crate::timefmt::now_unix_secs;

verus! {

/// The selection after rows were replaced on a successful fetch: kept
/// where still valid, clamped to the last row where the rows shrank,
/// and set to the first row on a first load that brought any rows.
pub open spec fn loaded_sel(sel: Option<usize>, len: nat) -> Option<usize> {
    match sel {
        None => if len > 0 {
            Some(0usize)
        } else {
            None
        },
        Some(i) => if (i as nat) < len {
            Some(i)
        } else if len > 0 {
            Some((len - 1) as usize)
        } else {
            None
        },
    }
}

/// The selection after rows were replaced in a panel that never
/// auto-selects: kept where still valid, clamped or cleared otherwise.
pub open spec fn clamped_sel(sel: Option<usize>, len: nat) -> Option<usize> {
    match sel {
        None => None,
        Some(i) => if (i as nat) < len {
            Some(i)
        } else if len > 0 {
            Some((len - 1) as usize)
        } else {
            None
        },
    }
}

/// The selection after moving forward by one, saturating at the last
/// row; an empty row set keeps no selection.
pub open spec fn next_sel_down(sel: Option<usize>, len: nat) -> Option<usize> {
    match sel {
        None => if len > 0 {
            Some(0usize)
        } else {
            None
        },
        Some(i) => if (i as nat) + 1 < len {
            Some((i + 1) as usize)
        } else {
            Some(i)
        },
    }
}

/// The selection after moving backward by one, saturating at the
/// first row; an empty row set keeps no selection.
pub open spec fn next_sel_up(sel: Option<usize>, len: nat) -> Option<usize> {
    match sel {
        None => if len > 0 {
            Some(0usize)
        } else {
            None
        },
        Some(i) => if i == 0 {
            Some(i)
        } else {
            Some((i - 1) as usize)
        },
    }
}

/// A first load that brings rows selects the first row.
pub proof fn lemma_first_load_auto_select(len: nat)
    requires
        len > 0,
    ensures
        loaded_sel(None, len) == Some(0usize),
{
}

/// A refresh that keeps at least as many rows as the selected index
/// needs leaves the selection exactly where it was.
pub proof fn lemma_selection_preserved(i: usize, len: nat)
    requires
        (i as nat) < len,
    ensures
        loaded_sel(Some(i), len) == Some(i),
{
}

/// Moving backward from the first row, or forward from the last row,
/// leaves the selection unchanged.
pub proof fn lemma_scroll_saturation(i: usize, len: nat)
    requires
        (i as nat) < len,
    ensures
        i == 0 ==> next_sel_up(Some(i), len) == Some(i),
        (i as nat) == len - 1 ==> next_sel_down(Some(i), len) == Some(i),
{
}

/// View-state of the job detail panel: the jobs of the run it tracks,
/// its loading state, its selection, whether it is shown, and the
/// tracked run, which is fixed for the lifetime of one show.
#[derive(Debug)]
pub struct WorkflowDetailsWidget {
    pub workflow_jobs: Vec<WorkflowJob>,
    pub loading_state: LoadingState,
    pub selected: Option<usize>,
    pub visible: bool,
    pub workflow: Option<WorkflowRun>,
}

impl WorkflowDetailsWidget {
    /// The selection, when present, is a valid index into the rows.
    pub open spec fn wf(self) -> bool {
        self.selected matches Some(i) ==> (i as int) < self.workflow_jobs@.len()
    }

    /// Relation to the state before a `hide`: rows cleared at once,
    /// selection cleared with them, panel not visible; the loading
    /// state and the tracked run stay.
    pub open spec fn hidden_cleared(self, before: Self) -> bool {
        &&& self.workflow_jobs@ == Seq::<WorkflowJob>::empty()
        &&& !self.visible
        &&& self.selected is None
        &&& self.loading_state == before.loading_state
        &&& self.workflow == before.workflow
    }

    /// Relation to the state before the panel was opened for `run`:
    /// visible, no stale rows, no selection, tracking `run`.
    pub open spec fn opened_for(self, before: Self, run: WorkflowRun) -> bool {
        &&& self.visible
        &&& self.workflow_jobs@ == Seq::<WorkflowJob>::empty()
        &&& self.selected is None
        &&& self.loading_state == before.loading_state
        &&& (self.workflow matches Some(w) && run_eqv(w, run))
    }

    pub fn new() -> (w: Self)
        ensures
            w.workflow_jobs@ == Seq::<WorkflowJob>::empty(),
            w.loading_state is Idle,
            w.selected is None,
            !w.visible,
            w.workflow is None,
            w.wf(),
    {
        WorkflowDetailsWidget {
            workflow_jobs: Vec::new(),
            loading_state: LoadingState::Idle,
            selected: None,
            visible: false,
            workflow: None,
        }
    }

    /// The liveness predicate of the panel's polling task: the task
    /// keeps polling only while the panel is visible.
    pub fn is_visible(&self) -> (r: bool)
        ensures
            r == self.visible,
    {
        self.visible
    }

    pub fn show(&mut self)
        ensures
            final(self).visible,
            final(self).workflow_jobs == old(self).workflow_jobs,
            final(self).loading_state == old(self).loading_state,
            final(self).selected == old(self).selected,
            final(self).workflow == old(self).workflow,
    {
        self.visible = true;
    }

    /// Hides the panel and clears its rows at once: stale job rows of
    /// a previous run must not show up when the panel is reopened
    /// before its next fetch completes.
    pub fn hide_panel(&mut self)
        ensures
            final(self).hidden_cleared(*old(self)),
            final(self).wf(),
    {
        self.workflow_jobs.clear();
        self.selected = None;
        self.visible = false;
    }

    /// Fixes the run this panel tracks for the lifetime of the
    /// current show.
    pub fn track(&mut self, run: WorkflowRun)
        ensures
            final(self).workflow == Some(run),
            final(self).workflow_jobs == old(self).workflow_jobs,
            final(self).loading_state == old(self).loading_state,
            final(self).selected == old(self).selected,
            final(self).visible == old(self).visible,
    {
        self.workflow = Some(run);
    }

    pub fn set_loading_state(&mut self, st: LoadingState)
        ensures
            final(self).loading_state == st,
            final(self).workflow_jobs == old(self).workflow_jobs,
            final(self).selected == old(self).selected,
            final(self).visible == old(self).visible,
            final(self).workflow == old(self).workflow,
    {
        self.loading_state = st;
    }

    /// A successful fetch replaces the rows wholesale and records the
    /// completion time.
    pub fn on_load(&mut self, jobs: Vec<WorkflowJob>, now: i64)
        requires
            old(self).wf(),
        ensures
            final(self).wf(),
            final(self).workflow_jobs@ == jobs@,
            final(self).loading_state == LoadingState::Loaded(now),
            final(self).selected == clamped_sel(old(self).selected, jobs@.len()),
            final(self).visible == old(self).visible,
            final(self).workflow == old(self).workflow,
    {
        self.workflow_jobs = jobs;
        let len = self.workflow_jobs.len();
        self.selected = match self.selected {
            None => None,
            Some(i) => if i < len {
                Some(i)
            } else if len > 0 {
                Some(len - 1)
            } else {
                None
            },
        };
        self.loading_state = self.loading_state.transition(FetchEvent::Succeeded(now));
    }

    /// A failed fetch only records the error: the rows and the
    /// selection are not disturbed.
    pub fn on_err(&mut self, message: String)
        ensures
            final(self).loading_state == LoadingState::Error(message),
            final(self).workflow_jobs == old(self).workflow_jobs,
            final(self).selected == old(self).selected,
            final(self).visible == old(self).visible,
            final(self).workflow == old(self).workflow,
    {
        self.loading_state = self.loading_state.transition(FetchEvent::Failed(message));
    }

    /// Every fetch attempt moves the panel to `Loading` before the
    /// call is made.
    pub fn start_fetch(&mut self)
        ensures
            final(self).loading_state is Loading,
            final(self).workflow_jobs == old(self).workflow_jobs,
            final(self).selected == old(self).selected,
            final(self).visible == old(self).visible,
            final(self).workflow == old(self).workflow,
    {
        self.loading_state = self.loading_state.transition(FetchEvent::StartedFetch);
    }

    /// Completes a successful fetch with the clock's current time as
    /// the recorded refresh instant.
    pub fn refresh_succeeded(&mut self, jobs: Vec<WorkflowJob>)
        requires
            old(self).wf(),
        ensures
            final(self).wf(),
            final(self).workflow_jobs@ == jobs@,
            final(self).loading_state is Loaded,
            final(self).selected == clamped_sel(old(self).selected, jobs@.len()),
            final(self).visible == old(self).visible,
            final(self).workflow == old(self).workflow,
    {
        let now = now_unix_secs();
        self.on_load(jobs, now);
    }
}

/// View-state of the run-list panel: the repository targets it polls,
/// the run rows, the loading state, the selection, and the owned job
/// detail panel.
#[derive(Debug)]
pub struct WorkflowRunListWidget {
    pub repos: Vec<Repository>,
    pub workflow_runs: Vec<WorkflowRun>,
    pub loading_state: LoadingState,
    pub selected: Option<usize>,
    pub details: WorkflowDetailsWidget,
}

impl WorkflowRunListWidget {
    /// The selection, when present, is a valid index into the rows,
    /// and the owned detail panel is well-formed.
    pub open spec fn wf(self) -> bool {
        &&& (self.selected matches Some(i) ==> (i as int) < self.workflow_runs@.len())
        &&& self.details.wf()
    }

    /// The list's own fields are those of `other`; the detail panel
    /// may differ.
    pub open spec fn core_unchanged(self, other: Self) -> bool {
        &&& self.repos == other.repos
        &&& self.workflow_runs == other.workflow_runs
        &&& self.loading_state == other.loading_state
        &&& self.selected == other.selected
    }

    /// Only the selection moved to `sel`; every other field, the
    /// detail panel included, is that of `before`.
    pub open spec fn scrolled_to(self, before: Self, sel: Option<usize>) -> bool {
        &&& self.repos == before.repos
        &&& self.workflow_runs == before.workflow_runs
        &&& self.loading_state == before.loading_state
        &&& self.details == before.details
        &&& self.selected == sel
    }

    pub fn new(repos: Vec<Repository>) -> (w: Self)
        ensures
            w.repos == repos,
            w.workflow_runs@ == Seq::<WorkflowRun>::empty(),
            w.loading_state is Idle,
            w.selected is None,
            !w.details.visible,
            w.wf(),
    {
        WorkflowRunListWidget {
            repos,
            workflow_runs: Vec::new(),
            loading_state: LoadingState::Idle,
            selected: None,
            details: WorkflowDetailsWidget::new(),
        }
    }

    /// A successful fetch replaces the rows wholesale, records the
    /// completion time, and selects the first row on a first load that
    /// brought any rows; an existing selection is left in place (or
    /// clamped, see the module note).
    pub fn on_load(&mut self, runs: Vec<WorkflowRun>, now: i64)
        requires
            old(self).wf(),
        ensures
            final(self).wf(),
            final(self).workflow_runs@ == runs@,
            final(self).loading_state == LoadingState::Loaded(now),
            final(self).selected == loaded_sel(old(self).selected, runs@.len()),
            final(self).details == old(self).details,
            final(self).repos == old(self).repos,
    {
        self.workflow_runs = runs;
        let len = self.workflow_runs.len();
        self.selected = match self.selected {
            None => if len > 0 {
                Some(0)
            } else {
                None
            },
            Some(i) => if i < len {
                Some(i)
            } else if len > 0 {
                Some(len - 1)
            } else {
                None
            },
        };
        self.loading_state = self.loading_state.transition(FetchEvent::Succeeded(now));
    }

    /// A failed fetch only records the error: the rows and the
    /// selection are not disturbed.
    pub fn on_err(&mut self, message: String)
        ensures
            final(self).loading_state == LoadingState::Error(message),
            final(self).workflow_runs == old(self).workflow_runs,
            final(self).selected == old(self).selected,
            final(self).details == old(self).details,
            final(self).repos == old(self).repos,
    {
        self.loading_state = self.loading_state.transition(FetchEvent::Failed(message));
    }

    /// Every fetch attempt moves the panel to `Loading` before the
    /// call is made.
    pub fn start_fetch(&mut self)
        ensures
            final(self).loading_state is Loading,
            final(self).workflow_runs == old(self).workflow_runs,
            final(self).selected == old(self).selected,
            final(self).details == old(self).details,
            final(self).repos == old(self).repos,
    {
        self.loading_state = self.loading_state.transition(FetchEvent::StartedFetch);
    }

    pub fn set_loading_state(&mut self, st: LoadingState)
        ensures
            final(self).loading_state == st,
            final(self).workflow_runs == old(self).workflow_runs,
            final(self).selected == old(self).selected,
            final(self).details == old(self).details,
            final(self).repos == old(self).repos,
    {
        self.loading_state = st;
    }

    /// Completes a successful fetch with the clock's current time as
    /// the recorded refresh instant.
    pub fn refresh_succeeded(&mut self, runs: Vec<WorkflowRun>)
        requires
            old(self).wf(),
        ensures
            final(self).wf(),
            final(self).workflow_runs@ == runs@,
            final(self).loading_state is Loaded,
            final(self).selected == loaded_sel(old(self).selected, runs@.len()),
            final(self).details == old(self).details,
            final(self).repos == old(self).repos,
    {
        let now = now_unix_secs();
        self.on_load(runs, now);
    }

    /// Moves the selection forward by one, saturating at the last row.
    pub fn scroll_down(&mut self)
        requires
            old(self).wf(),
        ensures
            final(self).wf(),
            final(self).selected == next_sel_down(
                old(self).selected,
                old(self).workflow_runs@.len(),
            ),
            final(self).workflow_runs == old(self).workflow_runs,
            final(self).loading_state == old(self).loading_state,
            final(self).details == old(self).details,
            final(self).repos == old(self).repos,
    {
        let len = self.workflow_runs.len();
        self.selected = match self.selected {
            None => if len > 0 {
                Some(0)
            } else {
                None
            },
            Some(i) => if i + 1 < len {
                Some(i + 1)
            } else {
                Some(i)
            },
        };
    }

    /// Moves the selection backward by one, saturating at the first
    /// row.
    pub fn scroll_up(&mut self)
        requires
            old(self).wf(),
        ensures
            final(self).wf(),
            final(self).selected == next_sel_up(
                old(self).selected,
                old(self).workflow_runs@.len(),
            ),
            final(self).workflow_runs == old(self).workflow_runs,
            final(self).loading_state == old(self).loading_state,
            final(self).details == old(self).details,
            final(self).repos == old(self).repos,
    {
        let len = self.workflow_runs.len();
        self.selected = match self.selected {
            None => if len > 0 {
                Some(0)
            } else {
                None
            },
            Some(i) => if i == 0 {
                Some(i)
            } else {
                Some(i - 1)
            },
        };
    }

    /// The detail URL of the selected run; nothing when no run is
    /// selected.
    pub fn selected_url(&self) -> (r: Option<String>)
        requires
            self.wf(),
        ensures
            (self.selected matches Some(i) ==> (r matches Some(u) && u@
                == self.workflow_runs@[i as int].html_url@)),
            self.selected is None ==> r is None,
    {
        match self.selected {
            Some(i) => Some(self.workflow_runs[i].html_url.clone()),
            None => None,
        }
    }

    /// Opens the detail panel for the selected run: any previous
    /// instance is fully hidden first, so that two pollers never track
    /// the same panel. Returns whether a panel was opened — the caller
    /// must then start a fresh polling task for it.
    pub fn show_details(&mut self) -> (started: bool)
        requires
            old(self).wf(),
        ensures
            final(self).wf(),
            final(self).core_unchanged(*old(self)),
            (old(self).selected matches Some(i) ==> started && final(self).details.opened_for(
                old(self).details,
                old(self).workflow_runs@[i as int],
            )),
            old(self).selected is None ==> !started && *final(self) == *old(self),
    {
        let idx = match self.selected {
            Some(i) => i,
            None => {
                return false;
            },
        };
        let run = self.workflow_runs[idx].clone();
        self.details.hide_panel();
        self.details.show();
        self.details.track(run);
        true
    }

    /// Hides the detail panel, clearing its rows at once.
    pub fn hide_details(&mut self)
        requires
            old(self).wf(),
        ensures
            final(self).wf(),
            final(self).core_unchanged(*old(self)),
            final(self).details.hidden_cleared(old(self).details),
    {
        self.details.hide_panel();
    }

    /// Synchronous dispatch on a key press: Enter asks for the
    /// selected run's URL to be opened, `d` opens the detail panel,
    /// `j`/Down and `k`/Up move the selection, `r` asks for an
    /// immediate fetch, Esc hides the detail panel, and anything else
    /// is ignored.
    pub fn handle_key(&mut self, key: Key) -> (act: Option<Action>)
        requires
            old(self).wf(),
        ensures
            final(self).wf(),
            (key == Key::Enter ==> (old(self).selected matches Some(i) ==> (
                (act matches Some(a) && (a matches Action::OpenUrl(u)
                    && u@ == old(self).workflow_runs@[i as int].html_url@))
                && *final(self) == *old(self)))),
            (key == Key::Enter && old(self).selected is None
                ==> act is None && *final(self) == *old(self)),
            (key == Key::Char('d') ==> (old(self).selected matches Some(i) ==> (
                act == Some(Action::StartDetailsPoll)
                && final(self).core_unchanged(*old(self))
                && final(self).details.opened_for(
                    old(self).details,
                    old(self).workflow_runs@[i as int],
                )))),
            (key == Key::Char('d') && old(self).selected is None
                ==> act is None && *final(self) == *old(self)),
            ((key == Key::Char('j') || key == Key::Down) ==> (act is None
                && final(self).scrolled_to(
                    *old(self),
                    next_sel_down(old(self).selected, old(self).workflow_runs@.len()),
                ))),
            ((key == Key::Char('k') || key == Key::Up) ==> (act is None
                && final(self).scrolled_to(
                    *old(self),
                    next_sel_up(old(self).selected, old(self).workflow_runs@.len()),
                ))),
            (key == Key::Char('r')
                ==> act == Some(Action::Refresh) && *final(self) == *old(self)),
            (key == Key::Esc ==> (act is None
                && final(self).core_unchanged(*old(self))
                && final(self).details.hidden_cleared(old(self).details))),
            (!(key == Key::Enter || key == Key::Esc || key == Key::Down || key == Key::Up || key
                == Key::Char('d') || key == Key::Char('j') || key == Key::Char('k') || key
                == Key::Char('r')) ==> act is None && *final(self) == *old(self)),
    {
        match key {
            Key::Enter => {
                match self.selected_url() {
                    Some(u) => Some(Action::OpenUrl(u)),
                    None => None,
                }
            },
            Key::Char(c) => {
                if c == 'd' {
                    if self.show_details() {
                        Some(Action::StartDetailsPoll)
                    } else {
                        None
                    }
                } else if c == 'j' {
                    self.scroll_down();
                    None
                } else if c == 'k' {
                    self.scroll_up();
                    None
                } else if c == 'r' {
                    Some(Action::Refresh)
                } else {
                    None
                }
            },
            Key::Down => {
                self.scroll_down();
                None
            },
            Key::Up => {
                self.scroll_up();
                None
            },
            Key::Esc => {
                self.hide_details();
                None
            },
            Key::Other => None,
        }
    }
}

} // verus!
