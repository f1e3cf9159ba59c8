use gh_dashboard::error::FetchError;
use gh_dashboard::error::make_error;
use gh_dashboard::events::Action;
use gh_dashboard::events::App;
use gh_dashboard::events::Key;
use gh_dashboard::models::Repository;
use gh_dashboard::models::WorkflowJob;
use gh_dashboard::models::WorkflowJobConclusion;
use gh_dashboard::models::WorkflowJobStatus;
use gh_dashboard::models::WorkflowRun;
use gh_dashboard::models::WorkflowRunConclusion;
use gh_dashboard::models::WorkflowRunStatus;
use gh_dashboard::panels::WorkflowDetailsWidget;
use gh_dashboard::panels::WorkflowRunListWidget;
use gh_dashboard::render::first_line;
use gh_dashboard::render::job_row;
use gh_dashboard::render::loading_status_line;
use gh_dashboard::render::render_details;
use gh_dashboard::render::render_run_list;
use gh_dashboard::render::run_row;
use gh_dashboard::service::collect_runs;
use gh_dashboard::service::sort_runs_desc;
use gh_dashboard::state::FetchEvent;
use gh_dashboard::state::LoadingState;
use gh_dashboard::timefmt::utc_time_label;

fn run_at(repo: &str, start_time: i64) -> WorkflowRun {
    WorkflowRun {
        id: 7,
        owner: "acme".to_string(),
        repo: repo.to_string(),
        name: "ci".to_string(),
        commit_message: "fix: things\nlonger body".to_string(),
        branch: "main".to_string(),
        start_time,
        status: WorkflowRunStatus::Completed,
        conclusion: WorkflowRunConclusion::Success,
        html_url: format!("https://example.org/{}/runs/7", repo),
    }
}

fn job_named(name: &str) -> WorkflowJob {
    WorkflowJob {
        id: 3,
        name: name.to_string(),
        started_at: 0,
        completed_at: None,
        status: WorkflowJobStatus::InProgress,
        conclusion: WorkflowJobConclusion::Neutral,
        html_url: "https://example.org/job/3".to_string(),
    }
}

#[test]
fn fan_out_partial_failure_returns_surviving_rows() {
    let results: Vec<Result<Vec<WorkflowRun>, FetchError>> = vec![
        Ok(vec![run_at("a", 100)]),
        Err(FetchError::new("repo b unreachable".to_string())),
        Ok(vec![run_at("c", 300)]),
        Err(FetchError::new("repo d unauthorized".to_string())),
        Ok(vec![run_at("e", 200)]),
    ];
    let merged = collect_runs(results);
    assert_eq!(merged.len(), 3);
    assert_eq!(merged[0].repo, "c");
    assert_eq!(merged[1].repo, "e");
    assert_eq!(merged[2].repo, "a");
}

#[test]
fn merge_sorts_by_start_time_descending() {
    let t: i64 = 1000;
    let results: Vec<Result<Vec<WorkflowRun>, FetchError>> = vec![
        Ok(vec![run_at("a", t - 10)]),
        Ok(vec![run_at("b", t - 5)]),
        Ok(vec![run_at("c", t - 20)]),
    ];
    let merged = collect_runs(results);
    let times: Vec<i64> = merged.iter().map(|r| r.start_time).collect();
    assert_eq!(times, vec![t - 5, t - 10, t - 20]);
}

#[test]
fn sort_handles_duplicates_and_empty() {
    let sorted = sort_runs_desc(vec![run_at("a", 5), run_at("b", 5), run_at("c", 9)]);
    let times: Vec<i64> = sorted.iter().map(|r| r.start_time).collect();
    assert_eq!(times, vec![9, 5, 5]);
    let empty = sort_runs_desc(Vec::new());
    assert!(empty.is_empty());
}

#[test]
fn first_load_auto_selects_first_row() {
    let mut w = WorkflowRunListWidget::new(Vec::new());
    assert!(w.selected.is_none());
    w.on_load(vec![run_at("a", 3), run_at("b", 2), run_at("c", 1)], 50);
    assert_eq!(w.selected, Some(0));
    assert_eq!(w.loading_state, LoadingState::Loaded(50));
}

#[test]
fn selection_preserved_across_refresh() {
    let mut w = WorkflowRunListWidget::new(Vec::new());
    w.on_load(vec![run_at("a", 3), run_at("b", 2), run_at("c", 1)], 50);
    w.scroll_down();
    w.scroll_down();
    assert_eq!(w.selected, Some(2));
    w.on_load(vec![run_at("d", 9), run_at("e", 8), run_at("f", 7)], 60);
    assert_eq!(w.selected, Some(2));
}

#[test]
fn shrinking_refresh_clamps_selection() {
    let mut w = WorkflowRunListWidget::new(Vec::new());
    w.on_load(vec![run_at("a", 3), run_at("b", 2), run_at("c", 1)], 50);
    w.scroll_down();
    w.scroll_down();
    w.on_load(vec![run_at("d", 9)], 60);
    assert_eq!(w.selected, Some(0));
    w.on_load(Vec::new(), 70);
    assert_eq!(w.selected, None);
}

#[test]
fn failed_fetch_leaves_rows_untouched() {
    let mut w = WorkflowRunListWidget::new(Vec::new());
    w.on_load(vec![run_at("a", 3), run_at("b", 2)], 50);
    w.on_err("network down".to_string());
    assert_eq!(w.workflow_runs.len(), 2);
    assert_eq!(w.workflow_runs[0].repo, "a");
    assert_eq!(w.selected, Some(0));
    assert_eq!(w.loading_state, LoadingState::Error("network down".to_string()));
}

#[test]
fn hide_clears_detail_rows_immediately() {
    let mut d = WorkflowDetailsWidget::new();
    d.show();
    d.on_load(vec![job_named("build"), job_named("test")], 40);
    assert_eq!(d.workflow_jobs.len(), 2);
    d.hide_panel();
    assert!(d.workflow_jobs.is_empty());
    assert!(!d.is_visible());
}

#[test]
fn run_conclusion_labels_are_stable_and_nonempty() {
    assert_eq!(WorkflowRunConclusion::Pending.label(), "⌛ Pending");
    assert_eq!(WorkflowRunConclusion::Success.label(), "✅ Success");
    assert_eq!(WorkflowRunConclusion::Failure.label(), "❌ Failure");
    for c in [
        WorkflowRunConclusion::Pending,
        WorkflowRunConclusion::Success,
        WorkflowRunConclusion::Failure,
    ] {
        assert!(!c.label().is_empty());
    }
}

#[test]
fn job_conclusion_labels_are_stable_and_nonempty() {
    assert_eq!(WorkflowJobConclusion::ActionRequired.label(), "Action Required");
    assert_eq!(WorkflowJobConclusion::Cancelled.label(), "🛑 Cancelled");
    assert_eq!(WorkflowJobConclusion::Failure.label(), "❌ Failure");
    assert_eq!(WorkflowJobConclusion::Neutral.label(), "Neutral");
    assert_eq!(WorkflowJobConclusion::Skipped.label(), "⏩ Skipped");
    assert_eq!(WorkflowJobConclusion::Success.label(), "✅ Success");
    assert_eq!(WorkflowJobConclusion::TimedOut.label(), "⏱️ Timed Out");
}

#[test]
fn unrecognized_conclusion_round_trips_through_other() {
    let run_c = WorkflowRunConclusion::from_provider("stale");
    assert_eq!(run_c, WorkflowRunConclusion::Other("stale".to_string()));
    assert_eq!(run_c.label(), "stale");
    let job_c = WorkflowJobConclusion::from_provider("startup_failure");
    assert_eq!(job_c, WorkflowJobConclusion::Other("startup_failure".to_string()));
    assert_eq!(job_c.label(), "startup_failure");
}

#[test]
fn recognized_provider_strings_normalize() {
    assert_eq!(WorkflowRunConclusion::from_provider("success"), WorkflowRunConclusion::Success);
    assert_eq!(WorkflowRunConclusion::from_provider("failure"), WorkflowRunConclusion::Failure);
    assert_eq!(WorkflowRunStatus::from_provider("in_progress"), WorkflowRunStatus::InProgress);
    assert_eq!(WorkflowRunStatus::from_provider("completed"), WorkflowRunStatus::Completed);
    assert_eq!(
        WorkflowRunStatus::from_provider("queued"),
        WorkflowRunStatus::Other("queued".to_string())
    );
    assert_eq!(WorkflowJobStatus::from_provider("queued"), WorkflowJobStatus::Queued);
    assert_eq!(WorkflowJobStatus::from_provider("failed"), WorkflowJobStatus::Failed);
    assert_eq!(WorkflowJobConclusion::from_provider("timed_out"), WorkflowJobConclusion::TimedOut);
}

#[test]
fn scroll_saturates_at_both_ends() {
    let mut w = WorkflowRunListWidget::new(Vec::new());
    w.on_load(vec![run_at("a", 3), run_at("b", 2)], 50);
    assert_eq!(w.selected, Some(0));
    w.scroll_up();
    assert_eq!(w.selected, Some(0));
    w.scroll_down();
    assert_eq!(w.selected, Some(1));
    w.scroll_down();
    assert_eq!(w.selected, Some(1));
}

#[test]
fn scroll_on_empty_list_keeps_no_selection() {
    let mut w = WorkflowRunListWidget::new(Vec::new());
    w.scroll_down();
    assert_eq!(w.selected, None);
    w.scroll_up();
    assert_eq!(w.selected, None);
}

#[test]
fn loading_state_transitions() {
    let s = LoadingState::Idle;
    let s = s.transition(FetchEvent::StartedFetch);
    assert_eq!(s, LoadingState::Loading);
    let s = s.transition(FetchEvent::Succeeded(42));
    assert_eq!(s, LoadingState::Loaded(42));
    let s = s.transition(FetchEvent::StartedFetch);
    assert_eq!(s, LoadingState::Loading);
    let s = s.transition(FetchEvent::Failed("auth expired".to_string()));
    assert_eq!(s, LoadingState::Error("auth expired".to_string()));
}

#[test]
fn loading_status_line_renders_each_state() {
    assert_eq!(loading_status_line(&LoadingState::Idle), "Idle");
    assert_eq!(loading_status_line(&LoadingState::Loading), "Loading");
    assert_eq!(loading_status_line(&LoadingState::Error("boom".to_string())), "boom");
    let loaded = loading_status_line(&LoadingState::Loaded(0));
    assert!(loaded.starts_with("Last refreshed at "));
    assert_eq!(loaded.chars().count(), "Last refreshed at ".chars().count() + 19);
}

#[test]
fn utc_label_formats_exactly() {
    assert_eq!(utc_time_label(0), "1970-01-01 00:00:00");
    assert_eq!(utc_time_label(1700000000), "2023-11-14 22:13:20");
    assert_eq!(utc_time_label(-5), "");
}

#[test]
fn run_row_formats_columns() {
    let row = run_row(&run_at("site", 0));
    assert_eq!(row.len(), 7);
    assert_eq!(row[0], "acme/site");
    assert_eq!(row[1], "main");
    assert_eq!(row[2], "ci");
    assert_eq!(row[3], "fix: things");
    assert_eq!(row[4].chars().count(), 19);
    assert_eq!(row[5], "Completed");
    assert_eq!(row[6], "✅ Success");
}

#[test]
fn job_row_formats_columns() {
    let mut j = job_named("build");
    let row = job_row(&j);
    assert_eq!(row.len(), 5);
    assert_eq!(row[0], "build");
    assert_eq!(row[1].chars().count(), 19);
    assert_eq!(row[2], "");
    assert_eq!(row[3], "In Progress");
    assert_eq!(row[4], "Neutral");
    j.completed_at = Some(60);
    let row = job_row(&j);
    assert_eq!(row[2].chars().count(), 19);
}

#[test]
fn first_line_stops_at_newline() {
    assert_eq!(first_line("only"), "only");
    assert_eq!(first_line("top\nrest\nmore"), "top");
    assert_eq!(first_line(""), "");
    assert_eq!(first_line("\nbody"), "");
}

#[test]
fn quit_key_stops_forwarding() {
    let mut app = App::new();
    assert!(!app.should_quit);
    assert!(app.handle_key(Key::Char('j')));
    assert!(!app.should_quit);
    assert!(!app.handle_key(Key::Char('q')));
    assert!(app.should_quit);
}

#[test]
fn enter_opens_selected_url() {
    let mut w = WorkflowRunListWidget::new(Vec::new());
    assert!(w.handle_key(Key::Enter).is_none());
    w.on_load(vec![run_at("a", 3), run_at("b", 2)], 50);
    w.scroll_down();
    let act = w.handle_key(Key::Enter);
    assert_eq!(act, Some(Action::OpenUrl("https://example.org/b/runs/7".to_string())));
}

#[test]
fn refresh_key_requests_immediate_fetch() {
    let mut w = WorkflowRunListWidget::new(Vec::new());
    assert_eq!(w.handle_key(Key::Char('r')), Some(Action::Refresh));
    assert!(w.handle_key(Key::Char('z')).is_none());
    assert!(w.handle_key(Key::Other).is_none());
}

#[test]
fn details_key_opens_panel_for_selected_run() {
    let mut w = WorkflowRunListWidget::new(Vec::new());
    assert!(w.handle_key(Key::Char('d')).is_none());
    assert!(!w.details.visible);
    w.on_load(vec![run_at("a", 3), run_at("b", 2)], 50);
    let act = w.handle_key(Key::Char('d'));
    assert_eq!(act, Some(Action::StartDetailsPoll));
    assert!(w.details.visible);
    assert!(w.details.workflow_jobs.is_empty());
    assert_eq!(w.details.workflow.as_ref().map(|r| r.repo.as_str()), Some("a"));
}

#[test]
fn reopening_details_replaces_tracked_run_and_clears_rows() {
    let mut w = WorkflowRunListWidget::new(Vec::new());
    w.on_load(vec![run_at("a", 3), run_at("b", 2)], 50);
    w.handle_key(Key::Char('d'));
    w.details.on_load(vec![job_named("build")], 55);
    assert_eq!(w.details.workflow_jobs.len(), 1);
    w.scroll_down();
    w.handle_key(Key::Char('d'));
    assert!(w.details.workflow_jobs.is_empty());
    assert_eq!(w.details.workflow.as_ref().map(|r| r.repo.as_str()), Some("b"));
    let act = w.handle_key(Key::Esc);
    assert!(act.is_none());
    assert!(!w.details.visible);
}

#[test]
fn detail_panel_load_and_error_paths() {
    let mut d = WorkflowDetailsWidget::new();
    assert_eq!(d.loading_state, LoadingState::Idle);
    d.set_loading_state(LoadingState::Loading);
    assert_eq!(d.loading_state, LoadingState::Loading);
    d.on_load(vec![job_named("build")], 40);
    assert_eq!(d.loading_state, LoadingState::Loaded(40));
    d.on_err("jobs unavailable".to_string());
    assert_eq!(d.loading_state, LoadingState::Error("jobs unavailable".to_string()));
    assert_eq!(d.workflow_jobs.len(), 1);
}

#[test]
fn repository_defaults() {
    let r = Repository {
        owner: "acme".to_string(),
        name: "site".to_string(),
        branch: None,
        count: None,
        actor: None,
    };
    assert_eq!(r.branch_or_default(), "main");
    assert_eq!(r.count_or_default(), 1);
    assert_eq!(r.actor_or_default(), "");
    let r2 = Repository {
        owner: "acme".to_string(),
        name: "site".to_string(),
        branch: Some("dev".to_string()),
        count: Some(5),
        actor: Some("bot".to_string()),
    };
    assert_eq!(r2.branch_or_default(), "dev");
    assert_eq!(r2.count_or_default(), 5);
    assert_eq!(r2.actor_or_default(), "bot");
}

#[test]
fn run_from_parts_fills_defaults() {
    let r = WorkflowRun::from_parts(
        9,
        None,
        "site".to_string(),
        "ci".to_string(),
        "msg".to_string(),
        "main".to_string(),
        123,
        "in_progress".to_string(),
        None,
        "https://example.org".to_string(),
    );
    assert_eq!(r.owner, "");
    assert_eq!(r.status, WorkflowRunStatus::InProgress);
    assert_eq!(r.conclusion, WorkflowRunConclusion::Pending);
    let r2 = WorkflowRun::from_parts(
        9,
        Some("acme".to_string()),
        "site".to_string(),
        "ci".to_string(),
        "msg".to_string(),
        "main".to_string(),
        123,
        "completed".to_string(),
        Some("failure".to_string()),
        "https://example.org".to_string(),
    );
    assert_eq!(r2.owner, "acme");
    assert_eq!(r2.status, WorkflowRunStatus::Completed);
    assert_eq!(r2.conclusion, WorkflowRunConclusion::Failure);
}

#[test]
fn job_from_parts_fills_defaults() {
    let j = WorkflowJob::from_parts(
        4,
        "build".to_string(),
        10,
        None,
        "queued".to_string(),
        None,
        "https://example.org".to_string(),
    );
    assert_eq!(j.status, WorkflowJobStatus::Queued);
    assert_eq!(j.conclusion, WorkflowJobConclusion::Neutral);
    assert_eq!(j.completed_at, None);
    let j2 = WorkflowJob::from_parts(
        4,
        "build".to_string(),
        10,
        Some(20),
        "completed".to_string(),
        Some("skipped".to_string()),
        "https://example.org".to_string(),
    );
    assert_eq!(j2.status, WorkflowJobStatus::Completed);
    assert_eq!(j2.conclusion, WorkflowJobConclusion::Skipped);
    assert_eq!(j2.completed_at, Some(20));
}

#[test]
fn error_types_carry_messages() {
    assert_eq!(make_error().message, "failed to run app");
    assert_eq!(FetchError::new("x".to_string()).message, "x");
}

#[test]
fn all_repositories_failing_yields_empty_rows() {
    let results: Vec<Result<Vec<WorkflowRun>, FetchError>> = vec![
        Err(FetchError::new("a down".to_string())),
        Err(FetchError::new("b down".to_string())),
    ];
    assert!(collect_runs(results).is_empty());
    assert!(collect_runs(Vec::new()).is_empty());
}

#[test]
fn refresh_records_wall_clock_completion() {
    let mut w = WorkflowRunListWidget::new(Vec::new());
    w.refresh_succeeded(vec![run_at("a", 1)]);
    match w.loading_state {
        LoadingState::Loaded(t) => assert!(t > 1_500_000_000),
        ref other => panic!("expected Loaded, got {:?}", other),
    }
    let mut d = WorkflowDetailsWidget::new();
    d.refresh_succeeded(vec![job_named("build")]);
    assert!(matches!(d.loading_state, LoadingState::Loaded(_)));
}

#[test]
fn arrow_keys_move_selection() {
    let mut w = WorkflowRunListWidget::new(Vec::new());
    w.on_load(vec![run_at("a", 3), run_at("b", 2), run_at("c", 1)], 50);
    assert!(w.handle_key(Key::Down).is_none());
    assert_eq!(w.selected, Some(1));
    assert!(w.handle_key(Key::Char('j')).is_none());
    assert_eq!(w.selected, Some(2));
    assert!(w.handle_key(Key::Up).is_none());
    assert_eq!(w.selected, Some(1));
    assert!(w.handle_key(Key::Char('k')).is_none());
    assert_eq!(w.selected, Some(0));
}

#[test]
fn panel_snapshots_mirror_view_state() {
    let mut w = WorkflowRunListWidget::new(Vec::new());
    w.on_load(vec![run_at("a", 3), run_at("b", 2)], 50);
    w.scroll_down();
    let snap = render_run_list(&w);
    assert_eq!(snap.rows.len(), 2);
    assert_eq!(snap.selected, Some(1));
    assert_eq!(snap.rows[0][0], "acme/a");
    assert_eq!(snap.rows[1][0], "acme/b");
    assert!(snap.status_line.starts_with("Last refreshed at "));

    let mut d = WorkflowDetailsWidget::new();
    d.on_load(vec![job_named("build")], 40);
    let snap = render_details(&d);
    assert_eq!(snap.rows.len(), 1);
    assert_eq!(snap.rows[0][0], "build");
    assert_eq!(snap.selected, None);
}

#[test]
fn every_fetch_attempt_passes_through_loading() {
    let mut w = WorkflowRunListWidget::new(Vec::new());
    w.start_fetch();
    assert_eq!(w.loading_state, LoadingState::Loading);
    w.on_load(vec![run_at("a", 1)], 50);
    w.start_fetch();
    assert_eq!(w.loading_state, LoadingState::Loading);
    let mut d = WorkflowDetailsWidget::new();
    d.start_fetch();
    assert_eq!(d.loading_state, LoadingState::Loading);
}
