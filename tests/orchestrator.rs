use eval_kanban::orchestrator::{checked_update, transition_allowed};
use eval_kanban::orchestrator::{check_diffable, merge_failure_text};
use eval_kanban::orchestrator::{
    check_finishable, completed_task, execution_dir, execution_prompt, finished_task,
    merge_message, short_commit, started_task, cancelled_task, ExecutorEvent, Registry, Supervisor,
    SupervisorAction, SupervisorInput, TaskError, FAILED_RUN_MESSAGE,
};
use eval_kanban::status::TaskStatus;
use eval_kanban::task::{CreateTask, Task, TaskRow, UpdateTask};
use eval_kanban::worktree::{
    branch_already_gone, check_new_workspace, classify_merge_failure, recorded_worktree_paths,
    select_orphans, WorktreeError,
};

fn new_task(title: &str) -> Task {
    Task::create_record(
        CreateTask { title: title.to_string(), description: None, project_path: "/p".to_string() },
        1000,
    )
}

#[test]
fn second_start_of_same_task_conflicts() {
    let t = new_task("Job");
    let mut reg = Registry::new();
    assert!(reg.begin_start(Some(&t)).is_ok());
    assert!(matches!(reg.begin_start(Some(&t)), Err(TaskError::AlreadyRunning)));
    assert!(reg.is_task_running(&t.id));
    assert!(matches!(reg.begin_start(None), Err(TaskError::NotFound)));
    let other = new_task("Job");
    assert!(reg.begin_start(Some(&other)).is_ok());
}

#[test]
fn cancel_without_execution_is_not_running() {
    let t = new_task("Idle");
    let mut reg = Registry::new();
    assert!(matches!(reg.begin_cancel(&t.id), Err(TaskError::NotRunning)));
    assert!(!reg.is_task_running(&t.id));
    assert_eq!(t.status, TaskStatus::Todo);
    assert!(reg.begin_start(Some(&t)).is_ok());
    assert!(reg.begin_cancel(&t.id).is_ok());
    assert!(!reg.is_task_running(&t.id));
    let c = cancelled_task(t, 5);
    assert_eq!(c.status, TaskStatus::Todo);
}

#[test]
fn registry_add_and_remove() {
    let mut reg = Registry::new();
    assert!(reg.add_running_task("a"));
    assert!(!reg.add_running_task("a"));
    assert!(reg.add_running_task("b"));
    assert!(reg.remove_running_task("a"));
    assert!(!reg.remove_running_task("a"));
    assert!(reg.is_task_running("b"));
}

#[test]
fn task_round_trip_to_done() {
    let t = new_task("Add login");
    assert_eq!(t.id.len(), 36);
    let mut reg = Registry::new();
    assert!(reg.begin_start(Some(&t)).is_ok());
    let ws = Some(("ek/add-login-12345678".to_string(), "/w/h/add-login-12345678".to_string()));
    assert_eq!(execution_dir("/p", &ws), "/w/h/add-login-12345678");
    assert_eq!(execution_dir("/p", &None), "/p");
    assert_eq!(execution_prompt(&t), "Add login");
    let s = started_task(t, ws, 2000);
    assert_eq!(s.status, TaskStatus::InProgress);
    assert_eq!(s.branch_name.as_deref(), Some("ek/add-login-12345678"));
    let mut sup = Supervisor::new();
    assert!(matches!(sup.step(SupervisorInput::Event(ExecutorEvent::Started)), SupervisorAction::Ignore));
    match sup.step(SupervisorInput::Event(ExecutorEvent::Stdout("hi".into()))) {
        SupervisorAction::Log { stream, line } => {
            assert_eq!(stream, "stdout");
            assert_eq!(line, "hi");
        }
        other => panic!("unexpected {:?}", other),
    }
    assert!(matches!(
        sup.step(SupervisorInput::Event(ExecutorEvent::Completed { success: true })),
        SupervisorAction::Complete { success: true }
    ));
    assert!(matches!(sup.step(SupervisorInput::Cancelled), SupervisorAction::Ignore));
    assert!(reg.remove_running_task(&s.id));
    let c = completed_task(s, true, 3000);
    assert_eq!(c.status, TaskStatus::Review);
    assert_eq!(c.error_message, None);
    let branch = check_finishable(Some(&c)).unwrap();
    assert_eq!(branch, "ek/add-login-12345678");
    let f = finished_task(c, 4000);
    assert_eq!(f.status, TaskStatus::Done);
    assert_eq!(f.branch_name, None);
    assert_eq!(f.worktree_path, None);
    assert_eq!(f.updated_at, 4000);
    assert_eq!(f.created_at, 1000);
}

#[test]
fn failed_run_and_finish_refusals() {
    let t = new_task("X");
    assert!(matches!(check_finishable(None), Err(TaskError::NotFound)));
    assert!(matches!(check_finishable(Some(&t)), Err(TaskError::InvalidState(TaskStatus::Todo))));
    let s = started_task(t, None, 1);
    let c = completed_task(s, false, 2);
    assert_eq!(c.status, TaskStatus::Review);
    assert_eq!(c.error_message.as_deref(), Some(FAILED_RUN_MESSAGE));
    assert!(matches!(check_finishable(Some(&c)), Err(TaskError::NoBranch)));
}

#[test]
fn cancellation_first_ends_the_run_once() {
    let mut sup = Supervisor::new();
    assert!(matches!(sup.step(SupervisorInput::Cancelled), SupervisorAction::Abort));
    assert!(matches!(
        sup.step(SupervisorInput::Event(ExecutorEvent::Completed { success: false })),
        SupervisorAction::Ignore
    ));
    assert!(sup.done);
}

#[test]
fn merge_messages() {
    assert_eq!(short_commit("0123456789abcdef"), "0123456");
    assert_eq!(short_commit("abc"), "abc");
    assert_eq!(merge_message("ek/x-1", Some("0123456")), "ek/x-1 merged to main (0123456)");
    assert_eq!(merge_message("ek/x-1", None), "ek/x-1 merged to main");
}

#[test]
fn merge_conflict_is_told_apart() {
    let e = classify_merge_failure("CONFLICT (content): Merge conflict in a.txt");
    assert!(matches!(e, WorktreeError::MergeConflict(ref s) if s.starts_with("CONFLICT")));
    let e = classify_merge_failure("fatal: not something we can merge");
    match e {
        WorktreeError::Git(s) => assert_eq!(s, "Failed to merge branch: fatal: not something we can merge"),
        other => panic!("unexpected {:?}", other),
    }
    assert!(branch_already_gone("error: branch 'x' not found."));
    assert!(!branch_already_gone("error: not fully merged"));
    assert_eq!(
        WorktreeError::MergeConflict("x".into()).message(),
        "Merge conflict: x"
    );
}

#[test]
fn orphan_sweep_selects_unrecorded() {
    let on_disk = vec!["/w/h/a".to_string(), "/w/h/b".to_string(), "/w/h/c".to_string()];
    let valid = vec!["/w/h/b".to_string()];
    assert_eq!(select_orphans(&on_disk, &valid), vec!["/w/h/a".to_string(), "/w/h/c".to_string()]);
    let mut t = new_task("A");
    t.worktree_path = Some("/w/h/b".into());
    t.branch_name = Some("ek/a".into());
    let u = new_task("B");
    assert_eq!(recorded_worktree_paths(&vec![t, u]), vec!["/w/h/b".to_string()]);
}

#[test]
fn new_workspace_collisions() {
    assert!(matches!(check_new_workspace("b", "/p", true, true), Err(WorktreeError::WorktreeExists(ref p)) if p == "/p"));
    assert!(matches!(check_new_workspace("b", "/p", false, true), Err(WorktreeError::BranchExists(ref b)) if b == "b"));
    assert!(check_new_workspace("b", "/p", false, false).is_ok());
}

#[test]
fn updates_keep_unset_fields() {
    let t = new_task("Orig");
    let u = t.clone().apply_update(
        UpdateTask { title: Some("New".into()), description: Some("d".into()), status: None, error_message: None, branch_name: None, worktree_path: None },
        9,
    );
    assert_eq!(u.title, "New");
    assert_eq!(u.description.as_deref(), Some("d"));
    assert_eq!(u.status, TaskStatus::Todo);
    assert_eq!(u.id, t.id);
    let e = u.apply_update(UpdateTask::set_error("boom".into()), 10);
    assert_eq!(e.status, TaskStatus::Review);
    assert_eq!(e.error_message.as_deref(), Some("boom"));
    let w = e.apply_update(UpdateTask::set_worktree("ek/b".into(), "/w".into()), 11);
    assert_eq!(w.branch_name.as_deref(), Some("ek/b"));
    assert_eq!(w.worktree_path.as_deref(), Some("/w"));
    let row = TaskRow {
        id: "i".into(), title: "t".into(), description: None, status: "bogus".into(),
        error_message: None, branch_name: None, worktree_path: None, project_path: None,
        created_at: 1, updated_at: 2,
    };
    assert_eq!(Task::from_row(row).status, TaskStatus::Todo);
}

#[test]
fn diff_requests_need_a_workspace() {
    let mut t = new_task("D");
    assert!(matches!(check_diffable(None), Err(TaskError::NotFound)));
    assert!(matches!(check_diffable(Some(&t)), Err(TaskError::NoWorkspace)));
    t.worktree_path = Some("/w/d".into());
    t.branch_name = Some("ek/d".into());
    assert_eq!(check_diffable(Some(&t)).unwrap(), "/w/d");
    assert_eq!(
        merge_failure_text(&WorktreeError::MergeConflict("c".into())),
        "Failed to merge branch: Merge conflict: c"
    );
}

#[test]
fn cancel_and_restart_release_the_old_workspace() {
    let t = new_task("Redo");
    let ws = Some(("ek/redo-1".to_string(), "/w/redo-1".to_string()));
    let s = started_task(t, ws, 1);
    let c = cancelled_task(s, 2);
    assert_eq!(c.status, TaskStatus::Todo);
    assert_eq!(c.branch_name, None);
    assert_eq!(c.worktree_path, None);
    let mut stale = c.clone();
    stale.branch_name = Some("ek/old".into());
    stale.worktree_path = Some("/w/old".into());
    let again = started_task(stale, None, 3);
    assert_eq!(again.status, TaskStatus::InProgress);
    assert_eq!(again.branch_name, None);
    assert_eq!(again.worktree_path, None);
}

#[test]
fn status_updates_follow_the_lifecycle() {
    let t = new_task("Life");
    let to = |s: TaskStatus| UpdateTask { title: None, description: None, status: Some(s), error_message: None, branch_name: None, worktree_path: None };
    assert!(matches!(checked_update(t.clone(), to(TaskStatus::Done), 5), Err(TaskError::InvalidState(TaskStatus::Todo))));
    assert!(matches!(checked_update(t.clone(), to(TaskStatus::Review), 5), Err(TaskError::InvalidState(TaskStatus::Todo))));
    let ok = checked_update(t.clone(), to(TaskStatus::Todo), 5).unwrap();
    assert_eq!(ok.updated_at, 5);
    let renamed = checked_update(t.clone(), UpdateTask { title: Some("New".into()), description: None, status: None, error_message: None, branch_name: None, worktree_path: None }, 6).unwrap();
    assert_eq!(renamed.title, "New");
    assert!(checked_update(t, to(TaskStatus::InProgress), 7).is_ok());
    assert!(transition_allowed(TaskStatus::Review, TaskStatus::Done));
    assert!(!transition_allowed(TaskStatus::Todo, TaskStatus::Done));
}
