//! The persisted task record, and how updates apply to it.

use vstd::prelude::*;
use crate::status::{TaskStatus, ChatRole, status_of_text};

verus! {

/// A unit of work tracked from Todo to Done. Times are milliseconds since
/// the Unix epoch.
#[derive(Debug, Clone)]
pub struct Task {
    pub id: String,
    pub title: String,
    pub description: Option<String>,
    pub status: TaskStatus,
    pub error_message: Option<String>,
    pub branch_name: Option<String>,
    pub worktree_path: Option<String>,
    pub project_path: Option<String>,
    pub created_at: i64,
    pub updated_at: i64,
}

/// A task as the record store holds it, with its status as text.
#[derive(Debug, Clone)]
pub struct TaskRow {
    pub id: String,
    pub title: String,
    pub description: Option<String>,
    pub status: String,
    pub error_message: Option<String>,
    pub branch_name: Option<String>,
    pub worktree_path: Option<String>,
    pub project_path: Option<String>,
    pub created_at: i64,
    pub updated_at: i64,
}

/// Fields of a new task.
#[derive(Debug, Clone)]
pub struct CreateTask {
    pub title: String,
    pub description: Option<String>,
    pub project_path: String,
}

/// A field-level update: a field left `None` keeps its value.
#[derive(Debug, Clone)]
pub struct UpdateTask {
    pub title: Option<String>,
    pub description: Option<String>,
    pub status: Option<TaskStatus>,
    pub error_message: Option<String>,
    pub branch_name: Option<String>,
    pub worktree_path: Option<String>,
}

/// Fields of a new chat message.
#[derive(Debug, Clone)]
pub struct CreateChatMessage {
    pub project_path: String,
    pub role: ChatRole,
    pub content: String,
    pub image_data: Option<String>,
}

/// Relies on `uuid::Uuid::new_v4` and its hyphenated text form, which is
/// thirty-six characters long.
#[verifier::external_body]
pub(crate) fn fresh_id() -> (r: String)
    ensures
        r@.len() == 36,
{
    uuid::Uuid::new_v4().to_string()
}

/// `update` if given, else `current`.
pub open spec fn or_keep<T>(update: Option<T>, current: Option<T>) -> Option<T> {
    match update {
        Some(v) => Some(v),
        None => current,
    }
}

fn keep_or<T>(update: Option<T>, current: Option<T>) -> (r: Option<T>)
    ensures
        r == or_keep(update, current),
{
    match update {
        Some(v) => Some(v),
        None => current,
    }
}

/// A task after a field-level update made at time `now`.
pub open spec fn updated(t: Task, input: UpdateTask, now: i64) -> Task {
    Task {
        id: t.id,
        title: match input.title {
            Some(x) => x,
            None => t.title,
        },
        description: or_keep(input.description, t.description),
        status: match input.status {
            Some(x) => x,
            None => t.status,
        },
        error_message: or_keep(input.error_message, t.error_message),
        branch_name: or_keep(input.branch_name, t.branch_name),
        worktree_path: or_keep(input.worktree_path, t.worktree_path),
        project_path: t.project_path,
        created_at: t.created_at,
        updated_at: now,
    }
}

impl Task {
    /// Branch and workspace path are recorded together or not at all.
    pub open spec fn workspace_consistent(&self) -> bool {
        self.branch_name is Some <==> self.worktree_path is Some
    }

    /// A new task in Todo, with a fresh thirty-six-character id and no
    /// workspace.
    pub fn create_record(input: CreateTask, now: i64) -> (r: Task)
        ensures
            r.id@.len() == 36,
            r.title == input.title,
            r.description == input.description,
            r.project_path == Some(input.project_path),
            r.status == TaskStatus::Todo,
            r.error_message is None,
            r.branch_name is None,
            r.worktree_path is None,
            r.created_at == now,
            r.updated_at == now,
            r.workspace_consistent(),
    {
        Task {
            id: fresh_id(),
            title: input.title,
            description: input.description,
            status: TaskStatus::Todo,
            error_message: None,
            branch_name: None,
            worktree_path: None,
            project_path: Some(input.project_path),
            created_at: now,
            updated_at: now,
        }
    }

    /// The task a stored row describes; unknown status text reads as Todo.
    pub fn from_row(row: TaskRow) -> (r: Task)
        ensures
            r.id == row.id,
            r.title == row.title,
            r.description == row.description,
            r.status == (match status_of_text(row.status@) {
                Some(s) => s,
                None => TaskStatus::Todo,
            }),
            r.error_message == row.error_message,
            r.branch_name == row.branch_name,
            r.worktree_path == row.worktree_path,
            r.project_path == row.project_path,
            r.created_at == row.created_at,
            r.updated_at == row.updated_at,
    {
        let status = match TaskStatus::from_str(row.status.as_str()) {
            Some(s) => s,
            None => TaskStatus::Todo,
        };
        Task {
            id: row.id,
            title: row.title,
            description: row.description,
            status,
            error_message: row.error_message,
            branch_name: row.branch_name,
            worktree_path: row.worktree_path,
            project_path: row.project_path,
            created_at: row.created_at,
            updated_at: row.updated_at,
        }
    }

    /// The task after a field-level update made at time `now`: each field
    /// given takes the new value, each field left out keeps its own.
    pub fn apply_update(self, input: UpdateTask, now: i64) -> (r: Task)
        ensures
            r == updated(self, input, now),
    {
        let title = match input.title {
            Some(t) => t,
            None => self.title,
        };
        let status = match input.status {
            Some(s) => s,
            None => self.status,
        };
        Task {
            id: self.id,
            title,
            description: keep_or(input.description, self.description),
            status,
            error_message: keep_or(input.error_message, self.error_message),
            branch_name: keep_or(input.branch_name, self.branch_name),
            worktree_path: keep_or(input.worktree_path, self.worktree_path),
            project_path: self.project_path,
            created_at: self.created_at,
            updated_at: now,
        }
    }
}

impl UpdateTask {
    /// An update of the status alone.
    pub fn set_status(status: TaskStatus) -> (r: UpdateTask)
        ensures
            r.status == Some(status),
            r.title is None,
            r.description is None,
            r.error_message is None,
            r.branch_name is None,
            r.worktree_path is None,
    {
        UpdateTask {
            title: None,
            description: None,
            status: Some(status),
            error_message: None,
            branch_name: None,
            worktree_path: None,
        }
    }

    /// An update that records an error, which puts the task in Review.
    pub fn set_error(error_message: String) -> (r: UpdateTask)
        ensures
            r.status == Some(TaskStatus::Review),
            r.error_message == Some(error_message),
            r.title is None,
            r.description is None,
            r.branch_name is None,
            r.worktree_path is None,
    {
        UpdateTask {
            title: None,
            description: None,
            status: Some(TaskStatus::Review),
            error_message: Some(error_message),
            branch_name: None,
            worktree_path: None,
        }
    }

    /// An update that records a task's workspace.
    pub fn set_worktree(branch_name: String, worktree_path: String) -> (r: UpdateTask)
        ensures
            r.branch_name == Some(branch_name),
            r.worktree_path == Some(worktree_path),
            r.status is None,
            r.title is None,
            r.description is None,
            r.error_message is None,
    {
        UpdateTask {
            title: None,
            description: None,
            status: None,
            error_message: None,
            branch_name: Some(branch_name),
            worktree_path: Some(worktree_path),
        }
    }
}

} // verus!
