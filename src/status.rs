//! Task and chat-role enumerations with their text forms, and the task
//! lifecycle rules.

use vstd::prelude::*;

verus! {

/// Lifecycle stage of a task.
#[derive(Debug, Clone, Copy, PartialEq, Eq, Structural)]
pub enum TaskStatus {
    Todo,
    InProgress,
    Review,
    Done,
}

/// Stored text form of a status.
pub open spec fn status_text(s: TaskStatus) -> Seq<char> {
    match s {
        TaskStatus::Todo => "todo"@,
        TaskStatus::InProgress => "in_progress"@,
        TaskStatus::Review => "review"@,
        TaskStatus::Done => "done"@,
    }
}

/// The status whose text form is `t`, if any.
pub open spec fn status_of_text(t: Seq<char>) -> Option<TaskStatus> {
    if t == "todo"@ {
        Some(TaskStatus::Todo)
    } else if t == "in_progress"@ {
        Some(TaskStatus::InProgress)
    } else if t == "review"@ {
        Some(TaskStatus::Review)
    } else if t == "done"@ {
        Some(TaskStatus::Done)
    } else {
        None
    }
}

/// The lifecycle edges a task may take: start, finish of the process (with
/// or without success), cancellation, and merge/complete. Done is reached
/// from Review only.
pub open spec fn valid_transition(from: TaskStatus, to: TaskStatus) -> bool {
    ||| (from == TaskStatus::Todo && to == TaskStatus::InProgress)
    ||| (from == TaskStatus::InProgress && to == TaskStatus::Review)
    ||| (from == TaskStatus::InProgress && to == TaskStatus::Todo)
    ||| (from == TaskStatus::Review && to == TaskStatus::Done)
}

impl TaskStatus {
    pub fn as_str(&self) -> (r: &'static str)
        ensures
            r@ == status_text(*self),
    {
        match self {
            TaskStatus::Todo => "todo",
            TaskStatus::InProgress => "in_progress",
            TaskStatus::Review => "review",
            TaskStatus::Done => "done",
        }
    }

    pub fn from_str(s: &str) -> (r: Option<TaskStatus>)
        ensures
            r == status_of_text(s@),
    {
        if str_eq(s, "todo") {
            Some(TaskStatus::Todo)
        } else if str_eq(s, "in_progress") {
            Some(TaskStatus::InProgress)
        } else if str_eq(s, "review") {
            Some(TaskStatus::Review)
        } else if str_eq(s, "done") {
            Some(TaskStatus::Done)
        } else {
            None
        }
    }
}

/// Author of a chat message.
#[derive(Debug, Clone, Copy, PartialEq, Eq, Structural)]
pub enum ChatRole {
    User,
    Assistant,
}

pub open spec fn role_text(r: ChatRole) -> Seq<char> {
    match r {
        ChatRole::User => "user"@,
        ChatRole::Assistant => "assistant"@,
    }
}

pub open spec fn role_of_text(t: Seq<char>) -> Option<ChatRole> {
    if t == "user"@ {
        Some(ChatRole::User)
    } else if t == "assistant"@ {
        Some(ChatRole::Assistant)
    } else {
        None
    }
}

impl ChatRole {
    pub fn as_str(&self) -> (r: &'static str)
        ensures
            r@ == role_text(*self),
    {
        match self {
            ChatRole::User => "user",
            ChatRole::Assistant => "assistant",
        }
    }

    pub fn from_str(s: &str) -> (r: Option<ChatRole>)
        ensures
            r == role_of_text(s@),
    {
        if str_eq(s, "user") {
            Some(ChatRole::User)
        } else if str_eq(s, "assistant") {
            Some(ChatRole::Assistant)
        } else {
            None
        }
    }
}

/// Character-wise equality of two string slices.
pub fn str_eq(a: &str, b: &str) -> (r: bool)
    ensures
        r == (a@ == b@),
{
    let n = a.unicode_len();
    if n != b.unicode_len() {
        return false;
    }
    let mut i: usize = 0;
    while i < n
        invariant
            n == a@.len(),
            n == b@.len(),
            i <= n,
            a@.subrange(0, i as int) == b@.subrange(0, i as int),
        decreases n - i,
    {
        if a.get_char(i) != b.get_char(i) {
            assert(a@[i as int] != b@[i as int]);
            return false;
        }
        assert(a@.subrange(0, i + 1) == a@.subrange(0, i as int).push(a@[i as int]));
        assert(b@.subrange(0, i + 1) == b@.subrange(0, i as int).push(b@[i as int]));
        i = i + 1;
    }
    assert(a@ == a@.subrange(0, n as int));
    assert(b@ == b@.subrange(0, n as int));
    true
}

} // verus!
