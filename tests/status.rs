use eval_kanban::status::{ChatRole, TaskStatus};

#[test]
fn test_chat_role_conversion() {
    assert_eq!(ChatRole::User.as_str(), "user");
    assert_eq!(ChatRole::Assistant.as_str(), "assistant");

    assert_eq!(ChatRole::from_str("user"), Some(ChatRole::User));
    assert_eq!(ChatRole::from_str("assistant"), Some(ChatRole::Assistant));
    assert_eq!(ChatRole::from_str("invalid"), None);
}

#[test]
fn test_task_status_conversion() {
    assert_eq!(TaskStatus::Todo.as_str(), "todo");
    assert_eq!(TaskStatus::InProgress.as_str(), "in_progress");
    assert_eq!(TaskStatus::Review.as_str(), "review");
    assert_eq!(TaskStatus::Done.as_str(), "done");

    assert_eq!(TaskStatus::from_str("todo"), Some(TaskStatus::Todo));
    assert_eq!(
        TaskStatus::from_str("in_progress"),
        Some(TaskStatus::InProgress)
    );
    assert_eq!(TaskStatus::from_str("review"), Some(TaskStatus::Review));
    assert_eq!(TaskStatus::from_str("done"), Some(TaskStatus::Done));
    assert_eq!(TaskStatus::from_str("invalid"), None);
}

#[test]
fn status_text_round_trips() {
    for s in [TaskStatus::Todo, TaskStatus::InProgress, TaskStatus::Review, TaskStatus::Done] {
        assert_eq!(TaskStatus::from_str(s.as_str()), Some(s));
    }
    assert_eq!(TaskStatus::from_str(""), None);
    assert_eq!(TaskStatus::from_str("Todo"), None);
}
