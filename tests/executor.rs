use eval_kanban::orchestrator::{ClaudeExecutor, ExecutorEvent};

#[test]
fn test_executor_event_debug() {
    let event = ExecutorEvent::Stdout("test".to_string());
    assert!(format!("{:?}", event).contains("Stdout"));
}

#[test]
fn executor_keeps_its_directory() {
    let executor = ClaudeExecutor::new("/tmp".to_string());
    assert_eq!(executor.working_dir, "/tmp");
}
