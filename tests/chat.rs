use eval_kanban::chat::{chat_prompt, ChatMessage, ChatMessageRow};
use eval_kanban::status::ChatRole;
use eval_kanban::task::CreateChatMessage;

fn msg(role: ChatRole, content: &str) -> ChatMessage {
    ChatMessage::create_record(
        CreateChatMessage {
            project_path: "/p".into(),
            role,
            content: content.into(),
            image_data: None,
        },
        7,
    )
}

const CONTEXT: &str = "You are a helpful assistant integrated into a Kanban task management app. You are running in READ-ONLY mode - you can read and analyze code, but you cannot modify files or execute commands that change the codebase. Help the user understand their code, debug issues, and plan implementations.\n\n";

#[test]
fn chat_prompt_skips_the_message_just_stored() {
    let history = vec![msg(ChatRole::User, "hi"), msg(ChatRole::Assistant, "hello"), msg(ChatRole::User, "now")];
    let p = chat_prompt(&history, "now", true);
    assert_eq!(
        p,
        format!(
            "{}## Previous conversation\n\n**User**: hi\n\n**Assistant**: hello\n\n## Current message\n\n**User**: now\n\n[User has attached an image]",
            CONTEXT
        )
    );
    assert_eq!(chat_prompt(&vec![], "q", false), format!("{}## Current message\n\n**User**: q", CONTEXT));
}

#[test]
fn chat_records() {
    let m = msg(ChatRole::Assistant, "x");
    assert_eq!(m.id.len(), 36);
    assert_eq!(m.created_at, 7);
    let row = ChatMessageRow {
        id: "1".into(),
        project_path: "/p".into(),
        role: "robot".into(),
        content: "c".into(),
        image_data: Some("img".into()),
        created_at: 3,
    };
    let m = ChatMessage::from_row(row);
    assert_eq!(m.role, ChatRole::User);
    assert_eq!(m.image_data.as_deref(), Some("img"));
}
