//! Project chat: message records and the prompt that carries the recent
//! conversation to the agent.

use vstd::prelude::*;
use crate::status::{ChatRole, role_of_text};
use crate::task::{CreateChatMessage, fresh_id};

verus! {

/// A chat message as the record store holds it. Times are milliseconds
/// since the Unix epoch.
#[derive(Debug, Clone)]
pub struct ChatMessageRow {
    pub id: String,
    pub project_path: String,
    pub role: String,
    pub content: String,
    pub image_data: Option<String>,
    pub created_at: i64,
}

/// A chat message.
#[derive(Debug, Clone)]
pub struct ChatMessage {
    pub id: String,
    pub project_path: String,
    pub role: ChatRole,
    pub content: String,
    pub image_data: Option<String>,
    pub created_at: i64,
}

impl ChatMessage {
    /// A new message with a fresh thirty-six-character id.
    pub fn create_record(input: CreateChatMessage, now: i64) -> (r: ChatMessage)
        ensures
            r.id@.len() == 36,
            r.project_path == input.project_path,
            r.role == input.role,
            r.content == input.content,
            r.image_data == input.image_data,
            r.created_at == now,
    {
        ChatMessage {
            id: fresh_id(),
            project_path: input.project_path,
            role: input.role,
            content: input.content,
            image_data: input.image_data,
            created_at: now,
        }
    }

    /// The message a stored row describes; unknown role text reads as the
    /// user.
    pub fn from_row(row: ChatMessageRow) -> (r: ChatMessage)
        ensures
            r.id == row.id,
            r.project_path == row.project_path,
            r.role == (match role_of_text(row.role@) {
                Some(x) => x,
                None => ChatRole::User,
            }),
            r.content == row.content,
            r.image_data == row.image_data,
            r.created_at == row.created_at,
    {
        let role = match ChatRole::from_str(row.role.as_str()) {
            Some(x) => x,
            None => ChatRole::User,
        };
        ChatMessage {
            id: row.id,
            project_path: row.project_path,
            role,
            content: row.content,
            image_data: row.image_data,
            created_at: row.created_at,
        }
    }
}

pub open spec fn chat_context() -> Seq<char> {
    "You are a helpful assistant integrated into a Kanban task management app. You are running in READ-ONLY mode - you can read and analyze code, but you cannot modify files or execute commands that change the codebase. Help the user understand their code, debug issues, and plan implementations.\n\n"@
}

pub open spec fn role_label(r: ChatRole) -> Seq<char> {
    match r {
        ChatRole::User => "User"@,
        ChatRole::Assistant => "Assistant"@,
    }
}

/// How one earlier message appears in the prompt.
pub open spec fn render_message(m: ChatMessage) -> Seq<char> {
    "**"@ + role_label(m.role) + "**: "@ + m.content@ + "\n\n"@
}

/// The first `n` messages, rendered in order.
pub open spec fn render_messages(h: Seq<ChatMessage>, n: nat) -> Seq<char>
    decreases n,
{
    if n == 0 || n > h.len() {
        Seq::empty()
    } else {
        render_messages(h, (n - 1) as nat) + render_message(h[n - 1])
    }
}

/// The chat prompt: fixed read-only context, the history but its last
/// message (the one just stored), then the new message and a note when an
/// image came with it.
pub open spec fn chat_prompt_of(h: Seq<ChatMessage>, new_content: Seq<char>, has_image: bool) -> Seq<char> {
    chat_context() + (if h.len() > 0 {
        "## Previous conversation\n\n"@ + render_messages(h, (h.len() - 1) as nat)
    } else {
        Seq::empty()
    }) + "## Current message\n\n**User**: "@ + new_content + if has_image {
        "\n\n[User has attached an image]"@
    } else {
        Seq::empty()
    }
}

/// Builds the chat prompt from the stored history.
pub fn chat_prompt(history: &Vec<ChatMessage>, new_content: &str, has_image: bool) -> (r: String)
    ensures
        r@ == chat_prompt_of(history@, new_content@, has_image),
{
    let mut r = String::from_str(
        "You are a helpful assistant integrated into a Kanban task management app. You are running in READ-ONLY mode - you can read and analyze code, but you cannot modify files or execute commands that change the codebase. Help the user understand their code, debug issues, and plan implementations.\n\n",
    );
    let ghost base = r@;
    if history.len() > 0 {
        r.append("## Previous conversation\n\n");
        let n = history.len() - 1;
        let mut i: usize = 0;
        while i < n
            invariant
                n == history@.len() - 1,
                i <= n,
                r@ == base + "## Previous conversation\n\n"@ + render_messages(history@, i as nat),
            decreases n - i,
        {
            let ghost before = r@;
            let m = &history[i];
            r.append("**");
            match m.role {
                ChatRole::User => r.append("User"),
                ChatRole::Assistant => r.append("Assistant"),
            }
            r.append("**: ");
            r.append(m.content.as_str());
            r.append("\n\n");
            assert(r@ =~= before + render_message(history@[i as int]));
            i = i + 1;
        }
    } else {
        assert(r@ =~= base + Seq::<char>::empty());
    }
    let ghost mid = r@;
    r.append("## Current message\n\n**User**: ");
    r.append(new_content);
    let ghost mid2 = r@;
    if has_image {
        r.append("\n\n[User has attached an image]");
    } else {
        assert(r@ =~= mid2 + Seq::<char>::empty());
    }
    assert(r@ =~= chat_prompt_of(history@, new_content@, has_image));
    r
}

} // verus!
