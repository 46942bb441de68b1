//! What the server hands to a client of its API: sessions, messages and
//! files as they are stored, turned into answers, and the failure answer.

use vstd::prelude::*;
use crate::json::Json;
use crate::text::{opt_view, owned};
use crate::tracing::types::opt_json_view;

verus! {

/// A session as it is stored. Times are milliseconds since the Unix epoch.
#[derive(Debug, PartialEq)]
pub struct Session {
    pub id: String,
    pub project_id: Option<String>,
    pub title: Option<String>,
    pub status: String,
    pub created_at: i64,
    pub updated_at: i64,
    pub last_event_id: Option<String>,
    pub metadata: Option<Json>,
}

/// A session as the API shows it.
#[derive(Debug, PartialEq)]
pub struct SessionResponse {
    pub id: String,
    pub project_id: Option<String>,
    pub title: Option<String>,
    pub status: String,
    pub created_at: i64,
    pub updated_at: i64,
    pub last_event_id: Option<String>,
    pub metadata: Option<Json>,
}

/// Who said a stored message.
#[derive(Debug, Clone, Copy, PartialEq, Eq, Structural)]
pub enum MessageRole {
    System,
    User,
    Assistant,
    Tool,
}

/// A message as it is stored, with its content in structured form.
#[derive(Debug, PartialEq)]
pub struct StoredMessage {
    pub id: String,
    pub session_id: String,
    pub role: MessageRole,
    pub content: Json,
    pub created_at: i64,
    pub tool_call_id: Option<String>,
    pub parent_id: Option<String>,
}

/// A message as the API shows it.
#[derive(Debug, PartialEq)]
pub struct MessageResponse {
    pub id: String,
    pub session_id: String,
    pub role: String,
    pub content: Json,
    pub created_at: i64,
    pub tool_call_id: Option<String>,
    pub parent_id: Option<String>,
}

/// A file as it is stored.
#[derive(Debug, Clone, PartialEq)]
pub struct Attachment {
    pub id: String,
    pub session_id: String,
    pub filename: String,
    pub mime_type: String,
    pub size: i64,
    pub created_at: i64,
}

/// A file as the API shows it.
#[derive(Debug, Clone, PartialEq)]
pub struct FileResponse {
    pub id: String,
    pub session_id: String,
    pub filename: String,
    pub mime_type: String,
    pub size: i64,
    pub created_at: i64,
}

/// A failure, as the API reports it.
#[derive(Debug, Clone, PartialEq)]
pub struct ErrorResponse {
    pub error: ErrorDetail,
}

/// The code of a failure and its message for people.
#[derive(Debug, Clone, PartialEq)]
pub struct ErrorDetail {
    pub code: String,
    pub message: String,
}

/// The name of a role, as the API writes it.
pub open spec fn role_name(role: MessageRole) -> Seq<char> {
    match role {
        MessageRole::System => "system"@,
        MessageRole::User => "user"@,
        MessageRole::Assistant => "assistant"@,
        MessageRole::Tool => "tool"@,
    }
}

impl MessageRole {
    /// The name of this role, as the API writes it.
    pub fn as_str(&self) -> (name: &'static str)
        ensures
            name@ == role_name(*self),
    {
        match self {
            MessageRole::System => "system",
            MessageRole::User => "user",
            MessageRole::Assistant => "assistant",
            MessageRole::Tool => "tool",
        }
    }
}

impl SessionResponse {
    /// The answer for a stored session: every field as it is stored.
    pub fn from(session: Session) -> (response: SessionResponse)
        ensures
            response.id@ == session.id@,
            opt_view(response.project_id) == opt_view(session.project_id),
            opt_view(response.title) == opt_view(session.title),
            response.status@ == session.status@,
            response.created_at == session.created_at,
            response.updated_at == session.updated_at,
            opt_view(response.last_event_id) == opt_view(session.last_event_id),
            opt_json_view(response.metadata) == opt_json_view(session.metadata),
    {
        SessionResponse {
            id: session.id,
            project_id: session.project_id,
            title: session.title,
            status: session.status,
            created_at: session.created_at,
            updated_at: session.updated_at,
            last_event_id: session.last_event_id,
            metadata: session.metadata,
        }
    }
}

impl MessageResponse {
    /// The answer for a stored message: the role by its name, every other
    /// field as it is stored.
    pub fn from(message: StoredMessage) -> (response: MessageResponse)
        ensures
            response.id@ == message.id@,
            response.session_id@ == message.session_id@,
            response.role@ == role_name(message.role),
            response.content@ == message.content@,
            response.created_at == message.created_at,
            opt_view(response.tool_call_id) == opt_view(message.tool_call_id),
            opt_view(response.parent_id) == opt_view(message.parent_id),
    {
        MessageResponse {
            id: message.id,
            session_id: message.session_id,
            role: owned(message.role.as_str()),
            content: message.content,
            created_at: message.created_at,
            tool_call_id: message.tool_call_id,
            parent_id: message.parent_id,
        }
    }
}

impl FileResponse {
    /// The answer for a stored file: every field as it is stored.
    pub fn from(attachment: Attachment) -> (response: FileResponse)
        ensures
            response.id@ == attachment.id@,
            response.session_id@ == attachment.session_id@,
            response.filename@ == attachment.filename@,
            response.mime_type@ == attachment.mime_type@,
            response.size == attachment.size,
            response.created_at == attachment.created_at,
    {
        FileResponse {
            id: attachment.id,
            session_id: attachment.session_id,
            filename: attachment.filename,
            mime_type: attachment.mime_type,
            size: attachment.size,
            created_at: attachment.created_at,
        }
    }
}

impl ErrorResponse {
    /// A failure with `code` and `message`.
    pub fn new(code: &str, message: String) -> (response: ErrorResponse)
        ensures
            response.error.code@ == code@,
            response.error.message@ == message@,
    {
        ErrorResponse { error: ErrorDetail { code: owned(code), message } }
    }
}

} // verus!
