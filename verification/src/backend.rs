//! What the gateway and a backend plugin say to each other: failures, the
//! identity behind a request, audit events, requests and replies.

use crate::json::{Json, Tree};
use vstd::prelude::*;

verus! {

/// How a backend call fails.
#[derive(Debug)]
pub enum BackendError {
    ProfileNotFound { backend_name: String },
    InvalidSpec { message: String },
    Timeout { timeout_ms: u64 },
    Transport { message: String },
}

/// What a failed backend call says.
pub enum BackendErrorView {
    ProfileNotFound { backend_name: Seq<char> },
    InvalidSpec { message: Seq<char> },
    Timeout { timeout_ms: u64 },
    Transport { message: Seq<char> },
}

impl View for BackendError {
    type V = BackendErrorView;

    open spec fn view(&self) -> BackendErrorView {
        match self {
            BackendError::ProfileNotFound { backend_name } => BackendErrorView::ProfileNotFound {
                backend_name: backend_name@,
            },
            BackendError::InvalidSpec { message } => BackendErrorView::InvalidSpec {
                message: message@,
            },
            BackendError::Timeout { timeout_ms } => BackendErrorView::Timeout {
                timeout_ms: *timeout_ms,
            },
            BackendError::Transport { message } => BackendErrorView::Transport {
                message: message@,
            },
        }
    }
}

/// A copy of a failure.
pub fn clone_backend_error(err: &BackendError) -> (copy: BackendError)
    ensures
        copy@ == err@,
{
    match err {
        BackendError::ProfileNotFound { backend_name } => BackendError::ProfileNotFound {
            backend_name: backend_name.clone(),
        },
        BackendError::InvalidSpec { message } => BackendError::InvalidSpec {
            message: message.clone(),
        },
        BackendError::Timeout { timeout_ms } => BackendError::Timeout { timeout_ms: *timeout_ms },
        BackendError::Transport { message } => BackendError::Transport { message: message.clone() },
    }
}

/// Who is behind a request.
#[derive(Debug)]
pub struct PluginIdentity {
    pub kind: String,
    pub trust_level: String,
    pub subject_id: Option<String>,
    pub auth_provider: Option<String>,
    pub issuer: Option<String>,
    pub roles: Vec<String>,
    pub groups: Vec<String>,
    pub scopes: Vec<String>,
    pub attributes: Vec<(String, Json)>,
}

/// How an audited action ended.
#[derive(Clone, Copy, Debug, PartialEq, Eq, Structural)]
pub enum AuditOutcome {
    Success,
    Failure,
}

/// One entry of the gateway's audit log.
#[derive(Debug)]
pub struct AuditEvent {
    pub event_id: String,
    pub occurred_at: String,
    pub actor: PluginIdentity,
    pub action: String,
    pub resource: Option<String>,
    pub outcome: AuditOutcome,
    pub request_id: Option<String>,
    pub upstream_request_id: Option<String>,
    pub node_id: Option<String>,
    pub details: Json,
    pub prev_event_hash: Option<String>,
}

/// What an audit event says, its actor aside.
pub struct AuditEventView {
    pub event_id: Seq<char>,
    pub occurred_at: Seq<char>,
    pub action: Seq<char>,
    pub resource: Option<Seq<char>>,
    pub outcome: AuditOutcome,
    pub request_id: Option<Seq<char>>,
    pub upstream_request_id: Option<Seq<char>>,
    pub node_id: Option<Seq<char>>,
    pub details: Tree,
    pub prev_event_hash: Option<Seq<char>>,
}

/// What an optional text says.
pub open spec fn optional_text(text: Option<String>) -> Option<Seq<char>> {
    match text {
        Some(s) => Some(s@),
        None => None,
    }
}

impl View for AuditEvent {
    type V = AuditEventView;

    open spec fn view(&self) -> AuditEventView {
        AuditEventView {
            event_id: self.event_id@,
            occurred_at: self.occurred_at@,
            action: self.action@,
            resource: optional_text(self.resource),
            outcome: self.outcome,
            request_id: optional_text(self.request_id),
            upstream_request_id: optional_text(self.upstream_request_id),
            node_id: optional_text(self.node_id),
            details: self.details@,
            prev_event_hash: optional_text(self.prev_event_hash),
        }
    }
}

/// What kind of plugin a plugin is.
#[derive(Clone, Copy, Debug, PartialEq, Eq, Structural)]
pub enum PluginClass {
    Backend,
}

/// What a plugin says of itself.
#[derive(Debug)]
pub struct PluginManifest {
    pub id: String,
    pub name: String,
    pub class: PluginClass,
}

/// The reply to a backend call.
#[derive(Debug)]
pub struct BackendResponse {
    pub payload: Vec<u8>,
    pub truncated: bool,
}

} // verus!
