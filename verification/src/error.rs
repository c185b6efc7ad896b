//! Errors surfaced by the module's command, query and continuation handlers.
//!
//! Every failure is fatal for the enclosing request: the host's transaction
//! model rolls the whole request back, so an error never leaves a partial
//! state change or a partial fund movement behind.

use vstd::prelude::*;

verus! {

/// The error kinds a handler can return.
#[derive(Debug)]
pub enum AppError {
    /// The caller is not the admin of the owning account.
    Unauthorized,
    /// A malformed address or asset input, rejected before any withdrawal.
    ValidationError,
    /// The service directory has no entry for a requested service.
    Unresolved,
    /// No task record exists for the given identifier.
    NotFound { task_hash: String },
    /// A creation continuation tried to insert a task record that already
    /// exists; signals a duplicate delivery, never silently overwrites.
    TaskAlreadyExists { task_hash: String },
    /// A removal continuation ran without a pending-removal marker; signals
    /// a protocol violation, as the marker is written by every removal
    /// dispatch that awaits a continuation.
    MissingRemovalMarker,
    /// A creation continuation could not extract the task identifier and
    /// scheduler version from the completion's emitted events.
    MalformedReply,
}

impl AppError {
    /// Short label naming the error kind, for logs and messages.
    pub fn label(&self) -> (r: String)
        ensures
            r@ == self.label_spec(),
    {
        match self {
            AppError::Unauthorized => "unauthorized".to_owned(),
            AppError::ValidationError => "validation error".to_owned(),
            AppError::Unresolved => "unresolved service".to_owned(),
            AppError::NotFound { .. } => "task not found".to_owned(),
            AppError::TaskAlreadyExists { .. } => "task already exists".to_owned(),
            AppError::MissingRemovalMarker => "missing removal marker".to_owned(),
            AppError::MalformedReply => "malformed reply".to_owned(),
        }
    }

    /// What `label` returns for each kind.
    pub open spec fn label_spec(&self) -> Seq<char> {
        match self {
            AppError::Unauthorized => "unauthorized"@,
            AppError::ValidationError => "validation error"@,
            AppError::Unresolved => "unresolved service"@,
            AppError::NotFound { .. } => "task not found"@,
            AppError::TaskAlreadyExists { .. } => "task already exists"@,
            AppError::MissingRemovalMarker => "missing removal marker"@,
            AppError::MalformedReply => "malformed reply"@,
        }
    }
}

} // verus!
