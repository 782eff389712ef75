//! What the answer of a system file or directory prompt means for a workspace.

use vstd::prelude::*;

use crate::ui_message::{ErrorKind, UiMessage};
use crate::workspace_state::{with_status, Workspace};

verus! {

/// Why a prompt gave no answer.
#[derive(Debug, Clone, Copy, PartialEq, Eq, Structural)]
pub enum PathPromptFailure {
    /// The platform dialog reported an error.
    Platform,
    /// The answer channel closed before an answer came.
    ChannelClosed,
}

/// The answer of a prompt.
#[derive(Debug, Clone, PartialEq, Eq)]
pub enum PathPromptResult<T> {
    /// Something was chosen.
    Selected(T),
    /// The person closed the prompt.
    Cancelled,
    /// No answer could be had.
    Failed(PathPromptFailure),
}

/// Reads a prompt's raw answer: a chosen value, a cancellation (`None`), a platform
/// error, or a closed channel.
pub fn classify_path_prompt_result<T, P, C>(result: Result<Result<Option<T>, P>, C>) -> (answer: PathPromptResult<T>)
    ensures
        answer == match result {
            Ok(Ok(Some(selected))) => PathPromptResult::Selected(selected),
            Ok(Ok(None)) => PathPromptResult::Cancelled,
            Ok(Err(_)) => PathPromptResult::Failed(PathPromptFailure::Platform),
            Err(_) => PathPromptResult::Failed(PathPromptFailure::ChannelClosed),
        },
{
    match result {
        Ok(Ok(Some(selected))) => PathPromptResult::Selected(selected),
        Ok(Ok(None)) => PathPromptResult::Cancelled,
        Ok(Err(_)) => PathPromptResult::Failed(PathPromptFailure::Platform),
        Err(_) => PathPromptResult::Failed(PathPromptFailure::ChannelClosed),
    }
}

/// The first of several chosen values; choosing nothing counts as a cancellation.
pub fn first_path_prompt_result<T>(result: PathPromptResult<Vec<T>>) -> (answer: PathPromptResult<T>)
    ensures
        answer == match result {
            PathPromptResult::Selected(values) => if values.len() > 0 {
                PathPromptResult::Selected(values@[0])
            } else {
                PathPromptResult::Cancelled
            },
            PathPromptResult::Cancelled => PathPromptResult::Cancelled,
            PathPromptResult::Failed(failure) => PathPromptResult::Failed(failure),
        },
{
    match result {
        PathPromptResult::Selected(values) => {
            if values.len() > 0 {
                let mut values = values;
                PathPromptResult::Selected(values.remove(0))
            } else {
                PathPromptResult::Cancelled
            }
        },
        PathPromptResult::Cancelled => PathPromptResult::Cancelled,
        PathPromptResult::Failed(failure) => PathPromptResult::Failed(failure),
    }
}

/// The chosen value of a prompt; otherwise the workspace's status becomes `cancelled`
/// (for a cancellation) or an I/O error (for a failure), and nothing else changes.
pub fn resolve_path_prompt<T, E, R>(
    workspace: &mut Workspace<E, R>,
    result: PathPromptResult<T>,
    cancelled: UiMessage,
) -> (selected: Option<T>)
    requires
        old(workspace).wf(),
    ensures
        final(workspace).wf(),
        match result {
            PathPromptResult::Selected(value) => selected == Some(value) && final(workspace)@ == old(workspace)@,
            PathPromptResult::Cancelled => selected is None && final(workspace)@ == with_status(
                old(workspace)@,
                cancelled,
            ),
            PathPromptResult::Failed(_) => selected is None && final(workspace)@ == with_status(
                old(workspace)@,
                UiMessage::Error(ErrorKind::Io),
            ),
        },
{
    match result {
        PathPromptResult::Selected(selected) => Some(selected),
        PathPromptResult::Cancelled => {
            workspace.set_status(cancelled);
            None
        },
        PathPromptResult::Failed(_) => {
            workspace.set_status(UiMessage::Error(ErrorKind::Io));
            None
        },
    }
}

} // verus!
