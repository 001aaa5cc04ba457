//! What the reconciliation loop decides for a task it has looked at.
//!
//! The loop keeps no state of its own and changes none of the task's: each
//! task is looked at again after a fixed delay, for as long as the operator
//! runs.

use crate::error::OperatorError;
use crate::types::Task;
use vstd::prelude::*;

verus! {

/// Seconds until a task is looked at again after a reconciliation.
pub const RECONCILE_INTERVAL_SECONDS: u64 = 300;

/// Seconds until a task is looked at again after a failed reconciliation.
pub const ERROR_RETRY_SECONDS: u64 = 60;

/// What the loop does next with a task.
#[derive(Debug, Clone, Copy, PartialEq, Eq, Structural)]
pub struct Action {
    /// Seconds after which the task is looked at again; `None` waits for
    /// the task to change.
    pub requeue_after: Option<u64>,
}

impl Action {
    /// Look at the task again after `seconds`.
    pub fn requeue(seconds: u64) -> (action: Action)
        ensures
            action.requeue_after == Some(seconds),
    {
        Action { requeue_after: Some(seconds) }
    }
}

/// Reconciles one task: nothing of the task is changed, and it is looked at
/// again in five minutes. There is no task for which this fails or ends the
/// cycle.
pub fn reconcile_task(task: &Task) -> (decided: Result<Action, OperatorError>)
    ensures
        decided is Ok,
        decided->Ok_0.requeue_after == Some(300u64),
{
    Ok(Action::requeue(RECONCILE_INTERVAL_SECONDS))
}

/// Decides what follows a failed reconciliation: whatever the failure, the
/// task is looked at again in one minute.
pub fn error_policy(task: &Task, error: &OperatorError) -> (action: Action)
    ensures
        action.requeue_after == Some(60u64),
{
    Action::requeue(ERROR_RETRY_SECONDS)
}

} // verus!
