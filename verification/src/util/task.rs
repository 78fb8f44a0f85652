//! What becomes of a background task's failure.

use crate::error::{ApiError, ApiResult};
use vstd::prelude::*;

verus! {

/// What the supervisor does when a task ends.
#[derive(Debug)]
pub enum TaskEnd {
    /// The task succeeded: nothing to do.
    Done,
    /// A fail-fast task failed: the whole service stops with its error.
    Stop(ApiError),
    /// Another task failed: its error is only logged.
    Log(ApiError),
}

/// Decides what a task's end means: a failing fail-fast task stops the
/// service with its error, the failure of any other task is logged.
pub fn task_finished(is_fail_fast: bool, result: ApiResult<()>) -> (r: TaskEnd)
    ensures
        match result {
            Ok(()) => r is Done,
            Err(e) => if is_fail_fast { r == TaskEnd::Stop(e) } else { r == TaskEnd::Log(e) },
        },
{
    match result {
        Ok(()) => TaskEnd::Done,
        Err(e) => if is_fail_fast {
            TaskEnd::Stop(e)
        } else {
            TaskEnd::Log(e)
        },
    }
}

} // verus!
