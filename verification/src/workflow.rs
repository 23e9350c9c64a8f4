//! What a caller hands in to have a task executed.

use vstd::prelude::*;

verus! {

/// A task to start: its input and the workflow that it follows.
#[derive(Clone, Debug, PartialEq)]
pub struct TaskVo {
    pub input: String,
    pub workflowid: String,
}

} // verus!
