//! The fragments that show one task.

use vstd::prelude::*;
use crate::models::task::TaskWithStreak;

verus! {

/// The card of a task.
#[derive(Clone, Debug, PartialEq, Eq)]
pub struct TaskCardPartial {
    pub task: TaskWithStreak,
}

/// The empty form for a new task.
#[derive(Clone, Copy, Debug, PartialEq, Eq, Structural)]
pub struct TaskFormPartial;

/// The form that edits a task.
#[derive(Clone, Debug, PartialEq, Eq)]
pub struct TaskEditPartial {
    pub task: TaskWithStreak,
}

} // verus!
