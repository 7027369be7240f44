//! The dashboard and its progress summary.

use vstd::prelude::*;
use vstd::string::*;
use crate::models::group::GroupWithMembership;
use crate::models::task::TaskWithStreak;

verus! {

/// The dashboard of one user: the active tasks with their streaks, the
/// groups, and the day's progress.
#[derive(Clone, Debug, PartialEq, Eq)]
pub struct DashboardTemplate {
    pub username: String,
    pub tasks: Vec<TaskWithStreak>,
    pub groups: Vec<GroupWithMembership>,
    pub flash_message: Option<String>,
    pub flash_is_error: bool,
    /// How many of the tasks are completed today.
    pub completed_count: usize,
    /// How many tasks there are.
    pub total_count: usize,
    /// How many of the tasks have a streak above zero.
    pub active_streak_count: usize,
    /// The longest of the streaks; zero where there is no task.
    pub longest_streak: i64,
}

impl DashboardTemplate {
    /// The four numbers of the day's progress.
    pub open spec fn progress(&self) -> ProgressOobPartial {
        ProgressOobPartial {
            completed_count: self.completed_count,
            total_count: self.total_count,
            active_streak_count: self.active_streak_count,
            longest_streak: self.longest_streak,
        }
    }
}

/// The day's progress over a user's active tasks.
#[derive(Clone, Copy, Debug, PartialEq, Eq, Structural)]
pub struct ProgressOobPartial {
    /// How many of the tasks are completed today.
    pub completed_count: usize,
    /// How many tasks there are.
    pub total_count: usize,
    /// How many of the tasks have a streak above zero.
    pub active_streak_count: usize,
    /// The longest of the streaks; zero where there is no task.
    pub longest_streak: i64,
}

} // verus!
