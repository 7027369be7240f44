//! The dashboard.

use vstd::prelude::*;
use vstd::string::*;
use crate::auth::AuthUser;
use crate::models::group::GroupWithMembership;
use crate::models::task::TaskWithStreak;
use crate::models::user::User;
use crate::models::StoreError;
use crate::response::StatusCode;
use crate::routes::tasks::{is_progress_of, render_progress_oob};
use crate::templates::dashboard::DashboardTemplate;

verus! {

/// The name to show for the user who was looked up: none for a user who is
/// not there.
pub open spec fn shown_name(user: Option<User>) -> Seq<char> {
    match user {
        Some(u) => u.username@,
        None => Seq::empty(),
    }
}

/// The dashboard of `user`, from what the three reads gave: the user's row,
/// the active tasks with their streaks, and the groups. The tasks and groups
/// are shown as they were read, with the day's progress over the tasks. If
/// any of the reads failed the answer is "internal server error".
pub fn dashboard(
    found: Result<Option<User>, StoreError>,
    tasks: Result<Vec<TaskWithStreak>, StoreError>,
    groups: Result<Vec<GroupWithMembership>, StoreError>,
    _user: &AuthUser,
) -> (r: Result<DashboardTemplate, StatusCode>)
    ensures
        match (found, tasks, groups) {
            (Ok(user), Ok(task_rows), Ok(group_rows)) => r matches Ok(page) && page.username@
                == shown_name(user) && page.tasks == task_rows && page.groups == group_rows
                && is_progress_of(page.progress(), task_rows@) && page.flash_message is None
                && !page.flash_is_error,
            _ => r matches Err(status) && status == StatusCode::InternalServerError,
        },
{
    match (found, tasks, groups) {
        (Ok(user), Ok(task_rows), Ok(group_rows)) => {
            let username = match user {
                Some(u) => u.username,
                None => String::new(),
            };
            let progress = render_progress_oob(&task_rows);
            Ok(
                DashboardTemplate {
                    username,
                    tasks: task_rows,
                    groups: group_rows,
                    flash_message: None,
                    flash_is_error: false,
                    completed_count: progress.completed_count,
                    total_count: progress.total_count,
                    active_streak_count: progress.active_streak_count,
                    longest_streak: progress.longest_streak,
                },
            )
        },
        _ => Err(StatusCode::InternalServerError),
    }
}

} // verus!
