//! Tasks: creating, toggling, editing, archiving.
//!
//! Every route on one task is for its owner only. A task that is not there
//! answers with "not found", the task of another user with "forbidden", and
//! a failed read with "internal server error". A write is returned to the
//! caller only after the owner has been checked.

use vstd::prelude::*;
use vstd::string::*;
use crate::auth::AuthUser;
use crate::date::LocalDate;
use crate::models::completion::{complete_today, completed, uncomplete_today, uncompleted};
use crate::models::completion::{lemma_completed_contains, lemma_uncompleted_contains};
use crate::models::completion::{Completion, Completions};
use crate::models::task::TaskWithStreak;
use crate::models::StoreError;
use crate::response::StatusCode;
use crate::text::opt_text;
use crate::templates::dashboard::ProgressOobPartial;
use crate::templates::tasks::{TaskCardPartial, TaskEditPartial, TaskFormPartial};

verus! {

/// The fields of the form that creates a task.
#[derive(Clone, Debug, PartialEq, Eq)]
pub struct CreateTaskForm {
    pub name: String,
    pub description: Option<String>,
}

/// The fields of the form that edits a task.
#[derive(Clone, Debug, PartialEq, Eq)]
pub struct UpdateTaskForm {
    pub name: String,
    pub description: Option<String>,
}

/// A task that is to be stored for `user_id`.
#[derive(Clone, Debug, PartialEq, Eq)]
pub struct NewTask {
    pub user_id: i64,
    pub name: String,
    pub description: Option<String>,
}

/// New name and description for the task `id` of `user_id`.
#[derive(Clone, Debug, PartialEq, Eq)]
pub struct TaskUpdate {
    pub id: i64,
    pub user_id: i64,
    pub name: String,
    pub description: Option<String>,
}

/// The task `id` of `user_id` is to be archived.
#[derive(Clone, Copy, Debug, PartialEq, Eq, Structural)]
pub struct TaskArchive {
    pub id: i64,
    pub user_id: i64,
}

/// What a toggle writes.
#[derive(Clone, Copy, Debug, PartialEq, Eq, Structural)]
pub enum ToggleAction {
    /// Store the completion.
    Complete(Completion),
    /// Delete the completion.
    Uncomplete(Completion),
}

/// Whether `n` is the longest streak among `tasks`: zero for no tasks.
pub open spec fn is_longest_streak(tasks: Seq<TaskWithStreak>, n: int) -> bool {
    if tasks.len() == 0 {
        n == 0
    } else {
        &&& exists|i: int| 0 <= i < tasks.len() && tasks[i].current_streak == n
        &&& forall|i: int| 0 <= i < tasks.len() ==> tasks[i].current_streak <= n
    }
}

/// Whether `progress` sums up `tasks`.
pub open spec fn is_progress_of(progress: ProgressOobPartial, tasks: Seq<TaskWithStreak>) -> bool {
    &&& progress.total_count == tasks.len()
    &&& progress.completed_count == tasks.filter(|t: TaskWithStreak| t.completed_today).len()
    &&& progress.active_streak_count == tasks.filter(|t: TaskWithStreak| t.current_streak > 0).len()
    &&& is_longest_streak(tasks, progress.longest_streak as int)
}

/// The description as it is stored: an empty one counts as none.
pub open spec fn stored_description(description: Option<Seq<char>>) -> Option<Seq<char>> {
    match description {
        Some(text) if text.len() > 0 => Some(text),
        _ => None,
    }
}

/// What the owner check says about a task that was looked up for `user_id`.
pub open spec fn owner_check(found: Result<Option<TaskWithStreak>, StoreError>, user_id: i64) -> Result<
    TaskWithStreak,
    StatusCode,
> {
    match found {
        Err(_) => Err(StatusCode::InternalServerError),
        Ok(None) => Err(StatusCode::NotFound),
        Ok(Some(task)) => if task.user_id == user_id {
            Ok(task)
        } else {
            Err(StatusCode::Forbidden)
        },
    }
}

/// What a toggle by `user_id` on the day `today` writes.
pub open spec fn toggle_decision(
    found: Result<Option<TaskWithStreak>, StoreError>,
    user_id: i64,
    today: LocalDate,
) -> Result<ToggleAction, StatusCode> {
    match owner_check(found, user_id) {
        Err(status) => Err(status),
        Ok(task) => {
            let row = Completion { task_id: task.id, completed_date: today };
            if task.completed_today {
                Ok(ToggleAction::Uncomplete(row))
            } else {
                Ok(ToggleAction::Complete(row))
            }
        },
    }
}

/// The completions after `action` has been written.
pub open spec fn toggled(rows: Seq<Completion>, action: ToggleAction) -> Seq<Completion> {
    match action {
        ToggleAction::Complete(row) => completed(rows, row),
        ToggleAction::Uncomplete(row) => uncompleted(rows, row),
    }
}

/// The completions after a toggle has been decided and its action, if any,
/// written: a refusal writes nothing.
pub open spec fn after_toggle(rows: Seq<Completion>, decision: Result<ToggleAction, StatusCode>) -> Seq<
    Completion,
> {
    match decision {
        Ok(action) => toggled(rows, action),
        Err(_) => rows,
    }
}

/// A toggle by anyone but the owner is refused as forbidden, and the
/// completions stay as they are.
pub proof fn lemma_toggle_by_other_user(
    rows: Seq<Completion>,
    task: TaskWithStreak,
    user_id: i64,
    today: LocalDate,
)
    requires
        task.user_id != user_id,
    ensures
        toggle_decision(Ok(Some(task)), user_id, today) == Err::<ToggleAction, StatusCode>(
            StatusCode::Forbidden,
        ),
        after_toggle(rows, toggle_decision(Ok(Some(task)), user_id, today)) == rows,
{
}

/// A toggle by the owner flips the day: after the action has been written,
/// the task has a completion on `today` exactly if it had none.
pub proof fn lemma_toggle_flips(
    rows: Seq<Completion>,
    task: TaskWithStreak,
    today: LocalDate,
)
    requires
        rows.no_duplicates(),
        task.completed_today == rows.contains(Completion { task_id: task.id, completed_date: today }),
    ensures
        toggle_decision(Ok(Some(task)), task.user_id, today) is Ok,
        after_toggle(rows, toggle_decision(Ok(Some(task)), task.user_id, today)).contains(
            Completion { task_id: task.id, completed_date: today },
        ) == !task.completed_today,
{
    let row = Completion { task_id: task.id, completed_date: today };
    lemma_completed_contains(rows, row, row);
    lemma_uncompleted_contains(rows, row, row);
}

/// An empty description counts as none.
pub fn normalize_description(description: &Option<String>) -> (r: Option<String>)
    ensures
        opt_text(r) == stored_description(opt_text(*description)),
{
    match description {
        Some(text) => if text.as_str().unicode_len() > 0 {
            Some(text.clone())
        } else {
            None
        },
        None => None,
    }
}

/// The day's progress over `tasks`, the active tasks of one user with their
/// streaks.
pub fn render_progress_oob(tasks: &Vec<TaskWithStreak>) -> (progress: ProgressOobPartial)
    ensures
        is_progress_of(progress, tasks@),
{
    let mut completed_count: usize = 0;
    let mut active_streak_count: usize = 0;
    let mut longest_streak: i64 = 0;
    let ghost is_done = |t: TaskWithStreak| t.completed_today;
    let ghost is_active = |t: TaskWithStreak| t.current_streak > 0;
    proof {
        reveal(Seq::filter);
        assert(tasks@.subrange(0, 0) =~= Seq::<TaskWithStreak>::empty());
    }
    for k in 0..tasks.len()
        invariant
            is_done == (|t: TaskWithStreak| t.completed_today),
            is_active == (|t: TaskWithStreak| t.current_streak > 0),
            completed_count == tasks@.subrange(0, k as int).filter(is_done).len(),
            active_streak_count == tasks@.subrange(0, k as int).filter(is_active).len(),
            completed_count <= k,
            active_streak_count <= k,
            is_longest_streak(tasks@.subrange(0, k as int), longest_streak as int),
    {
        proof {
            reveal(Seq::filter);
            let seen = tasks@.subrange(0, k as int);
            let next = tasks@.subrange(0, k as int + 1);
            assert(next.drop_last() =~= seen);
            assert(next.last() == tasks@[k as int]);
            assert(forall|i: int| 0 <= i < seen.len() ==> seen[i] == next[i]);
        }
        let task = &tasks[k];
        if task.completed_today {
            completed_count += 1;
        }
        if task.current_streak > 0 {
            active_streak_count += 1;
        }
        if k == 0 || task.current_streak > longest_streak {
            longest_streak = task.current_streak;
            assert(tasks@.subrange(0, k as int + 1)[k as int].current_streak == longest_streak);
        } else {
            proof {
                let seen = tasks@.subrange(0, k as int);
                let next = tasks@.subrange(0, k as int + 1);
                let i = choose|i: int| 0 <= i < seen.len() && seen[i].current_streak == longest_streak;
                assert(next[i].current_streak == longest_streak);
            }
        }
    }
    assert(tasks@.subrange(0, tasks@.len() as int) =~= tasks@);
    ProgressOobPartial {
        completed_count,
        total_count: tasks.len(),
        active_streak_count,
        longest_streak,
    }
}

/// The day's progress from what the read of the user's active tasks gave.
pub fn fetch_progress_oob(tasks: &Result<Vec<TaskWithStreak>, StoreError>) -> (r: Result<
    ProgressOobPartial,
    StatusCode,
>)
    ensures
        match *tasks {
            Ok(rows) => r matches Ok(progress) && is_progress_of(progress, rows@),
            Err(_) => r == Err::<ProgressOobPartial, StatusCode>(StatusCode::InternalServerError),
        },
{
    match tasks {
        Ok(rows) => Ok(render_progress_oob(rows)),
        Err(_) => Err(StatusCode::InternalServerError),
    }
}

/// The empty form for a new task.
pub fn task_form(_user: &AuthUser) -> TaskFormPartial {
    TaskFormPartial
}

/// Lets the owner through to the task and stops everyone else: "not found"
/// for a task that is not there, "forbidden" for the task of another user,
/// "internal server error" for a failed read.
pub fn authorize(found: Result<Option<TaskWithStreak>, StoreError>, user: &AuthUser) -> (r: Result<
    TaskWithStreak,
    StatusCode,
>)
    ensures
        r == owner_check(found, user.id),
{
    match found {
        Err(_) => Err(StatusCode::InternalServerError),
        Ok(None) => Err(StatusCode::NotFound),
        Ok(Some(task)) => if task.user_id == user.id {
            Ok(task)
        } else {
            Err(StatusCode::Forbidden)
        },
    }
}

/// The task that the form creates for `user`.
pub fn create_task(user: &AuthUser, form: &CreateTaskForm) -> (task: NewTask)
    ensures
        task.user_id == user.id,
        task.name@ == form.name@,
        opt_text(task.description) == stored_description(opt_text(form.description)),
{
    NewTask {
        user_id: user.id,
        name: form.name.clone(),
        description: normalize_description(&form.description),
    }
}

/// The answer to a write that shows a card: the card of the task as it was
/// read after the write, with the progress over the user's active tasks. If
/// the task or the tasks could not be read, the answer is "internal server
/// error".
pub fn card_with_progress(
    found: Result<Option<TaskWithStreak>, StoreError>,
    tasks: &Result<Vec<TaskWithStreak>, StoreError>,
) -> (r: Result<(TaskCardPartial, ProgressOobPartial), StatusCode>)
    ensures
        match (found, *tasks) {
            (Ok(Some(task)), Ok(rows)) => r matches Ok(shown) && shown.0.task == task
                && is_progress_of(shown.1, rows@),
            _ => r matches Err(status) && status == StatusCode::InternalServerError,
        },
{
    match found {
        Ok(Some(task)) => match fetch_progress_oob(tasks) {
            Ok(progress) => Ok((TaskCardPartial { task }, progress)),
            Err(status) => Err(status),
        },
        _ => Err(StatusCode::InternalServerError),
    }
}

/// What a toggle writes: the owner's task is completed for `today` if it was
/// not, and the completion is taken back if it was. For anyone else there is
/// nothing to write, so the task's state stays as it is, and the answer is
/// the status: "forbidden" for another user's task, "not found" for no task.
pub fn toggle_task(
    found: Result<Option<TaskWithStreak>, StoreError>,
    user: &AuthUser,
    today: LocalDate,
) -> (r: Result<ToggleAction, StatusCode>)
    ensures
        r == toggle_decision(found, user.id, today),
{
    match authorize(found, user) {
        Err(status) => Err(status),
        Ok(task) => {
            let row = Completion { task_id: task.id, completed_date: today };
            if task.completed_today {
                Ok(ToggleAction::Uncomplete(row))
            } else {
                Ok(ToggleAction::Complete(row))
            }
        },
    }
}

impl ToggleAction {
    /// Writes the action to `completions`.
    pub fn apply(&self, completions: &mut Completions)
        ensures
            final(completions)@ == toggled(old(completions)@, *self),
            final(completions)@.no_duplicates(),
    {
        match self {
            ToggleAction::Complete(row) => complete_today(
                completions,
                row.task_id,
                row.completed_date,
            ),
            ToggleAction::Uncomplete(row) => uncomplete_today(
                completions,
                row.task_id,
                row.completed_date,
            ),
        }
    }
}

/// The form that edits the task, for its owner.
pub fn edit_form(found: Result<Option<TaskWithStreak>, StoreError>, user: &AuthUser) -> (r: Result<
    TaskEditPartial,
    StatusCode,
>)
    ensures
        match owner_check(found, user.id) {
            Ok(task) => r matches Ok(form) && form.task == task,
            Err(status) => r matches Err(s) && s == status,
        },
{
    match authorize(found, user) {
        Ok(task) => Ok(TaskEditPartial { task }),
        Err(status) => Err(status),
    }
}

/// The card of the task, for its owner.
pub fn task_card(found: Result<Option<TaskWithStreak>, StoreError>, user: &AuthUser) -> (r: Result<
    TaskCardPartial,
    StatusCode,
>)
    ensures
        match owner_check(found, user.id) {
            Ok(task) => r matches Ok(card) && card.task == task,
            Err(status) => r matches Err(s) && s == status,
        },
{
    match authorize(found, user) {
        Ok(task) => Ok(TaskCardPartial { task }),
        Err(status) => Err(status),
    }
}

/// What an edit writes: the new name and description of the owner's task. An
/// empty description is stored as none. For anyone but the owner there is
/// nothing to write.
pub fn update_task(
    found: Result<Option<TaskWithStreak>, StoreError>,
    user: &AuthUser,
    form: &UpdateTaskForm,
) -> (r: Result<TaskUpdate, StatusCode>)
    ensures
        match owner_check(found, user.id) {
            Ok(task) => r matches Ok(update) && update.id == task.id && update.user_id == user.id
                && update.name@ == form.name@ && opt_text(update.description)
                == stored_description(opt_text(form.description)),
            Err(status) => r matches Err(s) && s == status,
        },
{
    match authorize(found, user) {
        Ok(task) => Ok(
            TaskUpdate {
                id: task.id,
                user_id: user.id,
                name: form.name.clone(),
                description: normalize_description(&form.description),
            },
        ),
        Err(status) => Err(status),
    }
}

/// What archiving writes: the owner's task is to be archived. For anyone but
/// the owner there is nothing to write.
pub fn archive_task(found: Result<Option<TaskWithStreak>, StoreError>, user: &AuthUser) -> (r: Result<
    TaskArchive,
    StatusCode,
>)
    ensures
        r == match owner_check(found, user.id) {
            Ok(task) => Ok::<TaskArchive, StatusCode>(TaskArchive { id: task.id, user_id: user.id }),
            Err(status) => Err(status),
        },
{
    match authorize(found, user) {
        Ok(task) => Ok(TaskArchive { id: task.id, user_id: user.id }),
        Err(status) => Err(status),
    }
}

} // verus!
