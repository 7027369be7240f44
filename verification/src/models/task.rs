//! Tasks, and tasks together with their streak.
//!
//! A task belongs to one user. An archived task stays in storage with its
//! completions and is left out of the active views.

use vstd::prelude::*;
use vstd::string::*;
use crate::date::LocalDate;
use crate::models::completion::{days_of, Completion, Completions};
use crate::streak::is_streak;
use crate::text::{opt_text, opt_view};

verus! {

/// A daily task of one user.
#[derive(Clone, Debug, PartialEq, Eq)]
pub struct Task {
    pub id: i64,
    pub user_id: i64,
    pub name: String,
    pub description: Option<String>,
    /// Seconds since the Unix epoch.
    pub created_at: i64,
    pub archived: bool,
}

/// A task with what the streak calculator derives for it on one day.
#[derive(Clone, Debug, PartialEq, Eq)]
pub struct TaskWithStreak {
    pub id: i64,
    pub user_id: i64,
    pub name: String,
    pub description: Option<String>,
    /// Seconds since the Unix epoch.
    pub created_at: i64,
    pub archived: bool,
    pub current_streak: i64,
    pub completed_today: bool,
}

/// `row` is `task` with its streak on `today`, given the completions `rows`.
pub open spec fn is_task_with_streak(
    row: TaskWithStreak,
    task: Task,
    rows: Seq<Completion>,
    today: LocalDate,
) -> bool {
    &&& row.id == task.id
    &&& row.user_id == task.user_id
    &&& row.name == task.name
    &&& row.description == task.description
    &&& row.created_at == task.created_at
    &&& row.archived == task.archived
    &&& is_streak(days_of(rows, task.id), today.0 as int, row.current_streak as int)
    &&& row.completed_today == days_of(rows, task.id).contains(today.0 as int)
}

/// Whether `task` is in the active view of `user_id`.
pub open spec fn is_active_of(task: Task, user_id: i64) -> bool {
    task.user_id == user_id && !task.archived
}

/// The tasks of `user_id` that are not archived, in the order of `tasks`.
pub open spec fn active_tasks(tasks: Seq<Task>, user_id: i64) -> Seq<Task> {
    tasks.filter(|task: Task| is_active_of(task, user_id))
}

/// `i` is the position of the first task with the id `task_id`.
pub open spec fn first_with_id(tasks: Seq<Task>, task_id: i64, i: int) -> bool {
    &&& 0 <= i < tasks.len()
    &&& tasks[i].id == task_id
    &&& forall|j: int| 0 <= j < i ==> tasks[j].id != task_id
}

/// Whether a write by `user_id` to the task `id` reaches `task`: the id must
/// match and the task must belong to that user.
pub open spec fn is_own_task(task: Task, id: i64, user_id: i64) -> bool {
    task.id == id && task.user_id == user_id
}

/// `task` with a new name and description.
pub open spec fn is_renamed(row: Task, task: Task, name: Seq<char>, description: Option<Seq<char>>) -> bool {
    &&& row.id == task.id
    &&& row.user_id == task.user_id
    &&& row.name@ == name
    &&& opt_text(row.description) == description
    &&& row.created_at == task.created_at
    &&& row.archived == task.archived
}

/// A copy of an optional text.
fn clone_text(text: &Option<String>) -> (r: Option<String>)
    ensures
        r == *text,
{
    match text {
        Some(t) => Some(t.clone()),
        None => None,
    }
}

impl Task {
    /// Renames the task `id` of the user `user_id` and replaces its
    /// description. The tasks of other users and tasks with another id stay as
    /// they are. Tells whether any task was written.
    pub fn update(
        tasks: &mut Vec<Task>,
        id: i64,
        user_id: i64,
        name: &str,
        description: Option<&str>,
    ) -> (written: bool)
        ensures
            final(tasks)@.len() == old(tasks)@.len(),
            forall|i: int|
                0 <= i < old(tasks)@.len() ==> if is_own_task(old(tasks)@[i], id, user_id) {
                    is_renamed(
                        #[trigger] final(tasks)@[i],
                        old(tasks)@[i],
                        name@,
                        opt_view(description),
                    )
                } else {
                    final(tasks)@[i] == old(tasks)@[i]
                },
            written == exists|i: int|
                0 <= i < old(tasks)@.len() && is_own_task(old(tasks)@[i], id, user_id),
    {
        let mut written = false;
        let ghost before = tasks@;
        let n = tasks.len();
        for k in 0..n
            invariant
                n == before.len(),
                tasks@.len() == before.len(),
                forall|i: int|
                    0 <= i < k ==> if is_own_task(before[i], id, user_id) {
                        is_renamed(#[trigger] tasks@[i], before[i], name@, opt_view(description))
                    } else {
                        tasks@[i] == before[i]
                    },
                forall|i: int| k <= i < before.len() ==> tasks@[i] == before[i],
                written == exists|i: int| 0 <= i < k && is_own_task(before[i], id, user_id),
        {
            if tasks[k].id == id && tasks[k].user_id == user_id {
                let row = Task {
                    id,
                    user_id,
                    name: name.to_owned(),
                    description: match description {
                        Some(text) => Some(text.to_owned()),
                        None => None,
                    },
                    created_at: tasks[k].created_at,
                    archived: tasks[k].archived,
                };
                tasks.set(k, row);
                written = true;
                assert(is_own_task(before[k as int], id, user_id));
            }
        }
        written
    }

    /// Archives the task `id` of the user `user_id`. The tasks of other users
    /// and tasks with another id stay as they are, and no completion is
    /// touched. Tells whether any task was written.
    pub fn archive(tasks: &mut Vec<Task>, id: i64, user_id: i64) -> (written: bool)
        ensures
            final(tasks)@.len() == old(tasks)@.len(),
            forall|i: int|
                0 <= i < old(tasks)@.len() ==> #[trigger] final(tasks)@[i] == if is_own_task(
                    old(tasks)@[i],
                    id,
                    user_id,
                ) {
                    Task { archived: true, ..old(tasks)@[i] }
                } else {
                    old(tasks)@[i]
                },
            written == exists|i: int|
                0 <= i < old(tasks)@.len() && is_own_task(old(tasks)@[i], id, user_id),
    {
        let mut written = false;
        let ghost before = tasks@;
        let n = tasks.len();
        for k in 0..n
            invariant
                n == before.len(),
                tasks@.len() == before.len(),
                forall|i: int|
                    0 <= i < k ==> #[trigger] tasks@[i] == if is_own_task(before[i], id, user_id) {
                        Task { archived: true, ..before[i] }
                    } else {
                        before[i]
                    },
                forall|i: int| k <= i < before.len() ==> tasks@[i] == before[i],
                written == exists|i: int| 0 <= i < k && is_own_task(before[i], id, user_id),
        {
            if tasks[k].id == id && tasks[k].user_id == user_id {
                let row = Task {
                    id,
                    user_id,
                    name: tasks[k].name.clone(),
                    description: clone_text(&tasks[k].description),
                    created_at: tasks[k].created_at,
                    archived: true,
                };
                tasks.set(k, row);
                written = true;
                assert(is_own_task(before[k as int], id, user_id));
            }
        }
        written
    }
}

impl TaskWithStreak {
    /// `task` with its current streak on `today` and whether it is completed
    /// on `today`, both computed from `completions`.
    pub fn compute(task: &Task, completions: &Completions, today: LocalDate) -> (row: TaskWithStreak)
        ensures
            is_task_with_streak(row, *task, completions@, today),
    {
        TaskWithStreak {
            id: task.id,
            user_id: task.user_id,
            name: task.name.clone(),
            description: clone_text(&task.description),
            created_at: task.created_at,
            archived: task.archived,
            current_streak: completions.current_streak(task.id, today),
            completed_today: completions.completed_today(task.id, today),
        }
    }

    /// The active tasks of `user_id` among `tasks`, each with its streak on
    /// `today`, in the order of `tasks`. Archived tasks and the tasks of other
    /// users are left out.
    pub fn for_user(
        tasks: &Vec<Task>,
        completions: &Completions,
        user_id: i64,
        today: LocalDate,
    ) -> (rows: Vec<TaskWithStreak>)
        ensures
            rows@.len() == active_tasks(tasks@, user_id).len(),
            forall|i: int|
                0 <= i < rows@.len() ==> is_task_with_streak(
                    #[trigger] rows@[i],
                    active_tasks(tasks@, user_id)[i],
                    completions@,
                    today,
                ),
    {
        let mut rows: Vec<TaskWithStreak> = Vec::new();
        let ghost active = |task: Task| is_active_of(task, user_id);
        proof {
            reveal(Seq::filter);
            assert(tasks@.subrange(0, 0) =~= Seq::<Task>::empty());
        }
        for k in 0..tasks.len()
            invariant
                active == (|task: Task| is_active_of(task, user_id)),
                rows@.len() == tasks@.subrange(0, k as int).filter(active).len(),
                forall|i: int|
                    0 <= i < rows@.len() ==> is_task_with_streak(
                        #[trigger] rows@[i],
                        tasks@.subrange(0, k as int).filter(active)[i],
                        completions@,
                        today,
                    ),
        {
            proof {
                reveal(Seq::filter);
                let next = tasks@.subrange(0, k as int + 1);
                assert(next.drop_last() =~= tasks@.subrange(0, k as int));
                assert(next.last() == tasks@[k as int]);
            }
            let task = &tasks[k];
            if task.user_id == user_id && !task.archived {
                rows.push(TaskWithStreak::compute(task, completions, today));
            }
        }
        assert(tasks@.subrange(0, tasks@.len() as int) =~= tasks@);
        rows
    }

    /// The task with the id `task_id` among `tasks`, archived or not, with its
    /// streak on `today`; `None` where no task has that id.
    pub fn find_by_id(
        tasks: &Vec<Task>,
        completions: &Completions,
        task_id: i64,
        today: LocalDate,
    ) -> (found: Option<TaskWithStreak>)
        ensures
            match found {
                Some(row) => exists|i: int|
                    first_with_id(tasks@, task_id, i) && is_task_with_streak(
                        row,
                        tasks@[i],
                        completions@,
                        today,
                    ),
                None => forall|i: int| 0 <= i < tasks@.len() ==> tasks@[i].id != task_id,
            },
    {
        let mut k: usize = 0;
        while k < tasks.len()
            invariant
                k <= tasks@.len(),
                forall|j: int| 0 <= j < k ==> tasks@[j].id != task_id,
            decreases tasks@.len() - k,
        {
            if tasks[k].id == task_id {
                let row = TaskWithStreak::compute(&tasks[k], completions, today);
                assert(first_with_id(tasks@, task_id, k as int));
                return Some(row);
            }
            k += 1;
        }
        None
    }
}

} // verus!
