//! Completions: the record that a task was done on a calendar day.
//!
//! A task is completed at most once per day, so a (task, date) pair occurs at
//! most once among the completions. Completions are created and deleted by
//! toggling and never updated.

use vstd::prelude::*;
use crate::date::LocalDate;
use crate::streak::{is_streak, anchor_day, is_run};

verus! {

/// One completion of one task.
#[derive(Clone, Copy, Debug, PartialEq, Eq, Structural)]
pub struct Completion {
    pub task_id: i64,
    pub completed_date: LocalDate,
}

/// The rows after `row` has been stored: a pair that is there already is not
/// stored again.
pub open spec fn completed(rows: Seq<Completion>, row: Completion) -> Seq<Completion> {
    if rows.contains(row) {
        rows
    } else {
        rows.push(row)
    }
}

/// The rows after `row` has been deleted.
pub open spec fn uncompleted(rows: Seq<Completion>, row: Completion) -> Seq<Completion> {
    rows.remove_value(row)
}

/// The rows after each of `rows` has been stored in turn, starting from none.
pub open spec fn collected(rows: Seq<Completion>) -> Seq<Completion>
    decreases rows.len(),
{
    if rows.len() == 0 {
        Seq::empty()
    } else {
        completed(collected(rows.drop_last()), rows.last())
    }
}

/// Whether `rows` hold a completion of `task_id` on the day numbered `day`.
pub open spec fn completed_on(rows: Seq<Completion>, task_id: i64, day: int) -> bool {
    i32::MIN <= day <= i32::MAX && rows.contains(
        Completion { task_id, completed_date: LocalDate(day as i32) },
    )
}

/// The day numbers of the completions of `task_id`.
pub open spec fn days_of(rows: Seq<Completion>, task_id: i64) -> Set<int> {
    Set::new(|day: int| completed_on(rows, task_id, day))
}

/// A set of completions, each (task, date) pair at most once.
pub struct Completions {
    rows: Vec<Completion>,
}

impl View for Completions {
    type V = Seq<Completion>;

    closed spec fn view(&self) -> Seq<Completion> {
        self.rows@
    }
}

impl Completions {
    #[verifier::type_invariant]
    spec fn unique(&self) -> bool {
        self.rows@.no_duplicates()
    }

    /// No completions.
    pub fn new() -> (r: Completions)
        ensures
            r@ == Seq::<Completion>::empty(),
    {
        Completions { rows: Vec::new() }
    }

    /// The completions among `rows`, in their order; a pair that occurs again
    /// is dropped.
    pub fn from_rows(rows: &Vec<Completion>) -> (r: Completions)
        ensures
            r@ == collected(rows@),
            r@.no_duplicates(),
    {
        let mut r = Completions::new();
        assert(rows@.subrange(0, 0) =~= Seq::<Completion>::empty());
        for i in 0..rows.len()
            invariant
                r@ == collected(rows@.subrange(0, i as int)),
                r@.no_duplicates(),
        {
            proof {
                let next = rows@.subrange(0, i as int + 1);
                assert(next.drop_last() =~= rows@.subrange(0, i as int));
                assert(next.last() == rows@[i as int]);
            }
            let row = rows[i];
            complete_today(&mut r, row.task_id, row.completed_date);
        }
        assert(rows@.subrange(0, rows.len() as int) =~= rows@);
        r
    }

    /// Moves the rows out and leaves none behind.
    fn take_rows(&mut self) -> (rows: Vec<Completion>)
        ensures
            rows@ == old(self)@,
            rows@.no_duplicates(),
            final(self)@ == Seq::<Completion>::empty(),
    {
        proof {
            use_type_invariant(&*self);
        }
        let mut taken = Completions { rows: Vec::new() };
        core::mem::swap(self, &mut taken);
        taken.rows
    }

    /// The number of completions.
    pub fn len(&self) -> (n: usize)
        ensures
            n == self@.len(),
    {
        self.rows.len()
    }

    /// The completions, in the order in which they were stored.
    pub fn rows(&self) -> (rows: &Vec<Completion>)
        ensures
            rows@ == self@,
            rows@.no_duplicates(),
    {
        proof {
            use_type_invariant(self);
        }
        &self.rows
    }

    /// Whether `task_id` has a completion on `date`.
    pub fn contains(&self, task_id: i64, date: LocalDate) -> (b: bool)
        ensures
            b == self@.contains(Completion { task_id, completed_date: date }),
            b == completed_on(self@, task_id, date.0 as int),
    {
        let row = Completion { task_id, completed_date: date };
        let mut i: usize = 0;
        while i < self.rows.len()
            invariant
                i <= self.rows@.len(),
                row == (Completion { task_id, completed_date: date }),
                forall|j: int| 0 <= j < i ==> self.rows@[j] != row,
            decreases self.rows@.len() - i,
        {
            if self.rows[i] == row {
                assert(self.rows@[i as int] == row);
                return true;
            }
            i += 1;
        }
        false
    }

    /// Whether `task_id` has a completion on exactly `today`.
    pub fn completed_today(&self, task_id: i64, today: LocalDate) -> (b: bool)
        ensures
            b == days_of(self@, task_id).contains(today.0 as int),
    {
        self.contains(task_id, today)
    }

    /// The current streak of `task_id` on the day `today`: starting from today,
    /// or from yesterday where today has no completion, the number of
    /// consecutive days with a completion, up to the first gap. Zero where
    /// neither today nor yesterday has one.
    pub fn current_streak(&self, task_id: i64, today: LocalDate) -> (n: i64)
        ensures
            is_streak(days_of(self@, task_id), today.0 as int, n as int),
    {
        let ghost days = days_of(self@, task_id);
        let anchor: i32 = if self.contains(task_id, today) {
            today.0
        } else if today.0 > i32::MIN && self.contains(task_id, LocalDate(today.0 - 1)) {
            today.0 - 1
        } else {
            return 0;
        };
        assert(anchor_day(days, today.0 as int) == Some(anchor as int));
        let mut cur: i32 = anchor;
        while cur > i32::MIN && self.contains(task_id, LocalDate(cur - 1))
            invariant
                cur <= anchor,
                days == days_of(self@, task_id),
                forall|d: int| cur <= d <= anchor ==> days.contains(d),
            decreases cur - i32::MIN,
        {
            cur = cur - 1;
        }
        let n: i64 = anchor as i64 - cur as i64 + 1;
        assert(is_run(days, anchor as int, n as int));
        n
    }
}

/// What the rows hold after one more has been stored.
pub proof fn lemma_completed_contains(rows: Seq<Completion>, row: Completion, other: Completion)
    ensures
        completed(rows, row).contains(other) <==> rows.contains(other) || other == row,
{
    lemma_push_contains(rows, row, other);
}

proof fn lemma_push_contains(rows: Seq<Completion>, row: Completion, other: Completion)
    ensures
        rows.push(row).contains(other) <==> rows.contains(other) || other == row,
{
    let pushed = rows.push(row);
    if rows.contains(other) {
        let i = choose|i: int| 0 <= i < rows.len() && rows[i] == other;
        assert(pushed[i] == other);
    }
    if other == row {
        assert(pushed[rows.len() as int] == other);
    }
}

/// What the rows hold after one has been deleted: all the others, and no
/// longer that one.
pub proof fn lemma_uncompleted_contains(rows: Seq<Completion>, row: Completion, other: Completion)
    requires
        rows.no_duplicates(),
    ensures
        uncompleted(rows, row).contains(other) <==> rows.contains(other) && other != row,
{
    rows.index_of_first_ensures(row);
    match rows.index_of_first(row) {
        Some(i) => {
            let rest = rows.remove(i);
            if rest.contains(other) {
                let j = choose|j: int| 0 <= j < rest.len() && rest[j] == other;
                let j0 = if j < i { j } else { j + 1 };
                assert(rows[j0] == other);
            }
            if rows.contains(other) && other != row {
                let k = choose|k: int| 0 <= k < rows.len() && rows[k] == other;
                let k0 = if k < i { k } else { k - 1 };
                assert(rest[k0] == other);
            }
        },
        None => {},
    }
}

/// Completing a day twice is completing it once.
pub proof fn lemma_complete_twice(rows: Seq<Completion>, row: Completion)
    ensures
        completed(completed(rows, row), row) == completed(rows, row),
{
    lemma_completed_contains(rows, row, row);
}

/// Completing a day that had no completion and then taking the completion
/// back leaves the rows as they were, and with them every streak.
pub proof fn lemma_complete_then_uncomplete(rows: Seq<Completion>, row: Completion, today: int)
    requires
        rows.no_duplicates(),
        !rows.contains(row),
    ensures
        uncompleted(completed(rows, row), row) == rows,
        forall|n: int|
            is_streak(days_of(uncompleted(completed(rows, row), row), row.task_id), today, n)
                == is_streak(days_of(rows, row.task_id), today, n),
{
    let after = rows.push(row);
    after.index_of_first_ensures(row);
    assert(after[rows.len() as int] == row);
    let i = after.index_of_first(row)->Some_0;
    if i < rows.len() {
        assert(rows[i] == row);
    }
    assert(after.remove(i) =~= rows);
}

proof fn lemma_remove_keeps_unique(rows: Seq<Completion>, i: int)
    requires
        rows.no_duplicates(),
        0 <= i < rows.len(),
    ensures
        rows.remove(i).no_duplicates(),
{
    let rest = rows.remove(i);
    assert forall|a: int, b: int| 0 <= a < rest.len() && 0 <= b < rest.len() && a != b implies rest[a]
        != rest[b] by {
        let a0 = if a < i { a } else { a + 1 };
        let b0 = if b < i { b } else { b + 1 };
        assert(rest[a] == rows[a0]);
        assert(rest[b] == rows[b0]);
    }
}

/// Marks `task_id` as done on `today`. Where it is marked already nothing
/// changes: the second completion of a day is ignored, not an error.
pub fn complete_today(completions: &mut Completions, task_id: i64, today: LocalDate)
    ensures
        final(completions)@ == completed(
            old(completions)@,
            Completion { task_id, completed_date: today },
        ),
        final(completions)@.no_duplicates(),
{
    proof {
        use_type_invariant(&*completions);
    }
    if !completions.contains(task_id, today) {
        let mut rows = completions.take_rows();
        rows.push(Completion { task_id, completed_date: today });
        *completions = Completions { rows };
    }
}

/// Takes back the completion of `task_id` on `today`, if there is one.
pub fn uncomplete_today(completions: &mut Completions, task_id: i64, today: LocalDate)
    ensures
        final(completions)@ == uncompleted(
            old(completions)@,
            Completion { task_id, completed_date: today },
        ),
        final(completions)@.no_duplicates(),
{
    proof {
        use_type_invariant(&*completions);
    }
    let row = Completion { task_id, completed_date: today };
    let mut rows = completions.take_rows();
    let ghost before = rows@;
    proof {
        before.index_of_first_ensures(row);
    }
    let mut i: usize = 0;
    while i < rows.len() && rows[i] != row
        invariant
            i <= rows@.len(),
            rows@ == before,
            forall|j: int| 0 <= j < i ==> before[j] != row,
        decreases before.len() - i,
    {
        i += 1;
    }
    if i < rows.len() {
        rows.remove(i);
        proof {
            lemma_remove_keeps_unique(before, i as int);
        }
    }
    *completions = Completions { rows };
}

} // verus!
