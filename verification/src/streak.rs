//! The streak calculator.
//!
//! A task's streak is the number of consecutive calendar days, ending today
//! or yesterday, on which the task has a completion. It is computed from the
//! completions on every read and stored nowhere.

use vstd::prelude::*;

verus! {

/// The `n` days that end with `anchor` are all in `days`, and the day before
/// them is not: the walk back from `anchor` counts `n` days and stops at the
/// first gap.
pub open spec fn is_run(days: Set<int>, anchor: int, n: int) -> bool {
    &&& n >= 0
    &&& forall|d: int| anchor - n < d <= anchor ==> days.contains(d)
    &&& !days.contains(anchor - n)
}

/// The day from which the walk back starts: today if it is in `days`, else
/// yesterday if that is, else none.
pub open spec fn anchor_day(days: Set<int>, today: int) -> Option<int> {
    if days.contains(today) {
        Some(today)
    } else if days.contains(today - 1) {
        Some(today - 1)
    } else {
        None
    }
}

/// `n` is the current streak of the completion days `days` on the day `today`.
pub open spec fn is_streak(days: Set<int>, today: int, n: int) -> bool {
    match anchor_day(days, today) {
        Some(anchor) => is_run(days, anchor, n),
        None => n == 0,
    }
}

/// A walk back from one day has one length.
pub proof fn lemma_run_unique(days: Set<int>, anchor: int, n: int, m: int)
    requires
        is_run(days, anchor, n),
        is_run(days, anchor, m),
    ensures
        n == m,
{
    if n < m {
        assert(days.contains(anchor - n));
    } else if m < n {
        assert(days.contains(anchor - m));
    }
}

/// A set of days has at most one current streak on a given day.
pub proof fn lemma_streak_unique(days: Set<int>, today: int, n: int, m: int)
    requires
        is_streak(days, today, n),
        is_streak(days, today, m),
    ensures
        n == m,
{
    match anchor_day(days, today) {
        Some(anchor) => lemma_run_unique(days, anchor, n, m),
        None => {},
    }
}

/// The streak is zero exactly when neither today nor yesterday has a
/// completion.
pub proof fn lemma_streak_zero_iff(days: Set<int>, today: int, n: int)
    requires
        is_streak(days, today, n),
    ensures
        n == 0 <==> !days.contains(today) && !days.contains(today - 1),
{
}

/// A completion today with none yesterday is a streak of one.
pub proof fn lemma_streak_of_today_alone(days: Set<int>, today: int, n: int)
    requires
        days.contains(today),
        !days.contains(today - 1),
        is_streak(days, today, n),
    ensures
        n == 1,
{
    lemma_run_unique(days, today, n, 1);
}

/// Completions on `today` and the two days before it, with none on the third
/// day before it, are a streak of three on `today`.
pub proof fn lemma_streak_of_three(days: Set<int>, today: int, n: int)
    requires
        days.contains(today),
        days.contains(today - 1),
        days.contains(today - 2),
        !days.contains(today - 3),
        is_streak(days, today, n),
    ensures
        n == 3,
{
    lemma_run_unique(days, today, n, 3);
}

/// Days after today do not count, and neither do days before the first gap:
/// two sets of days that agree from the end of the streak up to today have the
/// same streak.
pub proof fn lemma_streak_reads_only_the_run(days: Set<int>, other: Set<int>, today: int, n: int)
    requires
        is_streak(days, today, n),
        forall|d: int| today - n - 1 <= d <= today ==> (days.contains(d) <==> other.contains(d)),
    ensures
        is_streak(other, today, n),
{
}

} // verus!
