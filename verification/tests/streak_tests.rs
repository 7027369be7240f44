use racha::date::{parse_date, LocalDate};
use racha::models::completion::{complete_today, uncomplete_today, Completion, Completions};

fn day(text: &str) -> LocalDate {
    parse_date(text).expect("a date")
}

fn completions_on(task_id: i64, days: &[i32]) -> Completions {
    let mut completions = Completions::new();
    for d in days {
        complete_today(&mut completions, task_id, LocalDate(*d));
    }
    completions
}

#[test]
fn no_completions_is_streak_zero_and_not_completed() {
    let completions = Completions::new();
    assert_eq!(completions.current_streak(1, LocalDate(100)), 0);
    assert!(!completions.completed_today(1, LocalDate(100)));
}

#[test]
fn completion_today_alone_is_streak_one() {
    let completions = completions_on(1, &[100]);
    assert_eq!(completions.current_streak(1, LocalDate(100)), 1);
    assert!(completions.completed_today(1, LocalDate(100)));
}

#[test]
fn completion_yesterday_alone_is_streak_one_and_not_completed_today() {
    let completions = completions_on(1, &[99]);
    assert_eq!(completions.current_streak(1, LocalDate(100)), 1);
    assert!(!completions.completed_today(1, LocalDate(100)));
}

#[test]
fn completion_two_days_ago_alone_is_streak_zero() {
    let completions = completions_on(1, &[98]);
    assert_eq!(completions.current_streak(1, LocalDate(100)), 0);
}

#[test]
fn streak_is_zero_exactly_without_today_and_yesterday() {
    for today_done in [false, true] {
        for yesterday_done in [false, true] {
            for earlier_done in [false, true] {
                let mut days = Vec::new();
                if today_done {
                    days.push(50);
                }
                if yesterday_done {
                    days.push(49);
                }
                if earlier_done {
                    days.push(48);
                    days.push(40);
                }
                let completions = completions_on(3, &days);
                let streak = completions.current_streak(3, LocalDate(50));
                assert_eq!(streak == 0, !today_done && !yesterday_done);
            }
        }
    }
}

#[test]
fn three_consecutive_days_with_gap_before_is_streak_three() {
    let d = day("2024-03-10");
    let completions = completions_on(1, &[d.0, d.0 - 1, d.0 - 2, d.0 - 4, d.0 - 5]);
    assert_eq!(completions.current_streak(1, d), 3);
    assert!(completions.completed_today(1, d));
}

#[test]
fn streak_from_yesterday_counts_back_from_yesterday() {
    let completions = completions_on(1, &[99, 98, 97, 96, 94]);
    assert_eq!(completions.current_streak(1, LocalDate(100)), 4);
}

#[test]
fn gap_before_yesterday_does_not_extend_the_streak() {
    let completions = completions_on(1, &[100, 98, 97]);
    assert_eq!(completions.current_streak(1, LocalDate(100)), 1);
}

#[test]
fn completions_after_today_do_not_count() {
    let completions = completions_on(1, &[101, 102, 100, 99]);
    assert_eq!(completions.current_streak(1, LocalDate(100)), 2);
}

#[test]
fn streak_crosses_month_and_year_ends() {
    let new_year = day("2024-01-01");
    let last_of_year = day("2023-12-31");
    assert_eq!(new_year.0 - last_of_year.0, 1);
    let completions = completions_on(1, &[new_year.0, last_of_year.0, last_of_year.0 - 1]);
    assert_eq!(completions.current_streak(1, new_year), 3);
    let leap = day("2024-03-01");
    assert_eq!(leap.0 - day("2024-02-28").0, 2);
}

#[test]
fn streaks_of_different_tasks_do_not_mix() {
    let mut completions = completions_on(1, &[100, 99]);
    complete_today(&mut completions, 2, LocalDate(98));
    complete_today(&mut completions, 2, LocalDate(100));
    assert_eq!(completions.current_streak(1, LocalDate(100)), 2);
    assert_eq!(completions.current_streak(2, LocalDate(100)), 1);
    assert_eq!(completions.current_streak(3, LocalDate(100)), 0);
}

#[test]
fn streak_at_the_first_and_last_day_numbers() {
    let completions = completions_on(1, &[i32::MIN, i32::MIN + 1, i32::MAX]);
    assert_eq!(completions.current_streak(1, LocalDate(i32::MIN)), 1);
    assert_eq!(completions.current_streak(1, LocalDate(i32::MIN + 1)), 2);
    assert_eq!(completions.current_streak(1, LocalDate(i32::MIN + 2)), 2);
    assert_eq!(completions.current_streak(1, LocalDate(i32::MAX)), 1);
}

#[test]
fn complete_then_uncomplete_restores_the_streak() {
    let mut completions = completions_on(1, &[99, 98]);
    let rows_before = completions.rows().clone();
    let before = completions.current_streak(1, LocalDate(100));
    assert_eq!(before, 2);
    complete_today(&mut completions, 1, LocalDate(100));
    assert_eq!(completions.current_streak(1, LocalDate(100)), 3);
    uncomplete_today(&mut completions, 1, LocalDate(100));
    assert_eq!(completions.current_streak(1, LocalDate(100)), before);
    assert_eq!(completions.rows(), &rows_before);
}

#[test]
fn completing_twice_is_completing_once() {
    let mut completions = Completions::new();
    complete_today(&mut completions, 1, LocalDate(100));
    let once = completions.rows().clone();
    complete_today(&mut completions, 1, LocalDate(100));
    assert_eq!(completions.rows(), &once);
    assert_eq!(completions.len(), 1);
    assert_eq!(completions.current_streak(1, LocalDate(100)), 1);
}

#[test]
fn uncompleting_a_day_without_completion_changes_nothing() {
    let mut completions = completions_on(1, &[100]);
    uncomplete_today(&mut completions, 1, LocalDate(99));
    uncomplete_today(&mut completions, 2, LocalDate(100));
    assert_eq!(completions.len(), 1);
    assert!(completions.contains(1, LocalDate(100)));
}

#[test]
fn uncompleting_removes_only_that_day() {
    let mut completions = completions_on(1, &[100, 99, 98]);
    uncomplete_today(&mut completions, 1, LocalDate(99));
    assert_eq!(
        completions.rows(),
        &vec![
            Completion { task_id: 1, completed_date: LocalDate(100) },
            Completion { task_id: 1, completed_date: LocalDate(98) },
        ]
    );
    assert_eq!(completions.current_streak(1, LocalDate(100)), 1);
}

#[test]
fn from_rows_drops_repeated_pairs_and_keeps_order() {
    let a = Completion { task_id: 1, completed_date: LocalDate(5) };
    let b = Completion { task_id: 2, completed_date: LocalDate(5) };
    let c = Completion { task_id: 1, completed_date: LocalDate(6) };
    let completions = Completions::from_rows(&vec![a, b, a, c, b]);
    assert_eq!(completions.rows(), &vec![a, b, c]);
    assert_eq!(completions.len(), 3);
}
