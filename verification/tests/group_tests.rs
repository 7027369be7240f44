use racha::auth::AuthUser;
use racha::date::LocalDate;
use racha::models::completion::{complete_today, Completions};
use racha::models::group::{
    generate_invite_code, invite_code_from, normalize_invite_code, Group, MemberWithStreaks,
    Membership, Memberships, INVITE_ALPHABET, INVITE_CODE_LEN,
};
use racha::models::task::Task;
use racha::models::user::User;
use racha::models::StoreError;
use racha::response::StatusCode;
use racha::routes::groups::{
    create_form, create_group, feed_group, group_feed, group_streaks_by_member, join_code,
    join_form, join_group, CreateGroupForm, JoinGroupForm,
};

const TODAY: LocalDate = LocalDate(738_886);
const ALICE: AuthUser = AuthUser { id: 1 };
const BOB: AuthUser = AuthUser { id: 2 };

fn group(id: i64, name: &str, invite_code: &str, created_by: i64) -> Group {
    Group {
        id,
        name: name.to_string(),
        invite_code: invite_code.to_string(),
        created_by,
        created_at: 1_700_000_000,
    }
}

fn user(id: i64, username: &str) -> User {
    User {
        id,
        username: username.to_string(),
        email: format!("{username}@test.com"),
        password_hash: String::new(),
        created_at: 1_700_000_000,
    }
}

fn task(id: i64, user_id: i64, name: &str) -> Task {
    Task { id, user_id, name: name.to_string(), description: None, created_at: 0, archived: false }
}

fn streak_row(user_id: i64, username: &str, task_id: i64, task_name: &str) -> MemberWithStreaks {
    MemberWithStreaks {
        user_id,
        username: username.to_string(),
        task_id,
        task_name: task_name.to_string(),
        current_streak: 0,
        completed_today: false,
    }
}

fn shape(grouped: &Vec<(String, Vec<MemberWithStreaks>)>) -> Vec<(String, Vec<i64>)> {
    grouped
        .iter()
        .map(|(name, rows)| (name.clone(), rows.iter().map(|r| r.task_id).collect()))
        .collect()
}

#[test]
fn invite_code_has_eight_characters_of_the_alphabet() {
    assert_eq!(INVITE_CODE_LEN, 8);
    assert_eq!(INVITE_ALPHABET, "ABCDEFGHJKLMNPQRSTUVWXYZ23456789");
    for _ in 0..200 {
        let code = generate_invite_code();
        assert_eq!(code.chars().count(), 8);
        assert!(code.chars().all(|c| INVITE_ALPHABET.contains(c)));
        assert!(!code.contains('I') && !code.contains('O'));
        assert!(!code.contains('0') && !code.contains('1'));
    }
}

#[test]
fn draws_spell_the_code_letter_by_letter() {
    assert_eq!(invite_code_from(&vec![0, 1, 2, 7, 8, 23, 24, 31]), "ABCHJZ29");
    assert_eq!(invite_code_from(&vec![31, 31, 0, 0, 12, 13, 25, 30]), "99AANP38");
    assert_eq!(invite_code_from(&vec![]), "");
    assert_eq!(invite_code_from(&vec![5]), "F");
    for position in 0..32 {
        let letter = INVITE_ALPHABET.chars().nth(position).unwrap();
        assert_eq!(invite_code_from(&vec![position, position]), format!("{letter}{letter}"));
    }
}

#[test]
fn invite_codes_vary() {
    let first = generate_invite_code();
    let mut all_same = true;
    for _ in 0..20 {
        if generate_invite_code() != first {
            all_same = false;
        }
    }
    assert!(!all_same);
}

#[test]
fn invite_code_is_trimmed_and_upper_cased() {
    assert_eq!(normalize_invite_code("  abcd2345 \n"), "ABCD2345");
    assert_eq!(normalize_invite_code("ABCD2345"), "ABCD2345");
    assert_eq!(normalize_invite_code("AbCd 2345"), "ABCD 2345");
    assert_eq!(normalize_invite_code(""), "");
    assert_eq!(normalize_invite_code("stra\u{df}e"), "STRASSE");
    let form = JoinGroupForm { invite_code: " badcode1 ".to_string() };
    assert_eq!(join_code(&form), "BADCODE1");
}

#[test]
fn create_group_redirects_to_dashboard() {
    let form = CreateGroupForm { name: "Fitness Crew".to_string() };
    let (new_group, to) = create_group(&ALICE, &form);
    assert_eq!(to.location, "/");
    assert_eq!(to.status(), StatusCode::SeeOther);
    assert_eq!(new_group.name, "Fitness Crew");
    assert_eq!(new_group.created_by, 1);
    assert_eq!(new_group.invite_code.chars().count(), 8);
    assert!(new_group.invite_code.chars().all(|c| INVITE_ALPHABET.contains(c)));

    let stored = group(1, &new_group.name, &new_group.invite_code, new_group.created_by);
    let mut members = Memberships::new();
    Group::join(&mut members, stored.id, stored.created_by);
    let groups = Group::user_groups(&vec![stored], &members, 1);
    assert_eq!(groups.len(), 1);
    assert_eq!(groups[0].name, "Fitness Crew");
    assert_eq!(groups[0].member_count, 1);
}

#[test]
fn create_group_form_returns_200() {
    let _form = create_form(&ALICE);
}

#[test]
fn join_group_form_returns_200() {
    let _form = join_form(&ALICE);
}

#[test]
fn join_group_by_invite_code() {
    let study = group(1, "Study Group", "ABCD2345", 1);
    let mut members = Memberships::new();
    Group::join(&mut members, 1, 1);

    let form = JoinGroupForm { invite_code: "abcd2345".to_string() };
    assert_eq!(join_code(&form), study.invite_code);
    let groups = vec![study];
    let found = group(1, "Study Group", "ABCD2345", 1);
    let (membership, to) = join_group(&Ok(Some(found)), &BOB);
    assert_eq!(to.location, "/");
    assert_eq!(membership, Some(Membership { group_id: 1, user_id: 2 }));
    let membership = membership.unwrap();
    Group::join(&mut members, membership.group_id, membership.user_id);

    let bobs = Group::user_groups(&groups, &members, 2);
    assert_eq!(bobs.len(), 1);
    assert_eq!(bobs[0].id, 1);
    assert_eq!(bobs[0].name, "Study Group");
    assert_eq!(bobs[0].invite_code, "ABCD2345");
    assert_eq!(bobs[0].member_count, 2);
}

#[test]
fn joining_twice_leaves_one_membership() {
    let mut members = Memberships::new();
    Group::join(&mut members, 1, 2);
    let once = members.rows().clone();
    Group::join(&mut members, 1, 2);
    assert_eq!(members.rows(), &once);
    assert_eq!(members.len(), 1);
    assert_eq!(
        members.rows().iter().filter(|m| **m == Membership { group_id: 1, user_id: 2 }).count(),
        1
    );
    assert_eq!(members.member_count(1), 1);
    assert!(members.contains(1, 2));
    assert!(!members.contains(2, 1));
}

#[test]
fn memberships_count_members_per_group() {
    let rows = vec![
        Membership { group_id: 1, user_id: 1 },
        Membership { group_id: 2, user_id: 1 },
        Membership { group_id: 1, user_id: 2 },
        Membership { group_id: 1, user_id: 1 },
        Membership { group_id: 1, user_id: 3 },
    ];
    let members = Memberships::from_rows(&rows);
    assert_eq!(members.len(), 4);
    assert_eq!(members.rows(), &vec![rows[0], rows[1], rows[2], rows[4]]);
    assert_eq!(members.member_count(1), 3);
    assert_eq!(members.member_count(2), 1);
    assert_eq!(members.member_count(3), 0);
}

#[test]
fn user_groups_keeps_order_and_leaves_out_other_groups() {
    let groups = vec![
        group(3, "Chess", "CCCCCCCC", 2),
        group(1, "Fitness", "AAAAAAAA", 1),
        group(2, "Study", "BBBBBBBB", 1),
    ];
    let members = Memberships::from_rows(&vec![
        Membership { group_id: 1, user_id: 1 },
        Membership { group_id: 2, user_id: 1 },
        Membership { group_id: 3, user_id: 2 },
        Membership { group_id: 2, user_id: 2 },
    ]);
    let mine = Group::user_groups(&groups, &members, 1);
    let seen: Vec<(i64, &str, &str, usize)> = mine
        .iter()
        .map(|g| (g.id, g.name.as_str(), g.invite_code.as_str(), g.member_count))
        .collect();
    assert_eq!(seen, vec![(1, "Fitness", "AAAAAAAA", 1), (2, "Study", "BBBBBBBB", 2)]);
    assert!(Group::user_groups(&groups, &members, 9).is_empty());
}

#[test]
fn invalid_invite_code_redirects() {
    let form = JoinGroupForm { invite_code: "BADCODE1".to_string() };
    assert_eq!(join_code(&form), "BADCODE1");
    let (membership, to) = join_group(&Ok(None), &ALICE);
    assert_eq!(membership, None);
    assert_eq!(to.location, "/");
    assert_eq!(to.status().as_u16(), 303);
    let (membership, to) = join_group(&Err(StoreError::Failed), &ALICE);
    assert_eq!(membership, None);
    assert_eq!(to.location, "/");
}

#[test]
fn group_feed_shows_member_names() {
    let runners = group(1, "Runners", "ABCD2345", 1);
    let members = vec![user(1, "alice")];
    let tasks = vec![task(1, 1, "Run")];
    let completions = Completions::new();
    let streaks = Group::member_streaks(&members, &tasks, &completions, TODAY);
    let page = group_feed(Ok(Some(runners)), Ok(streaks), &ALICE).ok().expect("the feed");
    assert_eq!(page.group.name, "Runners");
    assert_eq!(page.group.id, 1);
    assert_eq!(page.flash_message, None);
    assert!(!page.flash_is_error);
    assert_eq!(page.members_grouped.len(), 1);
    assert_eq!(page.members_grouped[0].0, "alice");
    assert_eq!(page.members_grouped[0].1.len(), 1);
    let row = &page.members_grouped[0].1[0];
    assert_eq!(row.user_id, 1);
    assert_eq!(row.username, "alice");
    assert_eq!(row.task_id, 1);
    assert_eq!(row.task_name, "Run");
    assert_eq!(row.current_streak, 0);
    assert!(!row.completed_today);
}

#[test]
fn feed_group_is_decided_before_the_rows_are_read() {
    let runners = group(1, "Runners", "ABCD2345", 1);
    assert_eq!(feed_group(Ok(Some(runners.clone())), &ALICE), Ok(runners));
    assert_eq!(feed_group(Ok(None), &ALICE), Err(StatusCode::NotFound));
    assert_eq!(feed_group(Err(StoreError::Failed), &ALICE), Err(StatusCode::InternalServerError));
}

#[test]
fn nonexistent_group_returns_404() {
    assert_eq!(group_feed(Ok(None), Ok(vec![]), &ALICE).err(), Some(StatusCode::NotFound));
    assert_eq!(group_feed(Ok(None), Err(StoreError::Failed), &ALICE).err(), Some(StatusCode::NotFound));
}

#[test]
fn group_feed_after_failed_read_returns_500() {
    assert_eq!(
        group_feed(Err(StoreError::Failed), Ok(vec![]), &ALICE).err(),
        Some(StatusCode::InternalServerError)
    );
    assert_eq!(
        group_feed(Ok(Some(group(1, "g", "ABCD2345", 1))), Err(StoreError::Failed), &ALICE).err(),
        Some(StatusCode::InternalServerError)
    );
}

#[test]
fn member_streaks_lists_active_tasks_of_each_member_with_streaks() {
    let members = vec![user(1, "alice"), user(2, "bob"), user(3, "carol")];
    let mut archived = task(4, 2, "Old");
    archived.archived = true;
    let tasks = vec![
        task(1, 2, "Bike"),
        task(2, 1, "Meditate"),
        archived,
        task(3, 2, "Run"),
        task(5, 9, "Stranger"),
        task(6, 1, "Read"),
    ];
    let mut completions = Completions::new();
    complete_today(&mut completions, 3, TODAY);
    complete_today(&mut completions, 3, LocalDate(TODAY.0 - 1));
    complete_today(&mut completions, 2, LocalDate(TODAY.0 - 1));
    complete_today(&mut completions, 4, TODAY);
    let rows = Group::member_streaks(&members, &tasks, &completions, TODAY);
    let seen: Vec<(i64, &str, i64, &str, i64, bool)> = rows
        .iter()
        .map(|r| {
            (
                r.user_id,
                r.username.as_str(),
                r.task_id,
                r.task_name.as_str(),
                r.current_streak,
                r.completed_today,
            )
        })
        .collect();
    assert_eq!(
        seen,
        vec![
            (1, "alice", 2, "Meditate", 1, false),
            (1, "alice", 6, "Read", 0, false),
            (2, "bob", 1, "Bike", 0, false),
            (2, "bob", 3, "Run", 2, true),
        ]
    );
}

#[test]
fn rows_are_grouped_by_runs_of_one_user_name() {
    let rows = vec![
        streak_row(1, "alice", 1, "a"),
        streak_row(1, "alice", 2, "b"),
        streak_row(2, "bob", 3, "c"),
        streak_row(3, "carol", 4, "d"),
        streak_row(3, "carol", 5, "e"),
        streak_row(3, "carol", 6, "f"),
    ];
    let grouped = group_streaks_by_member(rows);
    assert_eq!(
        shape(&grouped),
        vec![
            ("alice".to_string(), vec![1, 2]),
            ("bob".to_string(), vec![3]),
            ("carol".to_string(), vec![4, 5, 6]),
        ]
    );
}

#[test]
fn grouping_cuts_only_between_neighbours() {
    let rows = vec![
        streak_row(1, "alice", 1, "a"),
        streak_row(2, "bob", 2, "b"),
        streak_row(1, "alice", 3, "c"),
    ];
    let grouped = group_streaks_by_member(rows);
    assert_eq!(
        shape(&grouped),
        vec![
            ("alice".to_string(), vec![1]),
            ("bob".to_string(), vec![2]),
            ("alice".to_string(), vec![3]),
        ]
    );
}

#[test]
fn grouping_of_no_rows_and_of_one_row() {
    assert!(group_streaks_by_member(vec![]).is_empty());
    let grouped = group_streaks_by_member(vec![streak_row(1, "alice", 1, "a")]);
    assert_eq!(shape(&grouped), vec![("alice".to_string(), vec![1])]);
}

#[test]
fn grouping_goes_by_user_name_not_by_user_id() {
    let rows = vec![streak_row(1, "sam", 1, "a"), streak_row(2, "sam", 2, "b")];
    let grouped = group_streaks_by_member(rows);
    assert_eq!(shape(&grouped), vec![("sam".to_string(), vec![1, 2])]);
    assert_eq!(grouped[0].1[1].user_id, 2);
    assert_eq!(grouped[0].1[1].task_name, "b");
}
