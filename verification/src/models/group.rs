//! Groups, their members, and the streaks of a group's members.
//!
//! A group is joined with its invite code. A user is a member of a group at
//! most once: joining again changes nothing.

use vstd::prelude::*;
use vstd::string::*;
use rand::Rng;
use crate::date::LocalDate;
use crate::models::completion::{days_of, Completion, Completions};
use crate::models::task::{active_tasks, is_task_with_streak, Task, TaskWithStreak};
use crate::models::user::User;
use crate::streak::is_streak;
use crate::text::{trim, trimmed};

verus! {

/// A group of users who see each other's progress.
#[derive(Clone, Debug, PartialEq, Eq)]
pub struct Group {
    pub id: i64,
    pub name: String,
    /// Unique among groups.
    pub invite_code: String,
    pub created_by: i64,
    /// Seconds since the Unix epoch.
    pub created_at: i64,
}

/// A group as one of its members sees it in a list.
#[derive(Clone, Debug, PartialEq, Eq)]
pub struct GroupWithMembership {
    pub id: i64,
    pub name: String,
    pub invite_code: String,
    pub member_count: usize,
}

/// One active task of one member of a group, with its streak.
#[derive(Clone, Debug, PartialEq, Eq)]
pub struct MemberWithStreaks {
    pub user_id: i64,
    pub username: String,
    pub task_id: i64,
    pub task_name: String,
    pub current_streak: i64,
    pub completed_today: bool,
}

/// One user's membership in one group.
#[derive(Clone, Copy, Debug, PartialEq, Eq, Structural)]
pub struct Membership {
    pub group_id: i64,
    pub user_id: i64,
}

/// The characters of an invite code: capital letters and digits without the
/// ones that are easily taken for each other.
pub const INVITE_ALPHABET: &'static str = "ABCDEFGHJKLMNPQRSTUVWXYZ23456789";

/// The number of characters of an invite code.
pub const INVITE_CODE_LEN: usize = 8;

/// The upper-case form of `s`, as `str::to_uppercase` of the standard library
/// gives it.
pub uninterp spec fn uppercase_of(s: Seq<char>) -> Seq<char>;

/// Calls `str::to_uppercase`. The contract claims only that the result is a
/// function of the text.
#[verifier::external_body]
fn to_uppercase(s: &str) -> (r: String)
    ensures
        r@ == uppercase_of(s@),
{
    s.to_uppercase()
}

/// Calls `rand::rng` for the thread's generator and `rand::Rng::random_range`
/// on it with the range from zero up to, not including, `bound`. That call
/// panics on an empty range, and returns a value in the range.
#[verifier::external_body]
fn random_index(bound: usize) -> (i: usize)
    requires
        bound > 0,
    ensures
        i < bound,
{
    rand::rng().random_range(0..bound)
}

/// Whether `code` has the shape of an invite code.
pub open spec fn is_invite_code(code: Seq<char>) -> bool {
    &&& code.len() == INVITE_CODE_LEN
    &&& forall|i: int| 0 <= i < code.len() ==> INVITE_ALPHABET@.contains(#[trigger] code[i])
}

/// The rows after `row` has been stored: a membership that is there already
/// is not stored again.
pub open spec fn joined(rows: Seq<Membership>, row: Membership) -> Seq<Membership> {
    if rows.contains(row) {
        rows
    } else {
        rows.push(row)
    }
}

/// The rows after each of `rows` has been stored in turn, starting from none.
pub open spec fn enrolled(rows: Seq<Membership>) -> Seq<Membership>
    decreases rows.len(),
{
    if rows.len() == 0 {
        Seq::empty()
    } else {
        joined(enrolled(rows.drop_last()), rows.last())
    }
}

/// The number of members of `group_id`.
pub open spec fn member_count(rows: Seq<Membership>, group_id: i64) -> nat {
    rows.filter(|row: Membership| row.group_id == group_id).len()
}

/// Whether each of `draws` is a position in [`INVITE_ALPHABET`].
pub open spec fn are_draws(draws: Seq<usize>) -> bool {
    forall|k: int| 0 <= k < draws.len() ==> (#[trigger] draws[k]) < INVITE_ALPHABET@.len()
}

/// The code that `draws` spell: one character for each draw, the character of
/// [`INVITE_ALPHABET`] at the position drawn.
pub open spec fn code_of(draws: Seq<usize>) -> Seq<char> {
    Seq::new(draws.len(), |k: int| INVITE_ALPHABET@[draws[k] as int])
}

/// The code that `draws` spell, each draw being a position in
/// [`INVITE_ALPHABET`].
pub fn invite_code_from(draws: &Vec<usize>) -> (code: String)
    requires
        are_draws(draws@),
    ensures
        code@ == code_of(draws@),
{
    proof {
        reveal_strlit("ABCDEFGHJKLMNPQRSTUVWXYZ23456789");
    }
    let mut code = String::new();
    for k in 0..draws.len()
        invariant
            INVITE_ALPHABET@.len() == 32,
            are_draws(draws@),
            code@ == code_of(draws@.take(k as int)),
    {
        let i = draws[k];
        let letter = INVITE_ALPHABET.substring_char(i, i + 1);
        code.append(letter);
        assert(code@ =~= code_of(draws@.take(k as int + 1))) by {
            assert(letter@[0] == INVITE_ALPHABET@[i as int]);
            assert(draws@.take(k as int + 1)[k as int] == i);
        }
    }
    assert(draws@.take(draws@.len() as int) =~= draws@);
    code
}

/// A code spelt by as many draws as a code is long is an invite code.
pub proof fn lemma_code_of_draws(draws: Seq<usize>)
    requires
        draws.len() == INVITE_CODE_LEN,
        are_draws(draws),
    ensures
        is_invite_code(code_of(draws)),
{
    assert forall|i: int| 0 <= i < code_of(draws).len() implies INVITE_ALPHABET@.contains(
        #[trigger] code_of(draws)[i],
    ) by {
        assert(INVITE_ALPHABET@[draws[i] as int] == code_of(draws)[i]);
    }
}

/// A fresh invite code: eight positions in [`INVITE_ALPHABET`] are drawn at
/// random, and the code is what they spell.
pub fn generate_invite_code() -> (code: String)
    ensures
        is_invite_code(code@),
        exists|draws: Seq<usize>|
            draws.len() == INVITE_CODE_LEN && are_draws(draws) && code@ == code_of(draws),
{
    proof {
        reveal_strlit("ABCDEFGHJKLMNPQRSTUVWXYZ23456789");
    }
    let mut draws: Vec<usize> = Vec::new();
    for k in 0..INVITE_CODE_LEN
        invariant
            INVITE_ALPHABET@.len() == 32,
            draws@.len() == k,
            are_draws(draws@),
    {
        let i = random_index(32);
        draws.push(i);
    }
    proof {
        lemma_code_of_draws(draws@);
    }
    invite_code_from(&draws)
}

/// An invite code as it is looked up: without surrounding whitespace and in
/// upper case, so that the lookup does not depend on the case typed.
pub fn normalize_invite_code(code: &str) -> (r: String)
    ensures
        r@ == uppercase_of(trimmed(code@)),
{
    to_uppercase(trim(code))
}

/// A set of memberships, each (group, user) pair at most once.
pub struct Memberships {
    rows: Vec<Membership>,
}

impl View for Memberships {
    type V = Seq<Membership>;

    closed spec fn view(&self) -> Seq<Membership> {
        self.rows@
    }
}

impl Memberships {
    #[verifier::type_invariant]
    spec fn unique(&self) -> bool {
        self.rows@.no_duplicates()
    }

    /// No memberships.
    pub fn new() -> (r: Memberships)
        ensures
            r@ == Seq::<Membership>::empty(),
    {
        Memberships { rows: Vec::new() }
    }

    /// The memberships among `rows`, in their order; a pair that occurs again
    /// is dropped.
    pub fn from_rows(rows: &Vec<Membership>) -> (r: Memberships)
        ensures
            r@ == enrolled(rows@),
            r@.no_duplicates(),
    {
        let mut r = Memberships::new();
        assert(rows@.subrange(0, 0) =~= Seq::<Membership>::empty());
        for i in 0..rows.len()
            invariant
                r@ == enrolled(rows@.subrange(0, i as int)),
                r@.no_duplicates(),
        {
            proof {
                let next = rows@.subrange(0, i as int + 1);
                assert(next.drop_last() =~= rows@.subrange(0, i as int));
                assert(next.last() == rows@[i as int]);
            }
            let row = rows[i];
            Group::join(&mut r, row.group_id, row.user_id);
        }
        assert(rows@.subrange(0, rows.len() as int) =~= rows@);
        r
    }

    /// The number of memberships.
    pub fn len(&self) -> (n: usize)
        ensures
            n == self@.len(),
    {
        self.rows.len()
    }

    /// Moves the rows out and leaves none behind.
    fn take_rows(&mut self) -> (rows: Vec<Membership>)
        ensures
            rows@ == old(self)@,
            rows@.no_duplicates(),
            final(self)@ == Seq::<Membership>::empty(),
    {
        proof {
            use_type_invariant(&*self);
        }
        let mut taken = Memberships { rows: Vec::new() };
        core::mem::swap(self, &mut taken);
        taken.rows
    }

    /// The memberships, in the order in which they were stored.
    pub fn rows(&self) -> (rows: &Vec<Membership>)
        ensures
            rows@ == self@,
            rows@.no_duplicates(),
    {
        proof {
            use_type_invariant(self);
        }
        &self.rows
    }

    /// Whether `user_id` is a member of `group_id`.
    pub fn contains(&self, group_id: i64, user_id: i64) -> (b: bool)
        ensures
            b == self@.contains(Membership { group_id, user_id }),
    {
        let row = Membership { group_id, user_id };
        let mut i: usize = 0;
        while i < self.rows.len()
            invariant
                i <= self.rows@.len(),
                row == (Membership { group_id, user_id }),
                forall|j: int| 0 <= j < i ==> self.rows@[j] != row,
            decreases self.rows@.len() - i,
        {
            if self.rows[i] == row {
                assert(self.rows@[i as int] == row);
                return true;
            }
            i += 1;
        }
        false
    }

    /// The number of members of `group_id`.
    pub fn member_count(&self, group_id: i64) -> (n: usize)
        ensures
            n == member_count(self@, group_id),
    {
        let ghost in_group = |row: Membership| row.group_id == group_id;
        let mut n: usize = 0;
        proof {
            reveal(Seq::filter);
            assert(self.rows@.subrange(0, 0) =~= Seq::<Membership>::empty());
        }
        for k in 0..self.rows.len()
            invariant
                in_group == (|row: Membership| row.group_id == group_id),
                n == self.rows@.subrange(0, k as int).filter(in_group).len(),
                n <= k,
        {
            proof {
                reveal(Seq::filter);
                let next = self.rows@.subrange(0, k as int + 1);
                assert(next.drop_last() =~= self.rows@.subrange(0, k as int));
                assert(next.last() == self.rows@[k as int]);
            }
            if self.rows[k].group_id == group_id {
                n += 1;
            }
        }
        assert(self.rows@.subrange(0, self.rows@.len() as int) =~= self.rows@);
        n
    }
}

/// `row` shows `group` with the number of its members.
pub open spec fn is_group_with_membership(
    row: GroupWithMembership,
    group: Group,
    members: Seq<Membership>,
) -> bool {
    &&& row.id == group.id
    &&& row.name == group.name
    &&& row.invite_code == group.invite_code
    &&& row.member_count == member_count(members, group.id)
}

/// The groups among `groups` that `user_id` is a member of, in their order.
pub open spec fn groups_of(groups: Seq<Group>, members: Seq<Membership>, user_id: i64) -> Seq<Group> {
    groups.filter(|group: Group| members.contains(Membership { group_id: group.id, user_id }))
}

/// `row` is the active task `task` of the member `user`, with its streak on
/// `today`, given the completions `rows`.
pub open spec fn is_member_with_streaks(
    row: MemberWithStreaks,
    user: User,
    task: Task,
    rows: Seq<Completion>,
    today: LocalDate,
) -> bool {
    &&& row.user_id == user.id
    &&& row.username == user.username
    &&& row.task_id == task.id
    &&& row.task_name == task.name
    &&& is_streak(days_of(rows, task.id), today.0 as int, row.current_streak as int)
    &&& row.completed_today == days_of(rows, task.id).contains(today.0 as int)
}

/// Each of `members`, in their order, with each of their active tasks, in
/// the order of `tasks`.
pub open spec fn member_tasks(members: Seq<User>, tasks: Seq<Task>) -> Seq<(User, Task)>
    decreases members.len(),
{
    if members.len() == 0 {
        Seq::empty()
    } else {
        member_tasks(members.drop_last(), tasks) + active_tasks(tasks, members.last().id).map_values(
            |task: Task| (members.last(), task),
        )
    }
}

impl Group {
    /// Makes `user_id` a member of `group_id`. Where the user is a member
    /// already nothing changes, and that is no error.
    pub fn join(members: &mut Memberships, group_id: i64, user_id: i64)
        ensures
            final(members)@ == joined(old(members)@, Membership { group_id, user_id }),
            final(members)@.no_duplicates(),
    {
        if !members.contains(group_id, user_id) {
            let mut rows = members.take_rows();
            rows.push(Membership { group_id, user_id });
            *members = Memberships { rows };
        } else {
            proof {
                use_type_invariant(&*members);
            }
        }
    }

    /// The groups of `user_id` among `groups`, in their order, each with the
    /// number of its members.
    pub fn user_groups(groups: &Vec<Group>, members: &Memberships, user_id: i64) -> (rows: Vec<
        GroupWithMembership,
    >)
        ensures
            rows@.len() == groups_of(groups@, members@, user_id).len(),
            forall|i: int|
                0 <= i < rows@.len() ==> is_group_with_membership(
                    #[trigger] rows@[i],
                    groups_of(groups@, members@, user_id)[i],
                    members@,
                ),
    {
        let mut rows: Vec<GroupWithMembership> = Vec::new();
        let ghost is_mine = |group: Group|
            members@.contains(Membership { group_id: group.id, user_id });
        proof {
            reveal(Seq::filter);
            assert(groups@.subrange(0, 0) =~= Seq::<Group>::empty());
        }
        for k in 0..groups.len()
            invariant
                is_mine == (|group: Group|
                    members@.contains(Membership { group_id: group.id, user_id })),
                rows@.len() == groups@.subrange(0, k as int).filter(is_mine).len(),
                forall|i: int|
                    0 <= i < rows@.len() ==> is_group_with_membership(
                        #[trigger] rows@[i],
                        groups@.subrange(0, k as int).filter(is_mine)[i],
                        members@,
                    ),
        {
            proof {
                reveal(Seq::filter);
                let next = groups@.subrange(0, k as int + 1);
                assert(next.drop_last() =~= groups@.subrange(0, k as int));
                assert(next.last() == groups@[k as int]);
            }
            let group = &groups[k];
            if members.contains(group.id, user_id) {
                rows.push(
                    GroupWithMembership {
                        id: group.id,
                        name: group.name.clone(),
                        invite_code: group.invite_code.clone(),
                        member_count: members.member_count(group.id),
                    },
                );
            }
        }
        assert(groups@.subrange(0, groups@.len() as int) =~= groups@);
        rows
    }

    /// The feed rows of a group: for each of its `members`, in their order,
    /// each active task of that member among `tasks`, in their order, with its
    /// streak on `today`.
    pub fn member_streaks(
        members: &Vec<User>,
        tasks: &Vec<Task>,
        completions: &Completions,
        today: LocalDate,
    ) -> (rows: Vec<MemberWithStreaks>)
        ensures
            rows@.len() == member_tasks(members@, tasks@).len(),
            forall|i: int|
                0 <= i < rows@.len() ==> is_member_with_streaks(
                    #[trigger] rows@[i],
                    member_tasks(members@, tasks@)[i].0,
                    member_tasks(members@, tasks@)[i].1,
                    completions@,
                    today,
                ),
    {
        let mut rows: Vec<MemberWithStreaks> = Vec::new();
        assert(members@.subrange(0, 0) =~= Seq::<User>::empty());
        for k in 0..members.len()
            invariant
                rows@.len() == member_tasks(members@.subrange(0, k as int), tasks@).len(),
                forall|i: int|
                    0 <= i < rows@.len() ==> is_member_with_streaks(
                        #[trigger] rows@[i],
                        member_tasks(members@.subrange(0, k as int), tasks@)[i].0,
                        member_tasks(members@.subrange(0, k as int), tasks@)[i].1,
                        completions@,
                        today,
                    ),
        {
            let member = &members[k];
            let own = TaskWithStreak::for_user(tasks, completions, member.id, today);
            let ghost seen = member_tasks(members@.subrange(0, k as int), tasks@);
            let ghost active = active_tasks(tasks@, member.id);
            let ghost pairs = active.map_values(|task: Task| (*member, task));
            proof {
                let next = members@.subrange(0, k as int + 1);
                assert(next.drop_last() =~= members@.subrange(0, k as int));
                assert(next.last() == *member);
                assert(member_tasks(next, tasks@) == seen + pairs);
            }
            for j in 0..own.len()
                invariant
                    own@.len() == active.len() == pairs.len(),
                    pairs == active.map_values(|task: Task| (*member, task)),
                    forall|i: int|
                        0 <= i < own@.len() ==> is_task_with_streak(
                            #[trigger] own@[i],
                            active[i],
                            completions@,
                            today,
                        ),
                    rows@.len() == seen.len() + j,
                    forall|i: int|
                        0 <= i < rows@.len() ==> is_member_with_streaks(
                            #[trigger] rows@[i],
                            (seen + pairs)[i].0,
                            (seen + pairs)[i].1,
                            completions@,
                            today,
                        ),
            {
                let task = &own[j];
                rows.push(
                    MemberWithStreaks {
                        user_id: member.id,
                        username: member.username.clone(),
                        task_id: task.id,
                        task_name: task.name.clone(),
                        current_streak: task.current_streak,
                        completed_today: task.completed_today,
                    },
                );
                assert((seen + pairs)[seen.len() + j] == pairs[j as int]);
            }
        }
        assert(members@.subrange(0, members@.len() as int) =~= members@);
        rows
    }
}

/// Joining twice is joining once, and it leaves exactly one row for the pair.
pub proof fn lemma_join_twice(rows: Seq<Membership>, row: Membership)
    requires
        rows.no_duplicates(),
    ensures
        joined(joined(rows, row), row) == joined(rows, row),
        joined(rows, row).no_duplicates(),
        joined(rows, row).filter(|other: Membership| other == row).len() == 1,
{
    let once = joined(rows, row);
    lemma_joined_contains(rows, row);
    lemma_one_row(once, row);
}

/// After joining, the membership is there.
pub proof fn lemma_joined_contains(rows: Seq<Membership>, row: Membership)
    requires
        rows.no_duplicates(),
    ensures
        joined(rows, row).contains(row),
        joined(rows, row).no_duplicates(),
{
    if !rows.contains(row) {
        let after = rows.push(row);
        assert(after[rows.len() as int] == row);
        assert forall|i: int, j: int| 0 <= i < after.len() && 0 <= j < after.len() && i != j implies after[i]
            != after[j] by {
            if i < rows.len() {
                assert(rows.contains(after[i]));
            }
            if j < rows.len() {
                assert(rows.contains(after[j]));
            }
        }
    }
}

/// Rows without duplicates hold a row that they contain exactly once.
proof fn lemma_one_row(rows: Seq<Membership>, row: Membership)
    requires
        rows.no_duplicates(),
        rows.contains(row),
    ensures
        rows.filter(|other: Membership| other == row).len() == 1,
    decreases rows.len(),
{
    reveal(Seq::filter);
    let same = |other: Membership| other == row;
    let front = rows.drop_last();
    if rows.last() == row {
        assert forall|i: int| 0 <= i < front.len() implies !same(#[trigger] front[i]) by {
            assert(rows[i] != rows[rows.len() - 1]);
        }
        lemma_none_filtered(front, row);
    } else {
        let i = choose|i: int| 0 <= i < rows.len() && rows[i] == row;
        assert(front[i] == row);
        lemma_one_row(front, row);
    }
}

proof fn lemma_none_filtered(rows: Seq<Membership>, row: Membership)
    requires
        forall|i: int| 0 <= i < rows.len() ==> rows[i] != row,
    ensures
        rows.filter(|other: Membership| other == row).len() == 0,
    decreases rows.len(),
{
    reveal(Seq::filter);
    if rows.len() > 0 {
        let front = rows.drop_last();
        assert forall|i: int| 0 <= i < front.len() implies front[i] != row by {
            assert(front[i] == rows[i]);
        }
        lemma_none_filtered(front, row);
    }
}

} // verus!
