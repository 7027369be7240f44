//! Groups: creating, joining, and the feed of a group.

use vstd::prelude::*;
use vstd::string::*;
use crate::auth::AuthUser;
use crate::models::group::{generate_invite_code, is_invite_code, normalize_invite_code, uppercase_of};
use crate::models::group::{Group, MemberWithStreaks, Membership};
use crate::models::StoreError;
use crate::response::{Redirect, StatusCode};
use crate::routes::auth::HOME_PATH;
use crate::templates::groups::{CreateGroupFormPartial, GroupFeedTemplate, JoinGroupFormPartial};
use crate::text::trimmed;

verus! {

/// The fields of the form that creates a group.
#[derive(Clone, Debug, PartialEq, Eq)]
pub struct CreateGroupForm {
    pub name: String,
}

/// The fields of the form that joins a group.
#[derive(Clone, Debug, PartialEq, Eq)]
pub struct JoinGroupForm {
    pub invite_code: String,
}

/// A group that is to be stored. Its creator becomes its first member.
#[derive(Clone, Debug, PartialEq, Eq)]
pub struct NewGroup {
    pub name: String,
    pub invite_code: String,
    pub created_by: i64,
}

impl NewGroup {
    /// The membership to store with the group once the group has its id: the
    /// creator joins the group that they create.
    pub fn first_member(&self, group_id: i64) -> (member: Membership)
        ensures
            member == (Membership { group_id, user_id: self.created_by }),
    {
        Membership { group_id, user_id: self.created_by }
    }
}

/// The rows of all entries, one entry after the other.
pub open spec fn rows_of(grouped: Seq<(String, Vec<MemberWithStreaks>)>) -> Seq<MemberWithStreaks>
    decreases grouped.len(),
{
    if grouped.len() == 0 {
        Seq::empty()
    } else {
        rows_of(grouped.drop_last()) + grouped.last().1@
    }
}

/// Every row of the entry carries the entry's user name, and the entry has a
/// row.
pub open spec fn is_entry(entry: (String, Vec<MemberWithStreaks>)) -> bool {
    &&& entry.1@.len() > 0
    &&& forall|j: int| 0 <= j < entry.1@.len() ==> (#[trigger] entry.1@[j]).username@ == entry.0@
}

/// `grouped` holds `rows` in their order, cut wherever the user name changes
/// from one row to the next, and nowhere else.
pub open spec fn is_grouping(
    grouped: Seq<(String, Vec<MemberWithStreaks>)>,
    rows: Seq<MemberWithStreaks>,
) -> bool {
    &&& rows_of(grouped) == rows
    &&& forall|i: int| 0 <= i < grouped.len() ==> is_entry(#[trigger] grouped[i])
    &&& forall|i: int|
        0 <= i < grouped.len() - 1 ==> (#[trigger] grouped[i]).0@ != grouped[i + 1].0@
}

/// A grouping without its last entry is a grouping of the rows before that
/// entry, and the rows end with the rows of the last entry.
proof fn lemma_grouping_front(grouped: Seq<(String, Vec<MemberWithStreaks>)>)
    requires
        grouped.len() > 0,
        is_grouping(grouped, rows_of(grouped)),
    ensures
        is_grouping(grouped.drop_last(), rows_of(grouped.drop_last())),
        rows_of(grouped) == rows_of(grouped.drop_last()) + grouped.last().1@,
        is_entry(grouped.last()),
{
    let front = grouped.drop_last();
    assert forall|i: int| 0 <= i < front.len() implies is_entry(#[trigger] front[i]) by {
        assert(front[i] == grouped[i]);
    }
    assert forall|i: int| 0 <= i < front.len() - 1 implies (#[trigger] front[i]).0@ != front[i + 1].0@ by {
        assert(front[i] == grouped[i]);
        assert(front[i + 1] == grouped[i + 1]);
    }
}

/// The rows determine their grouping: two groupings of the same rows have
/// the same entries, with the same user names and the same rows.
pub proof fn lemma_grouping_unique(
    first: Seq<(String, Vec<MemberWithStreaks>)>,
    second: Seq<(String, Vec<MemberWithStreaks>)>,
    rows: Seq<MemberWithStreaks>,
)
    requires
        is_grouping(first, rows),
        is_grouping(second, rows),
    ensures
        first.len() == second.len(),
        forall|i: int|
            0 <= i < first.len() ==> (#[trigger] first[i]).0@ == second[i].0@ && first[i].1@
                == second[i].1@,
    decreases first.len(),
{
    if first.len() == 0 {
        assert(rows.len() == 0);
        if second.len() > 0 {
            lemma_grouping_front(second);
            assert(rows.len() >= second.last().1@.len());
        }
    } else {
        lemma_grouping_front(first);
        let a = first.last();
        let n = rows.len() as int;
        assert(rows[n - 1] == a.1@[a.1@.len() - 1]);
        assert(n >= a.1@.len() > 0);
        if second.len() == 0 {
            assert(rows_of(second).len() == 0);
            assert(false);
        } else {
            lemma_grouping_front(second);
            let b = second.last();
            assert(rows[n - 1] == b.1@[b.1@.len() - 1]);
            assert(a.0@ == b.0@);
            let la = a.1@.len() as int;
            let lb = b.1@.len() as int;
            let front_a = first.drop_last();
            let front_b = second.drop_last();
            if la > lb {
                // The row just before the last entry of `second` lies in the
                // last entry of `first`, so it carries the same user name as
                // the entry that follows it in `second`.
                assert(rows[n - lb - 1] == a.1@[la - lb - 1]);
                assert(rows_of(front_b).len() == n - lb);
                assert(front_b.len() > 0);
                lemma_grouping_front(front_b);
                let c = front_b.last();
                assert(rows_of(front_b)[n - lb - 1] == c.1@[c.1@.len() - 1]);
                assert(rows[n - lb - 1] == rows_of(front_b)[n - lb - 1]);
                assert(c == second[second.len() - 2]);
                assert(second[second.len() - 2].0@ != second[second.len() - 2 + 1].0@);
                assert(false);
            }
            if lb > la {
                assert(rows[n - la - 1] == b.1@[lb - la - 1]);
                assert(rows_of(front_a).len() == n - la);
                assert(front_a.len() > 0);
                lemma_grouping_front(front_a);
                let c = front_a.last();
                assert(rows_of(front_a)[n - la - 1] == c.1@[c.1@.len() - 1]);
                assert(rows[n - la - 1] == rows_of(front_a)[n - la - 1]);
                assert(c == first[first.len() - 2]);
                assert(first[first.len() - 2].0@ != first[first.len() - 2 + 1].0@);
                assert(false);
            }
            assert(a.1@ =~= rows.subrange(n - la, n));
            assert(b.1@ =~= rows.subrange(n - lb, n));
            assert(rows_of(front_a) =~= rows.subrange(0, n - la));
            assert(rows_of(front_b) =~= rows.subrange(0, n - lb));
            lemma_grouping_unique(front_a, front_b, rows_of(front_a));
            assert forall|i: int| 0 <= i < first.len() implies (#[trigger] first[i]).0@
                == second[i].0@ && first[i].1@ == second[i].1@ by {
                if i < first.len() - 1 {
                    assert(first[i] == front_a[i]);
                    assert(second[i] == front_b[i]);
                }
            }
        }
    }
}

/// The empty form that creates a group.
pub fn create_form(_user: &AuthUser) -> CreateGroupFormPartial {
    CreateGroupFormPartial
}

/// The empty form that joins a group.
pub fn join_form(_user: &AuthUser) -> JoinGroupFormPartial {
    JoinGroupFormPartial
}

/// The group that the form creates for `user`, with a fresh invite code, and
/// the redirect to the dashboard, which is the answer whether or not the
/// group can be stored.
pub fn create_group(user: &AuthUser, form: &CreateGroupForm) -> (r: (NewGroup, Redirect))
    ensures
        r.0.name@ == form.name@,
        r.0.created_by == user.id,
        is_invite_code(r.0.invite_code@),
        r.1.location@ == HOME_PATH@,
{
    let group = NewGroup {
        name: form.name.clone(),
        invite_code: generate_invite_code(),
        created_by: user.id,
    };
    (group, Redirect::to(HOME_PATH))
}

/// The invite code to look up for a join: the submitted one without
/// surrounding whitespace and in upper case.
pub fn join_code(form: &JoinGroupForm) -> (code: String)
    ensures
        code@ == uppercase_of(trimmed(form.invite_code@)),
{
    normalize_invite_code(form.invite_code.as_str())
}

/// What a join stores, given what the lookup of the invite code gave: the
/// membership of `user` in the group that was found, and nothing for an
/// unknown code or a failed lookup. The answer is the redirect to the
/// dashboard in every case.
pub fn join_group(found: &Result<Option<Group>, StoreError>, user: &AuthUser) -> (r: (
    Option<Membership>,
    Redirect,
))
    ensures
        r.0 == match *found {
            Ok(Some(group)) => Some(Membership { group_id: group.id, user_id: user.id }),
            _ => None,
        },
        r.1.location@ == HOME_PATH@,
{
    let membership = match found {
        Ok(Some(group)) => Some(Membership { group_id: group.id, user_id: user.id }),
        _ => None,
    };
    (membership, Redirect::to(HOME_PATH))
}

/// The group that a lookup by id found: "not found" where there is no such
/// group, "internal server error" where the lookup failed.
pub open spec fn group_check(found: Result<Option<Group>, StoreError>) -> Result<Group, StatusCode> {
    match found {
        Ok(Some(group)) => Ok(group),
        Ok(None) => Err(StatusCode::NotFound),
        Err(_) => Err(StatusCode::InternalServerError),
    }
}

/// The group whose feed is asked for, before any of its rows is read.
pub fn feed_group(found: Result<Option<Group>, StoreError>, _user: &AuthUser) -> (r: Result<
    Group,
    StatusCode,
>)
    ensures
        r == group_check(found),
{
    match found {
        Ok(Some(group)) => Ok(group),
        Ok(None) => Err(StatusCode::NotFound),
        Err(_) => Err(StatusCode::InternalServerError),
    }
}

/// The feed of the group that was found, from the rows of its members:
/// "not found" where there is no such group, "internal server error" where
/// the group or the rows could not be read.
pub fn group_feed(
    found: Result<Option<Group>, StoreError>,
    streaks: Result<Vec<MemberWithStreaks>, StoreError>,
    user: &AuthUser,
) -> (r: Result<GroupFeedTemplate, StatusCode>)
    ensures
        match (group_check(found), streaks) {
            (Ok(group), Ok(rows)) => r matches Ok(page) && page.group == group && is_grouping(
                page.members_grouped@,
                rows@,
            ) && page.flash_message is None && !page.flash_is_error,
            (Ok(_), Err(_)) => r matches Err(status) && status == StatusCode::InternalServerError,
            (Err(refused), _) => r matches Err(status) && status == refused,
        },
{
    match feed_group(found, user) {
        Ok(group) => match streaks {
            Ok(rows) => Ok(
                GroupFeedTemplate {
                    group,
                    members_grouped: group_streaks_by_member(rows),
                    flash_message: None,
                    flash_is_error: false,
                },
            ),
            Err(_) => Err(StatusCode::InternalServerError),
        },
        Err(status) => Err(status),
    }
}

/// A grouping stays one when an entry is closed behind it whose user name
/// differs from that of the entry before.
proof fn lemma_grouping_push(
    grouped: Seq<(String, Vec<MemberWithStreaks>)>,
    entry: (String, Vec<MemberWithStreaks>),
)
    requires
        is_grouping(grouped, rows_of(grouped)),
        is_entry(entry),
        grouped.len() > 0 ==> grouped.last().0@ != entry.0@,
    ensures
        is_grouping(grouped.push(entry), rows_of(grouped) + entry.1@),
{
    let longer = grouped.push(entry);
    assert(longer.drop_last() =~= grouped);
    assert forall|i: int| 0 <= i < longer.len() implies is_entry(#[trigger] longer[i]) by {
        if i < grouped.len() {
            assert(longer[i] == grouped[i]);
        }
    }
    assert forall|i: int| 0 <= i < longer.len() - 1 implies (#[trigger] longer[i]).0@ != longer[i
        + 1].0@ by {
        if i < grouped.len() - 1 {
            assert(longer[i] == grouped[i]);
            assert(longer[i + 1] == grouped[i + 1]);
        }
    }
}

/// Cuts the rows of a feed into one entry per member: rows that follow each
/// other with the same user name go into one entry, under that name.
pub fn group_streaks_by_member(streaks: Vec<MemberWithStreaks>) -> (grouped: Vec<
    (String, Vec<MemberWithStreaks>),
>)
    ensures
        is_grouping(grouped@, streaks@),
{
    let ghost rows = streaks@;
    let mut grouped: Vec<(String, Vec<MemberWithStreaks>)> = Vec::new();
    let mut open: Option<(String, Vec<MemberWithStreaks>)> = None;
    assert(rows.take(0) =~= Seq::<MemberWithStreaks>::empty());
    for streak in it: streaks.into_iter()
        invariant
            it.seq() == rows,
            is_grouping(
                grouped@,
                rows.take(it.index() as int - match open {
                    Some(entry) => entry.1@.len() as int,
                    None => 0int,
                }),
            ),
            match open {
                Some(entry) => is_entry(entry) && entry.1@.len() <= it.index()
                    && entry.1@ == rows.subrange(it.index() - entry.1@.len(), it.index() as int)
                    && (grouped@.len() > 0 ==> grouped@.last().0@ != entry.0@),
                None => it.index() == 0 && grouped@.len() == 0,
            },
    {
        let ghost k = it.index() as int;
        match open {
            Some((name, mut members)) => {
                if name == streak.username {
                    members.push(streak);
                    assert(members@ =~= rows.subrange(k + 1 - members@.len(), k + 1));
                    open = Some((name, members));
                } else {
                    proof {
                        lemma_grouping_push(grouped@, (name, members));
                        assert(rows.take(k - members@.len()) + members@ =~= rows.take(k));
                    }
                    grouped.push((name, members));
                    let name = streak.username.clone();
                    let mut members: Vec<MemberWithStreaks> = Vec::new();
                    members.push(streak);
                    assert(members@ =~= rows.subrange(k, k + 1));
                    open = Some((name, members));
                }
            },
            None => {
                let name = streak.username.clone();
                let mut members: Vec<MemberWithStreaks> = Vec::new();
                members.push(streak);
                assert(members@ =~= rows.subrange(k, k + 1));
                open = Some((name, members));
            },
        }
    }
    match open {
        Some((name, members)) => {
            proof {
                lemma_grouping_push(grouped@, (name, members));
                assert(rows.take(rows.len() - members@.len()) + members@ =~= rows);
            }
            grouped.push((name, members));
        },
        None => {
            assert(rows.take(0) =~= rows);
        },
    }
    grouped
}

} // verus!
