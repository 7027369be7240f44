//! The group feed and the two group forms.

use vstd::prelude::*;
use vstd::string::*;
use crate::models::group::{Group, MemberWithStreaks};

verus! {

/// The feed of a group: its members, each with the streaks of their active
/// tasks.
#[derive(Clone, Debug, PartialEq, Eq)]
pub struct GroupFeedTemplate {
    pub group: Group,
    pub members_grouped: Vec<(String, Vec<MemberWithStreaks>)>,
    pub flash_message: Option<String>,
    pub flash_is_error: bool,
}

/// The empty form that creates a group.
#[derive(Clone, Copy, Debug, PartialEq, Eq, Structural)]
pub struct CreateGroupFormPartial;

/// The empty form that joins a group.
#[derive(Clone, Copy, Debug, PartialEq, Eq, Structural)]
pub struct JoinGroupFormPartial;

} // verus!
