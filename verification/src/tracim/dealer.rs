//! The decisions of provisioning: given what the server has, what is left to
//! ask of it.

use super::remote::{Space, SpaceMember, UserDigest};
use super::types::RoleInSpace;
use crate::text::same_text;
use vstd::prelude::*;

verus! {

/// What is left to do for a user to have a role in a space.
#[derive(Clone, Copy, Debug, PartialEq, Eq, Structural)]
pub enum RoleStep {
    /// The user has the role: nothing.
    Keep,
    /// The user is a member with another role: change it.
    Update,
    /// The user is no member: make it one.
    Create,
}

/// The identifier of the first of `digests[from..]` whose name is `username`,
/// if there is one.
pub open spec fn account_among(digests: Seq<UserDigest>, username: Seq<char>, from: int)
    -> Option<i32>
    decreases digests.len() - from,
{
    if from < 0 || from >= digests.len() {
        None
    } else if digests[from].username@ == username {
        Some(digests[from].user_id)
    } else {
        account_among(digests, username, from + 1)
    }
}

/// The identifier of the first of `spaces[from..]` whose label is `label`, if
/// there is one.
pub open spec fn space_among(spaces: Seq<Space>, label: Seq<char>, from: int) -> Option<i32>
    decreases spaces.len() - from,
{
    if from < 0 || from >= spaces.len() {
        None
    } else if spaces[from].label@ == label {
        Some(spaces[from].workspace_id)
    } else {
        space_among(spaces, label, from + 1)
    }
}

/// What is left to do for the user `account_id` to have `role`, given the
/// members `members[from..]` of the space: the first membership of the user
/// decides.
pub open spec fn role_step_among(
    members: Seq<SpaceMember>,
    account_id: i32,
    role: RoleInSpace,
    from: int,
) -> RoleStep
    decreases members.len() - from,
{
    if from < 0 || from >= members.len() {
        RoleStep::Create
    } else if members[from].user_id == account_id {
        if members[from].role@ == role.name() {
            RoleStep::Keep
        } else {
            RoleStep::Update
        }
    } else {
        role_step_among(members, account_id, role, from + 1)
    }
}

/// The identifier of the account named `username` among the users that the
/// server lists; `None` where the account is still to be created.
pub fn find_account(user_digests: &Vec<UserDigest>, username: &str) -> (found: Option<i32>)
    ensures
        found == account_among(user_digests@, username@, 0),
{
    for i in 0..user_digests.len()
        invariant
            account_among(user_digests@, username@, 0) == account_among(
                user_digests@,
                username@,
                i as int,
            ),
    {
        if same_text(user_digests[i].username.as_str(), username) {
            return Some(user_digests[i].user_id);
        }
    }
    None
}

/// The identifier of the space labelled `name` among the spaces that the
/// server lists; `None` where the space is still to be created.
pub fn find_space(spaces: &Vec<Space>, name: &str) -> (found: Option<i32>)
    ensures
        found == space_among(spaces@, name@, 0),
{
    for i in 0..spaces.len()
        invariant
            space_among(spaces@, name@, 0) == space_among(spaces@, name@, i as int),
    {
        if same_text(spaces[i].label.as_str(), name) {
            return Some(spaces[i].workspace_id);
        }
    }
    None
}

/// What is left to do for the user `account_id` to have `role` in a space
/// with the members `space_members`.
pub fn role_step(space_members: &Vec<SpaceMember>, account_id: i32, role: RoleInSpace) -> (step:
    RoleStep)
    ensures
        step == role_step_among(space_members@, account_id, role, 0),
{
    for i in 0..space_members.len()
        invariant
            role_step_among(space_members@, account_id, role, 0) == role_step_among(
                space_members@,
                account_id,
                role,
                i as int,
            ),
    {
        if space_members[i].user_id == account_id {
            if same_text(space_members[i].role.as_str(), role.as_str()) {
                return RoleStep::Keep;
            } else {
                return RoleStep::Update;
            }
        }
    }
    RoleStep::Create
}

} // verus!
