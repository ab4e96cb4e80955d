//! What the server answers: the records of its interface, as they are read.

use vstd::prelude::*;

verus! {

/// A user, in a list of users.
#[derive(Debug, Clone)]
pub struct UserDigest {
    pub user_id: i32,
    pub username: String,
}

/// A user that was just created.
#[derive(Debug, Clone)]
pub struct CreatedUser {
    pub user_id: i32,
    pub username: String,
    pub email: String,
}

/// A space.
#[derive(Debug, Clone)]
pub struct Space {
    pub workspace_id: i32,
    pub label: String,
}

/// The membership of a user in a space.
#[derive(Debug, Clone)]
pub struct SpaceMember {
    pub workspace_id: i32,
    pub user_id: i32,
    pub role: String,
}

/// A content of a space.
#[derive(Debug, Clone)]
pub struct Content {
    pub workspace_id: i32,
    pub label: String,
    pub content_id: i32,
}

/// The counts of the messages of a user.
#[derive(Debug, Clone)]
pub struct MessageSummary {
    pub messages_count: i32,
    pub read_messages_count: i32,
    pub unread_messages_count: i32,
}

} // verus!
