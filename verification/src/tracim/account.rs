//! An account: the credentials of a user.

use super::types::{Email, Password, Username};
use vstd::prelude::*;

verus! {

/// The credentials of a user.
#[derive(Clone, Debug)]
pub struct Account {
    pub username: Username,
    pub password: Password,
    pub email: Email,
}

impl Account {
    pub fn new(username: Username, password: Password, email: Email) -> (account: Self)
        ensures
            account.username == username,
            account.password == password,
            account.email == email,
    {
        Self { username, password, email }
    }
}

} // verus!
