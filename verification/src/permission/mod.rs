use vstd::prelude::*;

use crate::app_state::store::users::{User, Users};
use crate::common::authentication::Authentication;
use crate::common::id::Id;

verus! {

/// The stored user that an authentication is logged in as.
pub open spec fn logged_in_user(auth: Authentication, users: Map<Id, User>) -> Option<User> {
    match auth {
        Authentication::Authenticated { user } => if users.contains_key(user) {
            Some(users[user])
        } else {
            None
        },
        Authentication::NotAuthenticated => None,
    }
}

/// Whether the logged-in user is `target`.
pub open spec fn is_logged_in_as(auth: Authentication, users: Map<Id, User>, target: User) -> bool {
    logged_in_user(auth, users) matches Some(u) && u.id == target.id
}

/// Whether a session may list the sessions: any logged-in user may.
pub fn session_list(auth: &Authentication, users: &Users) -> (r: bool)
    ensures
        r == logged_in_user(*auth, users@) is Some,
{
    auth.get_user(users).is_some()
}

/// Whether a session may read all of `target_user`: only that user may.
pub fn user_read(auth: &Authentication, users: &Users, target_user: &User) -> (r: bool)
    ensures
        r == is_logged_in_as(*auth, users@, *target_user),
{
    let user = match auth.get_user(users) {
        Some(user) => user,
        None => {
            return false;
        },
    };
    *user == *target_user
}

/// Whether a session may change `target_user`: only that user may.
pub fn user_update(auth: &Authentication, users: &Users, target_user: &User) -> (r: bool)
    ensures
        r == is_logged_in_as(*auth, users@, *target_user),
{
    let user = match auth.get_user(users) {
        Some(user) => user,
        None => {
            return false;
        },
    };
    *user == *target_user
}

/// Whether a session may change the password of `target_user`: only that
/// user may.
pub fn user_update_password(auth: &Authentication, users: &Users, target_user: &User) -> (r: bool)
    ensures
        r == is_logged_in_as(*auth, users@, *target_user),
{
    let user = match auth.get_user(users) {
        Some(user) => user,
        None => {
            return false;
        },
    };
    *user == *target_user
}

} // verus!
