//! Read-only queries over the directory.
//!
//! A lookup by a field returns the record inserted **last** among those that
//! match. Where no two records share the field this is the only match; where
//! some do, the later one wins.

use crate::model::{
    field_is, find_last, last_position, lemma_last_position_is, lemma_no_position, UserField,
};
use crate::types::User;
use vstd::prelude::*;

verus! {

/// Compares one field of a record with a value.
pub(crate) fn field_matches(user: &User, field: UserField, value: &String) -> (matches: bool)
    ensures
        matches == field_is(user@, field, value@),
{
    match field {
        UserField::UserId => match &user.user_id {
            Some(id) => *id == *value,
            None => false,
        },
        UserField::Username => user.username == *value,
        UserField::Email => user.email == *value,
    }
}

/// Scans from the back for the latest matching record and returns a copy of
/// it.
fn find_latest(users: &Vec<User>, field: UserField, value: &String) -> (found: Option<User>)
    ensures
        found.deep_view() == find_last(users.deep_view(), field, value@),
{
    let mut i: usize = users.len();
    while i > 0
        invariant
            i <= users.len(),
            forall|j: int|
                i <= j < users.len() ==> !field_is(#[trigger] users.deep_view()[j], field, value@),
        decreases i,
    {
        i -= 1;
        if field_matches(&users[i], field, value) {
            proof {
                lemma_last_position_is(users.deep_view(), field, value@, i as int);
            }
            return Some(users[i].clone());
        }
    }
    proof {
        lemma_no_position(users.deep_view(), field, value@);
    }
    None
}

/// Returns a copy of every record, in insertion order.
pub fn find_all_user(users: &Vec<User>) -> (all: Vec<User>)
    ensures
        all.deep_view() == users.deep_view(),
{
    let all = users.clone();
    assert(all.deep_view() =~= users.deep_view());
    all
}

/// Returns the record inserted last among those whose email is `email`, or
/// `None` where no record has that email.
pub fn find_user_by_email(users: &Vec<User>, email: &String) -> (found: Option<User>)
    ensures
        found.deep_view() == find_last(users.deep_view(), UserField::Email, email@),
{
    find_latest(users, UserField::Email, email)
}

/// Returns the record inserted last among those whose name is `username`, or
/// `None` where no record has that name.
pub fn find_user_by_username(users: &Vec<User>, username: &String) -> (found: Option<User>)
    ensures
        found.deep_view() == find_last(users.deep_view(), UserField::Username, username@),
{
    find_latest(users, UserField::Username, username)
}

/// Returns the record inserted last among those whose identifier is
/// `user_id`, or `None` where no record has that identifier. A record without
/// an identifier is never returned.
pub fn find_user_by_id(users: &Vec<User>, user_id: String) -> (found: Option<User>)
    ensures
        found.deep_view() == find_last(users.deep_view(), UserField::UserId, user_id@),
{
    find_latest(users, UserField::UserId, &user_id)
}

} // verus!
