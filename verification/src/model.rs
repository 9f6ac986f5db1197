//! The mathematical model of the directory: a sequence of [`UserView`] values
//! in insertion order, which record a lookup by a field selects in it, and
//! what the registration workflow maintains of it.

use crate::types::UserView;
use vstd::prelude::*;

verus! {

/// The fields by which a record can be looked up.
#[derive(Clone, Copy, Debug, PartialEq, Eq, Structural)]
pub enum UserField {
    UserId,
    Username,
    Email,
}

/// Does `field` of `user` hold exactly `value`? A record without an
/// identifier matches no identifier.
pub open spec fn field_is(user: UserView, field: UserField, value: Seq<char>) -> bool {
    match field {
        UserField::UserId => user.user_id == Some(value),
        UserField::Username => user.username == value,
        UserField::Email => user.email == value,
    }
}

/// No record of `users` matches.
pub open spec fn no_match(users: Seq<UserView>, field: UserField, value: Seq<char>) -> bool {
    forall|j: int| 0 <= j < users.len() ==> !field_is(#[trigger] users[j], field, value)
}

/// `k` is the position of the earliest record that matches.
pub open spec fn is_first_match(
    users: Seq<UserView>,
    field: UserField,
    value: Seq<char>,
    k: int,
) -> bool {
    &&& 0 <= k < users.len()
    &&& field_is(users[k], field, value)
    &&& forall|j: int| 0 <= j < k ==> !field_is(#[trigger] users[j], field, value)
}

/// `k` is the position of the latest record that matches.
pub open spec fn is_last_match(
    users: Seq<UserView>,
    field: UserField,
    value: Seq<char>,
    k: int,
) -> bool {
    &&& 0 <= k < users.len()
    &&& field_is(users[k], field, value)
    &&& forall|j: int| k < j < users.len() ==> !field_is(#[trigger] users[j], field, value)
}

/// The position of the earliest matching record, if any record matches.
pub open spec fn first_position(
    users: Seq<UserView>,
    field: UserField,
    value: Seq<char>,
) -> Option<int> {
    if exists|k: int| is_first_match(users, field, value, k) {
        Some(choose|k: int| is_first_match(users, field, value, k))
    } else {
        None
    }
}

/// The position of the latest matching record, if any record matches.
pub open spec fn last_position(
    users: Seq<UserView>,
    field: UserField,
    value: Seq<char>,
) -> Option<int> {
    if exists|k: int| is_last_match(users, field, value, k) {
        Some(choose|k: int| is_last_match(users, field, value, k))
    } else {
        None
    }
}

/// The earliest matching record: what update and delete act on.
pub open spec fn find_first(
    users: Seq<UserView>,
    field: UserField,
    value: Seq<char>,
) -> Option<UserView> {
    match first_position(users, field, value) {
        Some(k) => Some(users[k]),
        None => None,
    }
}

/// The latest matching record: what a lookup returns.
pub open spec fn find_last(
    users: Seq<UserView>,
    field: UserField,
    value: Seq<char>,
) -> Option<UserView> {
    match last_position(users, field, value) {
        Some(k) => Some(users[k]),
        None => None,
    }
}

/// Every record carries an identifier.
pub open spec fn all_identified(users: Seq<UserView>) -> bool {
    forall|i: int| 0 <= i < users.len() ==> (#[trigger] users[i]).user_id is Some
}

/// No two records have the same name.
pub open spec fn names_unique(users: Seq<UserView>) -> bool {
    forall|i: int, j: int|
        0 <= i < j < users.len()
            ==> (#[trigger] users[i]).username != (#[trigger] users[j]).username
}

/// No two records have the same email.
pub open spec fn emails_unique(users: Seq<UserView>) -> bool {
    forall|i: int, j: int|
        0 <= i < j < users.len() ==> (#[trigger] users[i]).email != (#[trigger] users[j]).email
}

/// The earliest match is unique, so knowing one position settles
/// [`first_position`].
pub proof fn lemma_first_position_is(
    users: Seq<UserView>,
    field: UserField,
    value: Seq<char>,
    k: int,
)
    requires
        is_first_match(users, field, value, k),
    ensures
        first_position(users, field, value) == Some(k),
{
    let c = choose|c: int| is_first_match(users, field, value, c);
    assert(is_first_match(users, field, value, c));
    if c < k {
        assert(!field_is(users[c], field, value));
    } else if k < c {
        assert(!field_is(users[k], field, value));
    }
}

/// The latest match is unique, so knowing one position settles
/// [`last_position`].
pub proof fn lemma_last_position_is(
    users: Seq<UserView>,
    field: UserField,
    value: Seq<char>,
    k: int,
)
    requires
        is_last_match(users, field, value, k),
    ensures
        last_position(users, field, value) == Some(k),
{
    let c = choose|c: int| is_last_match(users, field, value, c);
    assert(is_last_match(users, field, value, c));
    if c < k {
        assert(!field_is(users[k], field, value));
    } else if k < c {
        assert(!field_is(users[c], field, value));
    }
}

/// Where nothing matches there is neither an earliest nor a latest match.
pub proof fn lemma_no_position(users: Seq<UserView>, field: UserField, value: Seq<char>)
    requires
        no_match(users, field, value),
    ensures
        first_position(users, field, value) is None,
        last_position(users, field, value) is None,
{
    assert forall|k: int| !is_first_match(users, field, value, k) by {
        if 0 <= k < users.len() {
            assert(!field_is(users[k], field, value));
        }
    }
    assert forall|k: int| !is_last_match(users, field, value, k) by {
        if 0 <= k < users.len() {
            assert(!field_is(users[k], field, value));
        }
    }
}

/// Where the record at `j` matches there is a latest match, at `j` or after
/// it.
pub proof fn lemma_last_position_from(
    users: Seq<UserView>,
    field: UserField,
    value: Seq<char>,
    j: int,
)
    requires
        0 <= j < users.len(),
        field_is(users[j], field, value),
    ensures
        last_position(users, field, value) is Some,
        j <= last_position(users, field, value).unwrap(),
        is_last_match(users, field, value, last_position(users, field, value).unwrap()),
    decreases users.len() - j,
{
    if exists|m: int| j < m < users.len() && field_is(#[trigger] users[m], field, value) {
        let m = choose|m: int| j < m < users.len() && field_is(#[trigger] users[m], field, value);
        lemma_last_position_from(users, field, value, m);
    } else {
        lemma_last_position_is(users, field, value, j);
    }
}

/// Where the record at `j` matches there is an earliest match, at `j` or
/// before it.
pub proof fn lemma_first_position_from(
    users: Seq<UserView>,
    field: UserField,
    value: Seq<char>,
    j: int,
)
    requires
        0 <= j < users.len(),
        field_is(users[j], field, value),
    ensures
        first_position(users, field, value) is Some,
        first_position(users, field, value).unwrap() <= j,
        is_first_match(users, field, value, first_position(users, field, value).unwrap()),
    decreases j,
{
    if exists|m: int| 0 <= m < j && field_is(#[trigger] users[m], field, value) {
        let m = choose|m: int| 0 <= m < j && field_is(#[trigger] users[m], field, value);
        lemma_first_position_from(users, field, value, m);
    } else {
        lemma_first_position_is(users, field, value, j);
    }
}

/// A position is found exactly where some record matches, and the position
/// found is that of the earliest, respectively the latest, match.
pub proof fn lemma_positions(users: Seq<UserView>, field: UserField, value: Seq<char>)
    ensures
        first_position(users, field, value) is None <==> no_match(users, field, value),
        last_position(users, field, value) is None <==> no_match(users, field, value),
        first_position(users, field, value) is Some ==> is_first_match(
            users,
            field,
            value,
            first_position(users, field, value).unwrap(),
        ),
        last_position(users, field, value) is Some ==> is_last_match(
            users,
            field,
            value,
            last_position(users, field, value).unwrap(),
        ),
{
    if no_match(users, field, value) {
        lemma_no_position(users, field, value);
    } else {
        let j = choose|j: int| 0 <= j < users.len() && field_is(#[trigger] users[j], field, value);
        lemma_first_position_from(users, field, value, j);
        lemma_last_position_from(users, field, value, j);
    }
}

} // verus!
