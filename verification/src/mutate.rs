//! Mutations of the directory: create, update, delete.
//!
//! `update_user` and `delete_user` act on the record inserted **first** among
//! those that carry the identifier, whereas the lookups of
//! [`crate::retrieve`] select the last. `create_user` never checks whether an
//! identifier, a name or an email is already taken.

use crate::laws::law_created_record_is_found;
use crate::model::{
    field_is, find_first, find_last, first_position, lemma_first_position_is, lemma_no_position,
    no_match, UserField,
};
use crate::retrieve::field_matches;
use crate::types::{User, UserView};
use rand::Rng;
use vstd::prelude::*;

verus! {

/// The least number an identifier is drawn from.
pub const ID_NUMBER_MIN: u32 = 1000;

/// The end of the range an identifier is drawn from; it is never drawn itself.
pub const ID_NUMBER_END: u32 = 9999;

/// The character that writes the digit `d`.
pub open spec fn digit(d: int) -> char {
    if d == 0 {
        '0'
    } else if d == 1 {
        '1'
    } else if d == 2 {
        '2'
    } else if d == 3 {
        '3'
    } else if d == 4 {
        '4'
    } else if d == 5 {
        '5'
    } else if d == 6 {
        '6'
    } else if d == 7 {
        '7'
    } else if d == 8 {
        '8'
    } else {
        '9'
    }
}

/// `n` written in base ten, without leading zeros.
pub open spec fn decimal(n: nat) -> Seq<char>
    decreases n,
{
    if n < 10 {
        seq![digit(n as int)]
    } else {
        decimal(n / 10).push(digit((n % 10) as int))
    }
}

/// The identifier that carries the number `n`: `user:` and then `n` in base
/// ten.
pub open spec fn user_id_text(n: nat) -> Seq<char> {
    seq!['u', 's', 'e', 'r', ':'] + decimal(n)
}

/// `user` as it is stored under the identifier `id`: every other field kept.
pub open spec fn with_id(user: UserView, id: Seq<char>) -> UserView {
    UserView { user_id: Some(id), ..user }
}

/// The directory after `create_user` has drawn the number `n` for `user`.
pub open spec fn created(users: Seq<UserView>, user: UserView, n: nat) -> Seq<UserView> {
    users.push(with_id(user, user_id_text(n)))
}

/// The directory after `update_user`: the earliest record that carries `id`
/// replaced by `payload` under that same `id`; unchanged where none carries it.
pub open spec fn updated(users: Seq<UserView>, id: Seq<char>, payload: UserView) -> Seq<UserView> {
    match first_position(users, UserField::UserId, id) {
        Some(k) => users.update(k, with_id(payload, id)),
        None => users,
    }
}

/// The directory after `delete_user`: the earliest record that carries `id`
/// taken out, the later ones moved up; unchanged where none carries it.
pub open spec fn deleted(users: Seq<UserView>, id: Seq<char>) -> Seq<UserView> {
    match first_position(users, UserField::UserId, id) {
        Some(k) => users.remove(k),
        None => users,
    }
}

/// Scans from the front for the earliest record that carries `user_id`.
fn first_index_of_id(users: &Vec<User>, user_id: &String) -> (found: Option<usize>)
    ensures
        found is Some ==> found.unwrap() < users.len(),
        found is Some
            ==> first_position(users.deep_view(), UserField::UserId, user_id@)
                == Some(found.unwrap() as int),
        found is None ==> no_match(users.deep_view(), UserField::UserId, user_id@),
        found is None ==> first_position(users.deep_view(), UserField::UserId, user_id@) is None,
{
    let mut i: usize = 0;
    while i < users.len()
        invariant
            i <= users.len(),
            forall|j: int|
                0 <= j < i
                    ==> !field_is(#[trigger] users.deep_view()[j], UserField::UserId, user_id@),
        decreases users.len() - i,
    {
        if field_matches(&users[i], UserField::UserId, user_id) {
            proof {
                lemma_first_position_is(users.deep_view(), UserField::UserId, user_id@, i as int);
            }
            return Some(i);
        }
        i += 1;
    }
    proof {
        lemma_no_position(users.deep_view(), UserField::UserId, user_id@);
    }
    None
}

/// The text of one digit.
fn digit_text(d: u32) -> (text: &'static str)
    requires
        d < 10,
    ensures
        text@ == seq![digit(d as int)],
{
    proof {
        reveal_strlit("0");
        reveal_strlit("1");
        reveal_strlit("2");
        reveal_strlit("3");
        reveal_strlit("4");
        reveal_strlit("5");
        reveal_strlit("6");
        reveal_strlit("7");
        reveal_strlit("8");
        reveal_strlit("9");
    }
    let text = match d {
        0 => "0",
        1 => "1",
        2 => "2",
        3 => "3",
        4 => "4",
        5 => "5",
        6 => "6",
        7 => "7",
        8 => "8",
        _ => "9",
    };
    assert(text@ =~= seq![digit(d as int)]);
    text
}

/// Appends `n` in base ten to `text`, most significant digit first.
fn append_decimal(text: &mut String, n: u32)
    ensures
        final(text)@ == old(text)@ + decimal(n as nat),
    decreases n,
{
    if n >= 10 {
        append_decimal(text, n / 10);
    }
    text.append(digit_text(n % 10));
    assert(text@ =~= old(text)@ + decimal(n as nat));
}

/// Writes the identifier that carries `number`.
pub fn user_id_for(number: u32) -> (id: String)
    ensures
        id@ == user_id_text(number as nat),
{
    proof {
        reveal_strlit("user:");
    }
    let mut id = String::from_str("user:");
    assert(id@ =~= seq!['u', 's', 'e', 'r', ':']);
    append_decimal(&mut id, number);
    id
}

/// Stores `user` at the end of the directory under the identifier that
/// carries `number`, whatever identifier `user` brought along, and returns a
/// copy of the stored record. Always succeeds.
pub fn create_user_with_number(
    users: &mut Vec<User>,
    user: User,
    number: u32,
) -> (stored: Option<User>)
    ensures
        final(users).deep_view() == created(old(users).deep_view(), user@, number as nat),
        stored.deep_view() == Some(with_id(user@, user_id_text(number as nat))),
{
    let user = User { user_id: Some(user_id_for(number)), ..user };
    users.push(user.clone());
    assert(users.deep_view() =~= old(users).deep_view().push(user@));
    Some(user)
}

/// Draws a number with `rand::thread_rng` and `Rng::gen_range`.
///
/// Believed: the number lies in `low..end`. Which one it is depends on
/// chance, so two calls may differ.
#[verifier::external_body]
fn random_number(low: u32, end: u32) -> (number: u32)
    requires
        low < end,
    ensures
        low <= number < end,
{
    rand::thread_rng().gen_range(low..end)
}

/// Stores `user` at the end of the directory under a freshly drawn
/// identifier, `user:` followed by a number from 1000 up to but not including
/// 9999, and returns a copy of the stored record. Always succeeds.
///
/// The identifier replaces whatever `user` brought along. It is not checked
/// against the identifiers already in use; neither are name and email. A
/// lookup by the new identifier right afterwards returns the stored record.
pub fn create_user(users: &mut Vec<User>, user: User) -> (stored: Option<User>)
    ensures
        stored is Some,
        stored.unwrap()@.user_id is Some,
        stored.unwrap()@ == with_id(user@, stored.unwrap()@.user_id.unwrap()),
        final(users).deep_view() == old(users).deep_view().push(stored.unwrap()@),
        exists|n: nat|
            ID_NUMBER_MIN <= n < ID_NUMBER_END
                && stored.unwrap()@.user_id == Some(#[trigger] user_id_text(n)),
        find_last(final(users).deep_view(), UserField::UserId, stored.unwrap()@.user_id.unwrap())
            == stored.deep_view(),
{
    let number = random_number(ID_NUMBER_MIN, ID_NUMBER_END);
    let stored = create_user_with_number(users, user, number);
    proof {
        law_created_record_is_found(old(users).deep_view(), user@, number as nat);
    }
    stored
}

/// Removes the earliest record that carries `user_id` and returns it; the
/// later records move up by one. Returns `None`, and changes nothing, where
/// no record carries the identifier.
pub fn delete_user(users: &mut Vec<User>, user_id: String) -> (removed: Option<User>)
    ensures
        removed.deep_view() == find_first(old(users).deep_view(), UserField::UserId, user_id@),
        final(users).deep_view() == deleted(old(users).deep_view(), user_id@),
        no_match(old(users).deep_view(), UserField::UserId, user_id@) ==> removed is None,
        no_match(old(users).deep_view(), UserField::UserId, user_id@)
            ==> final(users).deep_view() == old(users).deep_view(),
{
    proof {
        if no_match(users.deep_view(), UserField::UserId, user_id@) {
            lemma_no_position(users.deep_view(), UserField::UserId, user_id@);
        }
    }
    match first_index_of_id(users, &user_id) {
        Some(position) => {
            let user = users.remove(position);
            assert(users.deep_view() =~= old(users).deep_view().remove(position as int));
            Some(user)
        },
        None => None,
    }
}

/// Replaces the earliest record that carries `user_id` by `user`, stored
/// under `user_id` whatever identifier `user` brought along, and returns a
/// copy of the stored record. Returns `None`, and changes nothing, where no
/// record carries the identifier.
pub fn update_user(users: &mut Vec<User>, user_id: String, user: User) -> (stored: Option<User>)
    ensures
        final(users).deep_view() == updated(old(users).deep_view(), user_id@, user@),
        !no_match(old(users).deep_view(), UserField::UserId, user_id@)
            ==> stored.deep_view() == Some(with_id(user@, user_id@)),
        no_match(old(users).deep_view(), UserField::UserId, user_id@) ==> stored is None,
        stored is Some ==> stored.unwrap()@.user_id == Some(user_id@),
{
    match first_index_of_id(users, &user_id) {
        Some(position) => {
            let user = User { user_id: Some(user_id), ..user };
            users[position] = user.clone();
            assert(users.deep_view() =~= old(users).deep_view().update(position as int, user@));
            Some(user)
        },
        None => None,
    }
}

} // verus!
