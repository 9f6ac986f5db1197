//! Laws that relate the operations of the directory to each other, stated
//! over the model and proved once for every directory.

use crate::auth::{
    account_view, login_outcome, registration_fault, secret_or_default, signed_outcome, Conflict,
    LoginError, RegistrationError,
};
use crate::crypto::{hs256_token, sha256_hex};
use crate::model::{
    all_identified, emails_unique, field_is, find_last, first_position, is_last_match,
    last_position, lemma_first_position_from, lemma_first_position_is, lemma_last_position_from,
    lemma_last_position_is, lemma_no_position, lemma_positions, names_unique, no_match, UserField,
};
use crate::mutate::{created, deleted, updated, user_id_text, with_id};
use crate::types::{UserLoginFormView, UserRegistrationFormView, UserView};
use vstd::prelude::*;

verus! {

/// Creating a record changes nothing but its identifier, and a lookup by that
/// identifier then returns the record, whatever the directory held before.
pub proof fn law_created_record_is_found(users: Seq<UserView>, user: UserView, n: nat)
    ensures
        with_id(user, user_id_text(n)).user_id == Some(user_id_text(n)),
        with_id(user, user_id_text(n)).username == user.username,
        with_id(user, user_id_text(n)).email == user.email,
        with_id(user, user_id_text(n)).description == user.description,
        with_id(user, user_id_text(n)).password == user.password,
        find_last(created(users, user, n), UserField::UserId, user_id_text(n))
            == Some(with_id(user, user_id_text(n))),
{
    lemma_last_position_is(
        created(users, user, n),
        UserField::UserId,
        user_id_text(n),
        users.len() as int,
    );
}

/// An update never changes how many records there are, and the record it
/// writes carries the identifier of the call, whatever the payload carried.
pub proof fn law_update_keeps_identifier(users: Seq<UserView>, id: Seq<char>, payload: UserView)
    ensures
        updated(users, id, payload).len() == users.len(),
        first_position(users, UserField::UserId, id) is Some
            ==> updated(users, id, payload)[first_position(
                users,
                UserField::UserId,
                id,
            ).unwrap()].user_id == Some(id),
{
    lemma_positions(users, UserField::UserId, id);
}

/// Deleting an identifier that no record carries finds nothing and leaves the
/// directory as it was.
pub proof fn law_delete_of_unknown_identifier(users: Seq<UserView>, id: Seq<char>)
    requires
        no_match(users, UserField::UserId, id),
    ensures
        first_position(users, UserField::UserId, id) is None,
        deleted(users, id) == users,
        deleted(users, id).len() == users.len(),
{
    lemma_no_position(users, UserField::UserId, id);
}

/// Of two records that share a field, a lookup by it never returns the
/// earlier one: it returns the later one, unless a record inserted later
/// still shares the field too.
pub proof fn law_lookup_returns_later_record(
    users: Seq<UserView>,
    field: UserField,
    value: Seq<char>,
    i: int,
    j: int,
)
    requires
        0 <= i < j < users.len(),
        field_is(users[i], field, value),
        field_is(users[j], field, value),
    ensures
        last_position(users, field, value) is Some,
        j <= last_position(users, field, value).unwrap(),
        find_last(users, field, value) is Some,
        (forall|m: int| j < m < users.len() ==> !field_is(#[trigger] users[m], field, value))
            ==> find_last(users, field, value) == Some(users[j]),
{
    lemma_last_position_from(users, field, value, j);
    if forall|m: int| j < m < users.len() ==> !field_is(#[trigger] users[m], field, value) {
        lemma_last_position_is(users, field, value, j);
    }
}

/// Of two records that share an identifier, update and delete never act on
/// the later one: they act on the earlier one, unless a record inserted
/// earlier still shares the identifier too. The later record stays as it is.
pub proof fn law_mutation_acts_on_earlier_record(
    users: Seq<UserView>,
    id: Seq<char>,
    payload: UserView,
    i: int,
    j: int,
)
    requires
        0 <= i < j < users.len(),
        users[i].user_id == Some(id),
        users[j].user_id == Some(id),
    ensures
        first_position(users, UserField::UserId, id) is Some,
        first_position(users, UserField::UserId, id).unwrap() <= i,
        deleted(users, id).len() == users.len() - 1,
        deleted(users, id)[j - 1] == users[j],
        updated(users, id, payload)[j] == users[j],
        (forall|m: int| 0 <= m < i ==> (#[trigger] users[m]).user_id != Some(id))
            ==> deleted(users, id) == users.remove(i),
        (forall|m: int| 0 <= m < i ==> (#[trigger] users[m]).user_id != Some(id))
            ==> updated(users, id, payload) == users.update(i, with_id(payload, id)),
{
    lemma_first_position_from(users, UserField::UserId, id, i);
    if forall|m: int| 0 <= m < i ==> (#[trigger] users[m]).user_id != Some(id) {
        lemma_first_position_is(users, UserField::UserId, id, i);
    }
}

/// Where exactly two records share both an email and an identifier, the
/// lookup by email returns the one inserted later while update and delete by
/// identifier act on the one inserted earlier.
pub proof fn law_lookup_and_mutation_differ(
    users: Seq<UserView>,
    email: Seq<char>,
    id: Seq<char>,
    payload: UserView,
    i: int,
    j: int,
)
    requires
        0 <= i < j < users.len(),
        users[i].email == email && users[j].email == email,
        users[i].user_id == Some(id) && users[j].user_id == Some(id),
        forall|m: int|
            0 <= m < users.len() && m != i && m != j
                ==> (#[trigger] users[m]).email != email && users[m].user_id != Some(id),
    ensures
        find_last(users, UserField::Email, email) == Some(users[j]),
        deleted(users, id) == users.remove(i),
        updated(users, id, payload) == users.update(i, with_id(payload, id)),
{
    law_lookup_returns_later_record(users, UserField::Email, email, i, j);
    law_mutation_acts_on_earlier_record(users, id, payload, i, j);
}

/// Registration refuses a name that some record has, whatever the email, and
/// an email that some record has, whatever the name.
pub proof fn law_registration_refuses_duplicates(
    users: Seq<UserView>,
    form: UserRegistrationFormView,
    i: int,
)
    requires
        0 <= i < users.len(),
    ensures
        users[i].username == form.username
            ==> registration_fault(users, form)
                == Some(RegistrationError::Conflict(Conflict::UsernameTaken)),
        users[i].email == form.email ==> registration_fault(users, form) is Some,
        users[i].email == form.email && no_match(users, UserField::Username, form.username)
            ==> registration_fault(users, form)
                == Some(RegistrationError::Conflict(Conflict::EmailTaken)),
{
}

/// Registration refuses two passwords that differ, and admits a form exactly
/// where no record has its name, none has its email, and its two passwords
/// are the same.
pub proof fn law_registration_admits(users: Seq<UserView>, form: UserRegistrationFormView)
    ensures
        form.password != form.password_again ==> registration_fault(users, form) is Some,
        registration_fault(users, form) is None
            <==> (no_match(users, UserField::Username, form.username)
                && no_match(users, UserField::Email, form.email)
                && form.password == form.password_again),
{
}

/// A registration that is admitted keeps names and emails unique: where no
/// two records shared a name or an email before, none do after.
pub proof fn law_registration_keeps_unique(
    users: Seq<UserView>,
    form: UserRegistrationFormView,
    password_digest: Seq<char>,
    n: nat,
)
    requires
        names_unique(users),
        emails_unique(users),
        registration_fault(users, form) is None,
    ensures
        names_unique(created(users, account_view(form, password_digest), n)),
        emails_unique(created(users, account_view(form, password_digest), n)),
{
    let after = created(users, account_view(form, password_digest), n);
    assert forall|i: int, j: int| 0 <= i < j < after.len() implies
        (#[trigger] after[i]).username != (#[trigger] after[j]).username
    by {
        if j == users.len() {
            assert(!field_is(users[i], UserField::Username, form.username));
        } else {
            assert(after[i] == users[i] && after[j] == users[j]);
        }
    }
    assert forall|i: int, j: int| 0 <= i < j < after.len() implies
        (#[trigger] after[i]).email != (#[trigger] after[j]).email
    by {
        if j == users.len() {
            assert(!field_is(users[i], UserField::Email, form.email));
        } else {
            assert(after[i] == users[i] && after[j] == users[j]);
        }
    }
}

/// Create, update and delete keep every record identified: where each record
/// carried an identifier before, each does after.
pub proof fn law_mutations_keep_identified(
    users: Seq<UserView>,
    user: UserView,
    id: Seq<char>,
    n: nat,
)
    requires
        all_identified(users),
    ensures
        all_identified(created(users, user, n)),
        all_identified(updated(users, id, user)),
        all_identified(deleted(users, id)),
{
    lemma_positions(users, UserField::UserId, id);
    let after = deleted(users, id);
    assert forall|i: int| 0 <= i < after.len() implies (#[trigger] after[i]).user_id is Some by {
        if let Some(k) = first_position(users, UserField::UserId, id) {
            if i < k {
                assert(after[i] == users[i]);
            } else {
                assert(after[i] == users[i + 1]);
            }
        }
    }
}

/// An account that was just registered can log in: with the email and the
/// password of the form, login gets as far as signing the new identifier;
/// with a password of another digest it answers `WrongPassword`.
pub proof fn law_registered_account_logs_in(
    users: Seq<UserView>,
    form: UserRegistrationFormView,
    n: nat,
    password: Seq<char>,
    configured_secret: Option<Seq<char>>,
)
    requires
        registration_fault(users, form) is None,
    ensures
        login_outcome(
            created(users, account_view(form, sha256_hex(form.password)), n),
            (UserLoginFormView { email: form.email, password: form.password }),
            configured_secret,
        ) == signed_outcome(
            hs256_token(secret_or_default(configured_secret), Some(user_id_text(n))),
        ),
        sha256_hex(password) != sha256_hex(form.password)
            ==> login_outcome(
                created(users, account_view(form, sha256_hex(form.password)), n),
                (UserLoginFormView { email: form.email, password }),
                configured_secret,
            ) == Err::<Seq<char>, LoginError>(LoginError::WrongPassword),
{
    lemma_last_position_is(
        created(users, account_view(form, sha256_hex(form.password)), n),
        UserField::Email,
        form.email,
        users.len() as int,
    );
}

/// Login answers `UnknownEmail` exactly where no record has the email, and
/// `WrongPassword` exactly where the latest record with the email stores
/// another digest than that of the password; neither yields a token.
pub proof fn law_login_refusals(
    users: Seq<UserView>,
    form: UserLoginFormView,
    configured_secret: Option<Seq<char>>,
)
    ensures
        no_match(users, UserField::Email, form.email)
            <==> login_outcome(users, form, configured_secret)
                == Err::<Seq<char>, LoginError>(LoginError::UnknownEmail),
        (exists|k: int|
            is_last_match(users, UserField::Email, form.email, k)
                && (#[trigger] users[k]).password != sha256_hex(form.password))
            <==> login_outcome(users, form, configured_secret)
                == Err::<Seq<char>, LoginError>(LoginError::WrongPassword),
{
    lemma_positions(users, UserField::Email, form.email);
    if let Some(k) = last_position(users, UserField::Email, form.email) {
        assert forall|m: int|
            is_last_match(users, UserField::Email, form.email, m) implies m == k by {
            lemma_last_position_is(users, UserField::Email, form.email, m);
        }
    }
}

} // verus!
