//! Registration and login, built on the queries of [`crate::retrieve`] and
//! the mutations of [`crate::mutate`].

use crate::crypto::{hs256_token, separators, sha256_digest, sha256_hex, sign_user_id};
use crate::model::{find_last, lemma_positions, no_match, UserField};
use crate::mutate::{create_user, created, user_id_text, ID_NUMBER_END, ID_NUMBER_MIN};
use crate::retrieve::{find_user_by_email, find_user_by_username};
use crate::types::{
    User, UserLoginForm, UserLoginFormView, UserLoginResponse, UserRegisterResponse,
    UserRegistrationForm, UserRegistrationFormView, UserView,
};
use vstd::prelude::*;

verus! {

/// Which of the two unique fields is already in use.
#[derive(Clone, Copy, Debug, PartialEq, Eq, Structural)]
pub enum Conflict {
    UsernameTaken,
    EmailTaken,
}

/// What is wrong with the form itself.
#[derive(Clone, Copy, Debug, PartialEq, Eq, Structural)]
pub enum Validation {
    PasswordMismatch,
}

/// Why a registration was refused.
#[derive(Clone, Copy, Debug, PartialEq, Eq, Structural)]
pub enum RegistrationError {
    Conflict(Conflict),
    Validation(Validation),
    CreationFailed,
}

/// Why a login was refused.
#[derive(Clone, Copy, Debug, PartialEq, Eq, Structural)]
pub enum LoginError {
    UnknownEmail,
    WrongPassword,
    InternalError,
}

/// What the answer to a registration is to a contract: the text of the new
/// identifier, or the fault.
pub open spec fn registration_view(
    response: Result<UserRegisterResponse, RegistrationError>,
) -> Result<Seq<char>, RegistrationError> {
    match response {
        Ok(registered) => Ok(registered@),
        Err(fault) => Err(fault),
    }
}

/// What the answer to a login is to a contract: the text of the token, or the
/// fault.
pub open spec fn login_view(
    response: Result<UserLoginResponse, LoginError>,
) -> Result<Seq<char>, LoginError> {
    match response {
        Ok(granted) => Ok(granted@),
        Err(fault) => Err(fault),
    }
}

/// The reason for which `form` is refused by a directory that holds `users`,
/// or `None` where it is admitted: some record already has the name; else
/// some record already has the email; else the two passwords differ.
pub open spec fn registration_fault(
    users: Seq<UserView>,
    form: UserRegistrationFormView,
) -> Option<RegistrationError> {
    if !no_match(users, UserField::Username, form.username) {
        Some(RegistrationError::Conflict(Conflict::UsernameTaken))
    } else if !no_match(users, UserField::Email, form.email) {
        Some(RegistrationError::Conflict(Conflict::EmailTaken))
    } else if form.password != form.password_again {
        Some(RegistrationError::Validation(Validation::PasswordMismatch))
    } else {
        None
    }
}

/// The record that registration hands to the directory for `form`, given the
/// digest of its password: no identifier yet and an empty description.
pub open spec fn account_view(
    form: UserRegistrationFormView,
    password_digest: Seq<char>,
) -> UserView {
    UserView {
        user_id: None,
        username: form.username,
        email: form.email,
        description: Seq::empty(),
        password: password_digest,
    }
}

/// The answer to a registration for which the directory stored `stored`: the
/// identifier of the record, or `CreationFailed` where nothing was stored or
/// the record has no identifier.
pub open spec fn stored_outcome(stored: Option<UserView>) -> Result<Seq<char>, RegistrationError> {
    match stored {
        Some(user) => match user.user_id {
            Some(id) => Ok(id),
            None => Err(RegistrationError::CreationFailed),
        },
        None => Err(RegistrationError::CreationFailed),
    }
}

/// The signing secret where none is configured: `abc123`.
pub open spec fn default_secret() -> Seq<char> {
    seq!['a', 'b', 'c', '1', '2', '3']
}

/// The secret that tokens are signed with: the configured one, else
/// [`default_secret`].
pub open spec fn secret_or_default(configured: Option<Seq<char>>) -> Seq<char> {
    match configured {
        Some(secret) => secret,
        None => default_secret(),
    }
}

/// The answer to a login once the account is known and its password has been
/// found right, given what signing came to.
pub open spec fn signed_outcome(signed: Option<Seq<char>>) -> Result<Seq<char>, LoginError> {
    match signed {
        Some(token) => Ok(token),
        None => Err(LoginError::InternalError),
    }
}

/// What a login with `form` comes to in a directory that holds `users`: the
/// token, or the reason for which there is none.
pub open spec fn login_outcome(
    users: Seq<UserView>,
    form: UserLoginFormView,
    configured_secret: Option<Seq<char>>,
) -> Result<Seq<char>, LoginError> {
    match find_last(users, UserField::Email, form.email) {
        None => Err(LoginError::UnknownEmail),
        Some(user) => if user.password != sha256_hex(form.password) {
            Err(LoginError::WrongPassword)
        } else {
            signed_outcome(hs256_token(secret_or_default(configured_secret), user.user_id))
        },
    }
}

/// Decides whether the directory admits `form`: refuses a name that is taken,
/// then an email that is taken, then two passwords that differ.
pub fn check_registration(
    users: &Vec<User>,
    form: &UserRegistrationForm,
) -> (checked: Result<(), RegistrationError>)
    ensures
        registration_fault(users.deep_view(), form@) is None ==> checked is Ok,
        registration_fault(users.deep_view(), form@) is Some
            ==> checked == Err::<(), RegistrationError>(
                registration_fault(users.deep_view(), form@).unwrap(),
            ),
{
    proof {
        lemma_positions(users.deep_view(), UserField::Username, form@.username);
        lemma_positions(users.deep_view(), UserField::Email, form@.email);
    }
    if find_user_by_username(users, &form.username).is_some() {
        return Err(RegistrationError::Conflict(Conflict::UsernameTaken));
    }
    if find_user_by_email(users, &form.email).is_some() {
        return Err(RegistrationError::Conflict(Conflict::EmailTaken));
    }
    if form.password != form.password_again {
        return Err(RegistrationError::Validation(Validation::PasswordMismatch));
    }
    Ok(())
}

/// Builds the record to store for `form`, with `password_digest` in place of
/// the password.
pub fn new_account(form: UserRegistrationForm, password_digest: String) -> (user: User)
    ensures
        user@ == account_view(form@, password_digest@),
{
    User {
        user_id: None,
        username: form.username,
        email: form.email,
        description: String::new(),
        password: password_digest,
    }
}

/// Turns what the directory stored into the answer to a registration: the
/// identifier of the record, or `CreationFailed` where nothing was stored or
/// the record has no identifier.
pub fn registration_response(
    stored: Option<User>,
) -> (response: Result<UserRegisterResponse, RegistrationError>)
    ensures
        registration_view(response) == stored_outcome(stored.deep_view()),
{
    match stored {
        Some(user) => match user.user_id {
            Some(user_id) => Ok(UserRegisterResponse { user_id }),
            None => Err(RegistrationError::CreationFailed),
        },
        None => Err(RegistrationError::CreationFailed),
    }
}

/// Registers a new account.
///
/// A form that [`registration_fault`] refuses is answered with that fault
/// and leaves the directory as it was; nothing is hashed or stored for it.
/// Any other form succeeds: the directory gains one record at its end, with
/// the form's name and email, an empty description, the SHA-256 digest of
/// the password, and a freshly drawn identifier, which is returned.
pub fn register(
    users: &mut Vec<User>,
    form: UserRegistrationForm,
) -> (response: Result<UserRegisterResponse, RegistrationError>)
    ensures
        registration_fault(old(users).deep_view(), form@) is Some
            ==> registration_view(response) == Err::<Seq<char>, RegistrationError>(
                registration_fault(old(users).deep_view(), form@).unwrap(),
            ),
        registration_fault(old(users).deep_view(), form@) is Some
            ==> final(users).deep_view() == old(users).deep_view(),
        registration_fault(old(users).deep_view(), form@) is None
            ==> (exists|n: nat|
                ID_NUMBER_MIN <= n < ID_NUMBER_END
                    && registration_view(response)
                        == Ok::<Seq<char>, RegistrationError>(user_id_text(n))
                    && final(users).deep_view() == #[trigger] created(
                        old(users).deep_view(),
                        account_view(form@, sha256_hex(form@.password)),
                        n,
                    )),
        response is Err ==> final(users).deep_view().len() == old(users).deep_view().len(),
{
    match check_registration(users, &form) {
        Err(fault) => {
            return Err(fault);
        },
        Ok(()) => {},
    }
    let password_digest = sha256_digest(&form.password);
    let user = new_account(form, password_digest);
    let stored = create_user(users, user);
    proof {
        let n = choose|n: nat|
            ID_NUMBER_MIN <= n < ID_NUMBER_END
                && stored.unwrap()@.user_id == Some(#[trigger] user_id_text(n));
        assert(users.deep_view() == created(old(users).deep_view(), user@, n));
    }
    registration_response(stored)
}

/// Chooses the secret to sign with: the configured one, else `abc123`.
pub fn token_secret(configured: Option<String>) -> (secret: String)
    ensures
        secret@ == secret_or_default(configured.deep_view()),
{
    match configured {
        Some(secret) => secret,
        None => {
            proof {
                reveal_strlit("abc123");
            }
            let secret = String::from_str("abc123");
            assert(secret@ =~= default_secret());
            secret
        },
    }
}

/// Compares the digest of the password that was presented with the one
/// stored for `user`: `WrongPassword` where they differ.
pub fn check_password(user: &User, password_digest: &String) -> (checked: Result<(), LoginError>)
    ensures
        user@.password == password_digest@ ==> checked is Ok,
        user@.password != password_digest@
            ==> checked == Err::<(), LoginError>(LoginError::WrongPassword),
{
    if user.password != *password_digest {
        Err(LoginError::WrongPassword)
    } else {
        Ok(())
    }
}

/// Turns the outcome of signing into the answer to a login: the token, or
/// `InternalError` where signing failed.
pub fn token_response(
    signed: Result<String, jwt::Error>,
) -> (response: Result<UserLoginResponse, LoginError>)
    ensures
        signed is Ok ==> login_view(response) == Ok::<Seq<char>, LoginError>(signed.unwrap()@),
        signed is Err
            ==> login_view(response) == Err::<Seq<char>, LoginError>(LoginError::InternalError),
{
    match signed {
        Ok(token) => Ok(UserLoginResponse { token }),
        Err(_) => Err(LoginError::InternalError),
    }
}

/// Logs a user in and issues a signed token that carries the user's
/// identifier.
///
/// The account is the one inserted last among those with the form's email.
/// With no such account the answer is `UnknownEmail`, and no password is
/// hashed or compared. With a password whose SHA-256 digest differs from the
/// stored one the answer is `WrongPassword`. Otherwise the identifier is
/// signed with `configured_secret`, or with `abc123` where that is `None`;
/// the answer is the token, or `InternalError` where signing failed.
pub fn login(
    users: &Vec<User>,
    form: UserLoginForm,
    configured_secret: Option<String>,
) -> (response: Result<UserLoginResponse, LoginError>)
    ensures
        login_view(response)
            == login_outcome(users.deep_view(), form@, configured_secret.deep_view()),
        login_view(response) is Ok ==> separators(login_view(response).unwrap()) == 2,
        no_match(users.deep_view(), UserField::Email, form@.email)
            ==> login_view(response) == Err::<Seq<char>, LoginError>(LoginError::UnknownEmail),
        find_last(users.deep_view(), UserField::Email, form@.email) is Some
            && find_last(users.deep_view(), UserField::Email, form@.email).unwrap().password
                != sha256_hex(form@.password)
            ==> login_view(response) == Err::<Seq<char>, LoginError>(LoginError::WrongPassword),
{
    proof {
        lemma_positions(users.deep_view(), UserField::Email, form@.email);
    }
    let user = match find_user_by_email(users, &form.email) {
        Some(user) => user,
        None => {
            return Err(LoginError::UnknownEmail);
        },
    };
    let password_digest = sha256_digest(&form.password);
    match check_password(&user, &password_digest) {
        Err(fault) => {
            return Err(fault);
        },
        Ok(()) => {},
    }
    let secret = token_secret(configured_secret);
    token_response(sign_user_id(&secret, &user.user_id))
}

} // verus!
