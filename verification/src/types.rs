//! The records and value objects of the directory, with their views.

use std::sync::Mutex;
use vstd::prelude::*;

verus! {

/// A stored account.
///
/// `user_id` is assigned when the record enters the directory and `password`
/// holds a digest, never the text a user typed.
pub struct User {
    pub user_id: Option<String>,
    pub username: String,
    pub email: String,
    pub description: String,
    pub password: String,
}

/// What a [`User`] is to a contract: the text of each of its fields.
pub struct UserView {
    pub user_id: Option<Seq<char>>,
    pub username: Seq<char>,
    pub email: Seq<char>,
    pub description: Seq<char>,
    pub password: Seq<char>,
}

impl View for User {
    type V = UserView;

    open spec fn view(&self) -> UserView {
        UserView {
            user_id: match self.user_id {
                Some(id) => Some(id@),
                None => None,
            },
            username: self.username@,
            email: self.email@,
            description: self.description@,
            password: self.password@,
        }
    }
}

impl DeepView for User {
    type V = UserView;

    open spec fn deep_view(&self) -> UserView {
        self@
    }
}

impl Clone for User {
    fn clone(&self) -> (copy: Self)
        ensures
            copy == *self,
    {
        User {
            user_id: match &self.user_id {
                Some(id) => Some(id.clone()),
                None => None,
            },
            username: self.username.clone(),
            email: self.email.clone(),
            description: self.description.clone(),
            password: self.password.clone(),
        }
    }
}

/// A list that belongs to a user.
pub struct List<T> {
    pub user_id: String,
    pub list_id: Option<String>,
    pub list: T,
}

impl<T: Clone> Clone for List<T> {
    fn clone(&self) -> (copy: Self)
        ensures
            copy.user_id == self.user_id,
            copy.list_id == self.list_id,
            cloned::<T>(self.list, copy.list),
    {
        List {
            user_id: self.user_id.clone(),
            list_id: match &self.list_id {
                Some(id) => Some(id.clone()),
                None => None,
            },
            list: self.list.clone(),
        }
    }
}

/// The credentials presented at login.
pub struct UserLoginForm {
    pub email: String,
    pub password: String,
}

impl Clone for UserLoginForm {
    fn clone(&self) -> (copy: Self)
        ensures
            copy == *self,
    {
        UserLoginForm { email: self.email.clone(), password: self.password.clone() }
    }
}

/// What a [`UserLoginForm`] is to a contract.
pub struct UserLoginFormView {
    pub email: Seq<char>,
    pub password: Seq<char>,
}

impl View for UserLoginForm {
    type V = UserLoginFormView;

    open spec fn view(&self) -> UserLoginFormView {
        UserLoginFormView { email: self.email@, password: self.password@ }
    }
}

/// The answer to a successful login: a compact signed token.
pub struct UserLoginResponse {
    pub token: String,
}

impl View for UserLoginResponse {
    type V = Seq<char>;

    open spec fn view(&self) -> Seq<char> {
        self.token@
    }
}

impl Clone for UserLoginResponse {
    fn clone(&self) -> (copy: Self)
        ensures
            copy == *self,
    {
        UserLoginResponse { token: self.token.clone() }
    }
}

/// The answer to a successful registration: the identifier of the new record.
pub struct UserRegisterResponse {
    pub user_id: String,
}

impl Clone for UserRegisterResponse {
    fn clone(&self) -> (copy: Self)
        ensures
            copy == *self,
    {
        UserRegisterResponse { user_id: self.user_id.clone() }
    }
}

impl View for UserRegisterResponse {
    type V = Seq<char>;

    open spec fn view(&self) -> Seq<char> {
        self.user_id@
    }
}

/// What a new user submits: a name, an address, and the password twice.
pub struct UserRegistrationForm {
    pub username: String,
    pub email: String,
    pub password: String,
    pub password_again: String,
}

/// What a [`UserRegistrationForm`] is to a contract.
pub struct UserRegistrationFormView {
    pub username: Seq<char>,
    pub email: Seq<char>,
    pub password: Seq<char>,
    pub password_again: Seq<char>,
}

impl View for UserRegistrationForm {
    type V = UserRegistrationFormView;

    open spec fn view(&self) -> UserRegistrationFormView {
        UserRegistrationFormView {
            username: self.username@,
            email: self.email@,
            password: self.password@,
            password_again: self.password_again@,
        }
    }
}

impl Clone for UserRegistrationForm {
    fn clone(&self) -> (copy: Self)
        ensures
            copy == *self,
    {
        UserRegistrationForm {
            username: self.username.clone(),
            email: self.email.clone(),
            password: self.password.clone(),
            password_again: self.password_again.clone(),
        }
    }
}

/// `std::sync::Mutex`, the lock that guards the shared directory. Nothing is
/// claimed of it: the library only names the type and never locks it.
#[verifier::external_type_specification]
#[verifier::external_body]
#[verifier::reject_recursive_types(T)]
pub struct ExMutex<T: ?Sized>(std::sync::Mutex<T>);

/// The one directory of a process, behind the lock that serialises every
/// read and write of it.
///
/// It is made once at start-up and handed to whoever needs the directory.
/// A caller locks `users`, passes the directory inside to one operation of
/// the library, and lets the guard go; no operation of the library blocks or
/// takes a lock itself, so the lock is never held across anything slow.
/// Reads and writes take the same exclusive lock. A lock that a panic has
/// poisoned stays poisoned: the caller must treat that as fatal and must not
/// answer as if a record were missing.
pub struct ApplicationState {
    pub users: Mutex<Vec<User>>,
}

} // verus!
