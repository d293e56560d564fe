use crate::ids::{LoginAttemptId, TwoFACode};
use crate::user::{is_email_text, is_password_text, Email, Password, User, UserView};
use vstd::prelude::*;

verus! {

/// Why a user store refused an operation.
#[derive(Debug, Clone, Copy, PartialEq, Eq, Structural)]
pub enum UserStoreError {
    UserAlreadyExists,
    UserNotFound,
    InvalidCredentials,
    UnexpectedError,
}

/// Where user records live. No two records share an email.
pub trait UserStore {
    /// The registered users, by email.
    spec fn users(&self) -> Map<Seq<char>, UserView>;

    /// The backend's own consistency.
    spec fn well_formed(&self) -> bool;

    /// Registers `user` unless its email is taken.
    fn add_user(&mut self, user: User) -> (r: Result<(), UserStoreError>)
        requires
            old(self).well_formed(),
        ensures
            final(self).well_formed(),
            old(self).users().contains_key(user@.email) ==> r == Err::<(), _>(
                UserStoreError::UserAlreadyExists,
            ) && final(self).users() == old(self).users(),
            !old(self).users().contains_key(user@.email) ==> r is Ok && final(self).users()
                == old(self).users().insert(user@.email, user@),
    ;

    /// The user registered under `email`.
    fn get_user(&self, email: Email) -> (r: Result<User, UserStoreError>)
        requires
            self.well_formed(),
        ensures
            self.users().contains_key(email@) ==> (r matches Ok(u) && u@ == self.users()[email@]),
            !self.users().contains_key(email@) ==> r == Err::<User, _>(
                UserStoreError::UserNotFound,
            ),
    ;

    /// Succeeds exactly when a user is registered under `email` with `password`.
    fn validate_user(&self, email: Email, password: Password) -> (r: Result<(), UserStoreError>)
        requires
            self.well_formed(),
        ensures
            r == validation_outcome(self.users(), email@, password@),
    ;

    /// The user registered under the email text `email`; malformed text is not found.
    fn get_user_str(&self, email: &str) -> (r: Result<User, UserStoreError>)
        requires
            self.well_formed(),
        ensures
            is_email_text(email@) && self.users().contains_key(email@) ==> (r matches Ok(u) && u@
                == self.users()[email@]),
            !(is_email_text(email@) && self.users().contains_key(email@)) ==> r == Err::<
                User,
                _,
            >(UserStoreError::UserNotFound),
    {
        match Email::from_str(email) {
            Ok(e) => self.get_user(e),
            Err(_) => Err(UserStoreError::UserNotFound),
        }
    }

    /// Validates raw email and password text; malformed text is refused as invalid credentials.
    fn validate_user_str(&self, email: &str, password: &str) -> (r: Result<(), UserStoreError>)
        requires
            self.well_formed(),
        ensures
            !is_email_text(email@) || !is_password_text(password@) ==> r == Err::<(), _>(
                UserStoreError::InvalidCredentials,
            ),
            is_email_text(email@) && is_password_text(password@) ==> r == validation_outcome(
                self.users(),
                email@,
                password@,
            ),
    {
        let email = match Email::from_str(email) {
            Ok(e) => e,
            Err(_) => return Err(UserStoreError::InvalidCredentials),
        };
        let password = match Password::from_str(password) {
            Ok(p) => p,
            Err(_) => return Err(UserStoreError::InvalidCredentials),
        };
        self.validate_user(email, password)
    }
}

/// What validating `password` for `email` against `users` gives.
pub open spec fn validation_outcome(
    users: Map<Seq<char>, UserView>,
    email: Seq<char>,
    password: Seq<char>,
) -> Result<(), UserStoreError> {
    if !users.contains_key(email) {
        Err(UserStoreError::UserNotFound)
    } else if users[email].password != password {
        Err(UserStoreError::InvalidCredentials)
    } else {
        Ok(())
    }
}

/// Why the banned token store refused an operation.
#[derive(Debug, Clone, Copy, PartialEq, Eq, Structural)]
pub enum BannedTokenStoreError {
    TokenAlreadyExists,
    TokenIsBanned,
    UnexpectedError,
}

/// The set of revoked session tokens. It only grows.
pub trait BannedTokenStore {
    /// The revoked tokens.
    spec fn banned(&self) -> Set<Seq<char>>;

    /// The backend's own consistency.
    spec fn well_formed(&self) -> bool;

    /// Revokes `token`; a token revoked before is refused.
    fn add(&mut self, token: String) -> (r: Result<(), BannedTokenStoreError>)
        requires
            old(self).well_formed(),
        ensures
            final(self).well_formed(),
            old(self).banned().contains(token@) ==> r == Err::<(), _>(
                BannedTokenStoreError::TokenAlreadyExists,
            ) && final(self).banned() == old(self).banned(),
            !old(self).banned().contains(token@) ==> r is Ok && final(self).banned() == old(
                self,
            ).banned().insert(token@),
    ;

    /// Fails exactly when `token` is revoked.
    fn check(&self, token: &str) -> (r: Result<(), BannedTokenStoreError>)
        requires
            self.well_formed(),
        ensures
            self.banned().contains(token@) ==> r == Err::<(), _>(
                BannedTokenStoreError::TokenIsBanned,
            ),
            !self.banned().contains(token@) ==> r is Ok,
    ;
}

/// Why the two-factor code store refused an operation.
#[derive(Debug, Clone, Copy, PartialEq, Eq, Structural)]
pub enum TwoFACodeStoreError {
    LoginAttemptIdNotFound,
    LoginAttemptAlreadyPending,
    UnexpectedError,
}

/// The pending second-factor challenges: at most one per email.
pub trait TwoFACodeStore {
    /// The pending challenges: email to login attempt id and code.
    spec fn codes(&self) -> Map<Seq<char>, (Seq<char>, Seq<char>)>;

    /// The backend's own consistency.
    spec fn well_formed(&self) -> bool;

    /// Stores a challenge for `email`; refused when one is already pending.
    fn add_code(&mut self, email: Email, login_attempt_id: LoginAttemptId, code: TwoFACode) -> (r:
        Result<(), TwoFACodeStoreError>)
        requires
            old(self).well_formed(),
        ensures
            final(self).well_formed(),
            old(self).codes().contains_key(email@) ==> r == Err::<(), _>(
                TwoFACodeStoreError::LoginAttemptAlreadyPending,
            ) && final(self).codes() == old(self).codes(),
            !old(self).codes().contains_key(email@) ==> r is Ok && final(self).codes() == old(
                self,
            ).codes().insert(email@, (login_attempt_id@, code@)),
    ;

    /// Removes the challenge of `email`.
    fn remove_code(&mut self, email: &Email) -> (r: Result<(), TwoFACodeStoreError>)
        requires
            old(self).well_formed(),
        ensures
            final(self).well_formed(),
            old(self).codes().contains_key(email@) ==> r is Ok && final(self).codes() == old(
                self,
            ).codes().remove(email@),
            !old(self).codes().contains_key(email@) ==> r == Err::<(), _>(
                TwoFACodeStoreError::LoginAttemptIdNotFound,
            ) && final(self).codes() == old(self).codes(),
    ;

    /// The challenge pending for `email`.
    fn get_code(&self, email: &Email) -> (r: Result<(LoginAttemptId, TwoFACode), TwoFACodeStoreError>)
        requires
            self.well_formed(),
        ensures
            self.codes().contains_key(email@) ==> (r matches Ok((a, c)) && (a@, c@) == self.codes()[email@]),
            !self.codes().contains_key(email@) ==> r == Err::<(LoginAttemptId, TwoFACode), _>(
                TwoFACodeStoreError::LoginAttemptIdNotFound,
            ),
    ;
}

} // verus!
