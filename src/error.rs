use vstd::prelude::*;

verus! {

/// The error kinds that the authentication operations report.
#[derive(Debug, Clone, Copy, PartialEq, Eq, Structural)]
pub enum AuthAPIError {
    /// The email is already registered.
    UserAlreadyExists,
    /// Malformed input: an email, password, login attempt id or code of the wrong shape.
    InvalidCredentials,
    /// A store or signing failure that the caller's input does not explain.
    UnexpectedError,
    /// Unknown user or wrong password; the two are not told apart.
    IncorrectPassword,
    /// A session token could not be created.
    TokenCreationError,
    /// No session token was supplied.
    MissingToken,
    /// The session token is malformed, expired or banned.
    InvalidToken,
    /// No pending challenge matches the login attempt id and code.
    Invalid2FACredentials,
}

/// The message shown to the client for `e`.
pub open spec fn error_message(e: AuthAPIError) -> Seq<char> {
    match e {
        AuthAPIError::UserAlreadyExists => "User already exists"@,
        AuthAPIError::InvalidCredentials => "Invalid credentials"@,
        AuthAPIError::IncorrectPassword => "The password is incorrect or the user does not exist"@,
        AuthAPIError::UnexpectedError => "Unexpected error"@,
        AuthAPIError::TokenCreationError => "Failed to create authentication token"@,
        AuthAPIError::MissingToken => "Missing authentication token"@,
        AuthAPIError::InvalidToken => "Invalid authentication token"@,
        AuthAPIError::Invalid2FACredentials => "Invalid 2FA code or login attempt ID"@,
    }
}

impl AuthAPIError {
    /// The HTTP status that stands for this error.
    pub fn status_code(&self) -> (r: u16)
        ensures
            r == match *self {
                AuthAPIError::UserAlreadyExists => 409u16,
                AuthAPIError::InvalidCredentials => 400,
                AuthAPIError::IncorrectPassword => 401,
                AuthAPIError::UnexpectedError => 500,
                AuthAPIError::TokenCreationError => 500,
                AuthAPIError::MissingToken => 400,
                AuthAPIError::InvalidToken => 401,
                AuthAPIError::Invalid2FACredentials => 401,
            },
    {
        match self {
            AuthAPIError::UserAlreadyExists => 409,
            AuthAPIError::InvalidCredentials => 400,
            AuthAPIError::IncorrectPassword => 401,
            AuthAPIError::UnexpectedError => 500,
            AuthAPIError::TokenCreationError => 500,
            AuthAPIError::MissingToken => 400,
            AuthAPIError::InvalidToken => 401,
            AuthAPIError::Invalid2FACredentials => 401,
        }
    }

    /// The message shown to the client for this error.
    pub fn message(&self) -> (r: &'static str)
        ensures
            r@ == error_message(*self),
    {
        match self {
            AuthAPIError::UserAlreadyExists => "User already exists",
            AuthAPIError::InvalidCredentials => "Invalid credentials",
            AuthAPIError::IncorrectPassword => "The password is incorrect or the user does not exist",
            AuthAPIError::UnexpectedError => "Unexpected error",
            AuthAPIError::TokenCreationError => "Failed to create authentication token",
            AuthAPIError::MissingToken => "Missing authentication token",
            AuthAPIError::InvalidToken => "Invalid authentication token",
            AuthAPIError::Invalid2FACredentials => "Invalid 2FA code or login attempt ID",
        }
    }
}

/// The body of an error response.
pub struct ErrorResponse {
    pub error: String,
}

impl ErrorResponse {
    pub fn from_error(e: AuthAPIError) -> (r: ErrorResponse)
        ensures
            r.error@ == error_message(e),
    {
        ErrorResponse { error: e.message().to_owned() }
    }
}

} // verus!
