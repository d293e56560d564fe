//! Credential and session authority: user accounts, session tokens that can be
//! revoked, and an optional second authentication factor.

mod auth;
mod data_stores;
mod error;
mod hashmap_two_fa_code_store;
mod hashmap_user_store;
mod hashset_banned_token_store;
mod ids;
pub mod token;
mod user;

pub use auth::{
    challenges_shaped, is_fresh_token, some_issued_token_banned, users_shaped, handle_2fa, lemma_banned_token_refused, lemma_challenge_single_use, lemma_issued_token_verifies,
    lemma_login_hides_which_credential_failed, lemma_logout_twice, lemma_signup_then_login,
    lemma_signup_twice, login, login_error, logout, logout_error, signup, signup_error, token_view,
    verify_2fa, verify_2fa_error, verify_token, verify_token_error, AppState, LoginRequest,
    LoginResponse, SignupRequest, SignupResponse, TwoFactorAuthResponse, Verify2FARequest,
    VerifyTokenRequest,
};
pub use data_stores::{
    validation_outcome, BannedTokenStore, BannedTokenStoreError, TwoFACodeStore, TwoFACodeStoreError,
    UserStore, UserStoreError,
};
pub use error::{error_message, AuthAPIError, ErrorResponse};
pub use hashmap_two_fa_code_store::HashmapTwoFACodeStore;
pub use hashmap_user_store::HashmapUserStore;
pub use hashset_banned_token_store::HashsetBannedTokenStore;
pub use ids::{
    is_ascii_alphanumeric, is_code_text, is_hex_digit, is_hyphenated_uuid, is_urn_prefix,
    uuid_accepts, LoginAttemptId, TwoFACode,
};
pub use user::{at_sign_count, is_email_text, is_password_text, Email, Password, User, UserView};
