use auth_service::{
    login, logout, signup, verify_2fa, verify_token, AppState, AuthAPIError, BannedTokenStore, Email,
    HashmapTwoFACodeStore, HashmapUserStore, HashsetBannedTokenStore, LoginRequest, LoginResponse,
    SignupRequest, TwoFACodeStore, UserStore, Verify2FARequest, VerifyTokenRequest,
};
use auth_service::token::TokenService;

type State = AppState<HashmapUserStore, HashsetBannedTokenStore, HashmapTwoFACodeStore>;

const NOW: u64 = 1_700_000_000;
const TTL: u64 = 3600;

fn new_state() -> State {
    AppState::new(
        HashmapUserStore::default(),
        HashsetBannedTokenStore::default(),
        HashmapTwoFACodeStore::default(),
        TokenService::new(b"test signing key".to_vec(), TTL),
    )
}

fn random_email() -> String {
    format!("{}@example.com", uuid::Uuid::new_v4())
}

fn signup_request(email: &str, password: &str, requires_2fa: bool) -> SignupRequest {
    SignupRequest { email: email.to_string(), password: password.to_string(), requires_2fa }
}

fn login_request(email: &str, password: &str) -> LoginRequest {
    LoginRequest { email: email.to_string(), password: password.to_string() }
}

fn verify_2fa_request(email: &str, login_attempt_id: &str, code: &str) -> Verify2FARequest {
    Verify2FARequest {
        email: email.to_string(),
        login_attempt_id: login_attempt_id.to_string(),
        two_fa_code: code.to_string(),
    }
}

fn login_token(state: &mut State, email: &str, password: &str) -> String {
    match login(state, &login_request(email, password), NOW) {
        Ok(LoginResponse::RegularAuth(token)) => token,
        other => panic!("Failed to log in: {:?}", other),
    }
}

fn pending_login_attempt_id(state: &mut State, email: &str, password: &str) -> String {
    match login(state, &login_request(email, password), NOW) {
        Ok(LoginResponse::TwoFactorAuth(response)) => {
            assert_eq!(response.message, "2FA required");
            response.login_attempt_id
        }
        other => panic!("expected a pending second factor, got {:?}", other),
    }
}

#[test]
fn should_return_400_if_bad_user() {
    let mut state = new_state();
    let random_email = random_email();
    let test_cases = [("asdf", "password"), ("", "password"), (random_email.as_str(), ""), (random_email.as_str(), "1234")];
    for (email, password) in test_cases.iter() {
        let result = login(&mut state, &login_request(email, password), NOW);
        let err = result.unwrap_err();
        assert_eq!(err, AuthAPIError::InvalidCredentials, "Failed for input: {:?}", (email, password));
        assert_eq!(err.status_code(), 400);
    }
}

#[test]
fn login_should_return_401_if_incorrect_credentials() {
    let mut state = new_state();
    let random_email = random_email();
    signup(&mut state, &signup_request(&random_email, "password123", false)).expect("Failed to create normal user");
    let err = login(&mut state, &login_request(&random_email, "wrongpassword"), NOW).unwrap_err();
    assert_eq!(err, AuthAPIError::IncorrectPassword);
    assert_eq!(err.status_code(), 401);
}

#[test]
fn should_return_204_if_valid_input() {
    let mut state = new_state();
    let random_email = random_email();
    signup(&mut state, &signup_request(&random_email, "password123", false)).expect("Failed to create user");
    let result = login(&mut state, &login_request(&random_email, "password123"), NOW);
    assert!(matches!(result, Ok(LoginResponse::RegularAuth(_))));
}

#[test]
fn should_return_400_if_jwt_cookie_missing() {
    let mut state = new_state();
    let err = logout(&mut state, None, NOW).unwrap_err();
    assert_eq!(err, AuthAPIError::MissingToken);
    assert_eq!(err.status_code(), 400);
}

#[test]
fn logout_should_return_401_if_invalid_token() {
    let mut state = new_state();
    let err = logout(&mut state, Some("invalid"), NOW).unwrap_err();
    assert_eq!(err, AuthAPIError::InvalidToken);
    assert_eq!(err.status_code(), 401);
}

#[test]
fn should_return_200_if_valid_jwt_cookie() {
    let mut state = new_state();
    signup(&mut state, &signup_request("hello@world.com", "password123", false)).expect("Failed to create user");
    let token = login_token(&mut state, "hello@world.com", "password123");
    assert_eq!(logout(&mut state, Some(&token), NOW), Ok(()));
    assert!(state.banned_token_store.check(&token).is_err());
}

#[test]
fn should_return_400_if_logout_called_twice_in_a_row() {
    let mut state = new_state();
    signup(&mut state, &signup_request("hello@world.com", "password123", false)).expect("Failed to create user");
    let token = login_token(&mut state, "hello@world.com", "password123");
    assert_eq!(logout(&mut state, Some(&token), NOW), Ok(()));
    // The first logout removed the cookie, so the second one carries no token.
    let err = logout(&mut state, None, NOW).unwrap_err();
    assert_eq!(err, AuthAPIError::MissingToken);
    assert_eq!(err.status_code(), 400);
}

#[test]
fn logout_twice_with_the_same_token_is_refused() {
    let mut state = new_state();
    signup(&mut state, &signup_request("hello@world.com", "password123", false)).expect("Failed to create user");
    let token = login_token(&mut state, "hello@world.com", "password123");
    assert_eq!(logout(&mut state, Some(&token), NOW), Ok(()));
    assert_eq!(logout(&mut state, Some(&token), NOW), Err(AuthAPIError::InvalidToken));
}

#[test]
fn login_again_in_the_same_second_after_logout() {
    let mut state = new_state();
    signup(&mut state, &signup_request("a@b.com", "password1", false)).unwrap();
    let first = login_token(&mut state, "a@b.com", "password1");
    assert_eq!(logout(&mut state, Some(&first), NOW), Ok(()));
    let second = login_token(&mut state, "a@b.com", "password1");
    assert_ne!(first, second);
    let email = verify_token(&state, &VerifyTokenRequest { token: second.clone() }, NOW).unwrap();
    assert_eq!(email.as_str(), "a@b.com");
    assert_eq!(logout(&mut state, Some(&second), NOW), Ok(()));
}

#[test]
fn should_return_201_if_valid_input() {
    let mut state = new_state();
    for requires_2fa in [true, false] {
        let email = random_email();
        let response = signup(&mut state, &signup_request(&email, "password123", requires_2fa))
            .unwrap_or_else(|e| panic!("Failed for input: {:?}", (email.as_str(), requires_2fa, e)));
        assert_eq!(response.message, format!("User {} created successfully", email));
    }
}

#[test]
fn should_return_200_if_correct_code() {
    let mut state = new_state();
    let random_email = random_email();
    signup(&mut state, &signup_request(&random_email, "password123", true)).expect("Failed to create user");
    pending_login_attempt_id(&mut state, &random_email, "password123");
    let (login_attempt_id, code) =
        state.two_fa_code_store.get_code(&Email::from_str(&random_email).unwrap()).unwrap();
    let request = verify_2fa_request(&random_email, login_attempt_id.as_str(), code.as_str());
    assert!(verify_2fa(&mut state, &request, NOW).is_ok());
}

#[test]
fn should_return_400_if_invalid_input() {
    let mut state = new_state();
    let random_email = random_email();
    let test_cases = [
        ("asdf", "1234", "123456"),
        ("", "1234", "123456"),
        (random_email.as_str(), "1234", "123"),
        (random_email.as_str(), "hello", "123456"),
    ];
    for (email, id, code) in test_cases.iter() {
        let err = verify_2fa(&mut state, &verify_2fa_request(email, id, code), NOW).unwrap_err();
        assert_eq!(err, AuthAPIError::InvalidCredentials, "Failed for input: {:?}", (email, id, code));
        assert_eq!(err.status_code(), 400);
    }
}

#[test]
fn verify_2fa_should_return_401_if_incorrect_credentials() {
    let mut state = new_state();
    let random_email = random_email();
    signup(&mut state, &signup_request(&random_email, "password123", true)).expect("Failed to create user");
    let login_attempt_id = pending_login_attempt_id(&mut state, &random_email, "password123");
    let (_, code) = state.two_fa_code_store.get_code(&Email::from_str(&random_email).unwrap()).unwrap();
    let wrong = if code.as_str() == "123456" { "654321" } else { "123456" };
    let err = verify_2fa(&mut state, &verify_2fa_request(&random_email, &login_attempt_id, wrong), NOW).unwrap_err();
    assert_eq!(err, AuthAPIError::Invalid2FACredentials);
    assert_eq!(err.status_code(), 401);
}

#[test]
fn should_return_401_if_old_code() {
    let mut state = new_state();
    let random_email = random_email();
    signup(&mut state, &signup_request(&random_email, "password123", true)).expect("Failed to create user");
    pending_login_attempt_id(&mut state, &random_email, "password123");
    let (login_attempt_id, code) =
        state.two_fa_code_store.get_code(&Email::from_str(&random_email).unwrap()).unwrap();
    let request = verify_2fa_request(&random_email, login_attempt_id.as_str(), code.as_str());
    assert!(verify_2fa(&mut state, &request, NOW).is_ok());
    let err = verify_2fa(&mut state, &request, NOW).unwrap_err();
    assert_eq!(err, AuthAPIError::Invalid2FACredentials);
    assert_eq!(err.status_code(), 401);
}

#[test]
fn should_return_200_valid_token() {
    let mut state = new_state();
    signup(&mut state, &signup_request("hello@world.com", "password123", false)).expect("Failed to create user");
    let token = login_token(&mut state, "hello@world.com", "password123");
    let email = verify_token(&state, &VerifyTokenRequest { token }, NOW).unwrap();
    assert_eq!(email.as_str(), "hello@world.com");
}

#[test]
fn verify_token_should_return_401_if_invalid_token() {
    let state = new_state();
    let err = verify_token(&state, &VerifyTokenRequest { token: "invalid".to_string() }, NOW).unwrap_err();
    assert_eq!(err, AuthAPIError::InvalidToken);
    assert_eq!(err.status_code(), 401);
}

#[test]
fn signup_twice_reports_existing_user() {
    let mut state = new_state();
    let request = signup_request("a@b.com", "password1", false);
    assert!(signup(&mut state, &request).is_ok());
    let err = signup(&mut state, &request).unwrap_err();
    assert_eq!(err, AuthAPIError::UserAlreadyExists);
    assert_eq!(err.status_code(), 409);
}

#[test]
fn signup_rejects_malformed_input() {
    let mut state = new_state();
    for (email, password) in [("ab.com", "password1"), ("a@@b.com", "password1"), ("a@b.com", "pass")] {
        let err = signup(&mut state, &signup_request(email, password, false)).unwrap_err();
        assert_eq!(err, AuthAPIError::InvalidCredentials, "Failed for input: {:?}", (email, password));
    }
    assert!(state.user_store.get_user_str("a@b.com").is_err());
}

#[test]
fn login_for_unknown_email_and_wrong_password_look_alike() {
    let mut state = new_state();
    signup(&mut state, &signup_request("a@b.com", "password1", false)).unwrap();
    let wrong_password = login(&mut state, &login_request("a@b.com", "password2"), NOW).unwrap_err();
    let unknown_user = login(&mut state, &login_request("x@b.com", "password1"), NOW).unwrap_err();
    assert_eq!(wrong_password, AuthAPIError::IncorrectPassword);
    assert_eq!(unknown_user, wrong_password);
}

#[test]
fn scenario_login_verify_logout_without_second_factor() {
    let mut state = new_state();
    assert!(signup(&mut state, &signup_request("a@b.com", "password1", false)).is_ok());
    let token = login_token(&mut state, "a@b.com", "password1");
    let email = verify_token(&state, &VerifyTokenRequest { token: token.clone() }, NOW).unwrap();
    assert_eq!(email.as_str(), "a@b.com");
    assert_eq!(logout(&mut state, Some(&token), NOW), Ok(()));
    assert_eq!(
        verify_token(&state, &VerifyTokenRequest { token }, NOW).unwrap_err(),
        AuthAPIError::InvalidToken
    );
}

#[test]
fn scenario_second_factor_wrong_code_then_right_code_then_replay() {
    let mut state = new_state();
    assert!(signup(&mut state, &signup_request("a@b.com", "password1", true)).is_ok());
    let attempt = pending_login_attempt_id(&mut state, "a@b.com", "password1");
    let (stored_id, code) = state.two_fa_code_store.get_code(&Email::from_str("a@b.com").unwrap()).unwrap();
    assert_eq!(stored_id.as_str(), attempt);
    let wrong = if code.as_str() == "AAAAAA" { "BBBBBB" } else { "AAAAAA" };
    assert_eq!(
        verify_2fa(&mut state, &verify_2fa_request("a@b.com", &attempt, wrong), NOW),
        Err(AuthAPIError::Invalid2FACredentials)
    );
    let right = verify_2fa_request("a@b.com", &attempt, code.as_str());
    let token = verify_2fa(&mut state, &right, NOW).unwrap();
    assert_eq!(verify_token(&state, &VerifyTokenRequest { token }, NOW).unwrap().as_str(), "a@b.com");
    assert_eq!(verify_2fa(&mut state, &right, NOW), Err(AuthAPIError::Invalid2FACredentials));
}

#[test]
fn scenario_logout_without_token_then_twice() {
    let mut state = new_state();
    assert_eq!(logout(&mut state, None, NOW), Err(AuthAPIError::MissingToken));
    signup(&mut state, &signup_request("a@b.com", "password1", false)).unwrap();
    let token = login_token(&mut state, "a@b.com", "password1");
    assert_eq!(logout(&mut state, Some(&token), NOW), Ok(()));
    assert_eq!(logout(&mut state, Some(&token), NOW), Err(AuthAPIError::InvalidToken));
}

#[test]
fn second_login_with_pending_challenge_is_unexpected() {
    let mut state = new_state();
    signup(&mut state, &signup_request("a@b.com", "password1", true)).unwrap();
    pending_login_attempt_id(&mut state, "a@b.com", "password1");
    let err = login(&mut state, &login_request("a@b.com", "password1"), NOW).unwrap_err();
    assert_eq!(err, AuthAPIError::UnexpectedError);
    assert_eq!(err.status_code(), 500);
}

#[test]
fn verify_token_for_removed_user_is_unexpected() {
    let mut state = new_state();
    signup(&mut state, &signup_request("a@b.com", "password1", false)).unwrap();
    let token = login_token(&mut state, "a@b.com", "password1");
    let other = new_state();
    let err = verify_token(&other, &VerifyTokenRequest { token }, NOW).unwrap_err();
    assert_eq!(err, AuthAPIError::UnexpectedError);
}

#[test]
fn token_expires_after_its_lifetime() {
    let mut state = new_state();
    signup(&mut state, &signup_request("a@b.com", "password1", false)).unwrap();
    let token = login_token(&mut state, "a@b.com", "password1");
    let request = VerifyTokenRequest { token: token.clone() };
    assert!(verify_token(&state, &request, NOW + TTL - 1).is_ok());
    assert_eq!(verify_token(&state, &request, NOW + TTL).unwrap_err(), AuthAPIError::InvalidToken);
    assert_eq!(logout(&mut state, Some(&token), NOW + TTL), Err(AuthAPIError::InvalidToken));
}

#[test]
fn banned_token_stays_refused() {
    let mut state = new_state();
    signup(&mut state, &signup_request("a@b.com", "password1", false)).unwrap();
    let token = login_token(&mut state, "a@b.com", "password1");
    logout(&mut state, Some(&token), NOW).unwrap();
    for later in [NOW, NOW + 1, NOW + 100] {
        let request = VerifyTokenRequest { token: token.clone() };
        assert_eq!(verify_token(&state, &request, later).unwrap_err(), AuthAPIError::InvalidToken);
        assert_eq!(logout(&mut state, Some(&token), later), Err(AuthAPIError::InvalidToken));
    }
}

#[test]
fn signup_then_login_yields_token_only_after_second_factor() {
    let mut state = new_state();
    signup(&mut state, &signup_request("a@b.com", "password1", true)).unwrap();
    let result = login(&mut state, &login_request("a@b.com", "password1"), NOW);
    assert!(matches!(result, Ok(LoginResponse::TwoFactorAuth(_))));
    assert!(state.user_store.validate_user_str("a@b.com", "password1").is_ok());
}
