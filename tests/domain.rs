use auth_service::token::{TokenError, TokenService};
use auth_service::{
    AuthAPIError, BannedTokenStore, Email, ErrorResponse, HashsetBannedTokenStore, LoginAttemptId,
    Password, SignupRequest, TwoFACode, User,
};

#[test]
fn email_needs_exactly_one_at_sign() {
    assert!(Email::from_str("a@b.com").is_ok());
    assert_eq!(Email::from_str("a@b.com").unwrap().as_str(), "a@b.com");
    assert!(Email::from_str("@").is_ok());
    assert!(Email::from_str("").is_err());
    assert!(Email::from_str("ab.com").is_err());
    assert!(Email::from_str("a@b@c.com").is_err());
    assert_eq!(Email::from_str("asdf").unwrap_err(), "Invalid email format");
}

#[test]
fn password_needs_eight_characters() {
    assert!(Password::from_str("12345678").is_ok());
    assert!(Password::from_str("1234567").is_err());
    assert!(Password::from_str("").is_err());
    assert_eq!(Password::from_str("password1").unwrap().as_str(), "password1");
    assert_eq!(Password::from_str("1234").unwrap_err(), "Password must be at least 8 characters long");
}

#[test]
fn password_length_counts_bytes() {
    assert!(Password::from_str("ééééé").is_ok());
    assert!(Password::from_str("éééé").is_ok());
    assert!(Password::from_str("ééé").is_err());
    assert!(Password::from_str("éééabc").is_ok());
    assert!(Password::from_str("ééab").is_err());
}

#[test]
fn user_from_str_reports_the_first_bad_field() {
    assert_eq!(User::from_str("hello", "1234", false).unwrap_err(), "Invalid email format");
    assert_eq!(
        User::from_str("hello@example.com", "1234", false).unwrap_err(),
        "Password must be at least 8 characters long"
    );
}

#[test]
fn user_getters_return_what_was_given() {
    let user = User::from_str("hello@example.com", "12341234", true).unwrap();
    assert_eq!(user.email_str(), "hello@example.com");
    assert_eq!(user.email().as_str(), "hello@example.com");
    assert_eq!(user.password_str(), "12341234");
    assert_eq!(user.password().as_str(), "12341234");
    assert!(user.requires_2fa());
    let built = User::new(Email::from_str("x@y.z").unwrap(), Password::from_str("abcdefgh").unwrap(), false);
    assert_eq!(built.email_str(), "x@y.z");
    assert!(!built.requires_2fa);
    assert!(User::from_str("hello", "12341234", false).is_err());
    assert!(User::from_str("hello@example.com", "1234", false).is_err());
}

#[test]
fn signup_request_to_user() {
    let request = SignupRequest { email: "a@b.com".to_string(), password: "password1".to_string(), requires_2fa: true };
    let user = request.to_user().unwrap();
    assert_eq!(user.email_str(), "a@b.com");
    assert!(user.requires_2fa());
    let bad = SignupRequest { email: "ab.com".to_string(), password: "password1".to_string(), requires_2fa: true };
    assert!(bad.to_user().is_err());
}

#[test]
fn two_fa_code_is_six_letters_or_digits() {
    assert!(TwoFACode::parse("123456".to_string()).is_ok());
    assert!(TwoFACode::parse("aB3dE9".to_string()).is_ok());
    assert!(TwoFACode::parse("12345".to_string()).is_err());
    assert!(TwoFACode::parse("1234567".to_string()).is_err());
    assert!(TwoFACode::parse("12345!".to_string()).is_err());
    assert!(TwoFACode::parse("12345é".to_string()).is_err());
    assert_eq!(TwoFACode::parse("12345".to_string()).unwrap_err(), "Invalid code length");
    assert_eq!(TwoFACode::parse("12345!".to_string()).unwrap_err(), "Invalid code characters");
    assert_eq!(TwoFACode::parse("abc€".to_string()).unwrap_err(), "Invalid code characters");
    assert_eq!(TwoFACode::parse("abcdé".to_string()).unwrap_err(), "Invalid code characters");
    assert_eq!(TwoFACode::parse("abcdeé".to_string()).unwrap_err(), "Invalid code length");
    for _ in 0..20 {
        let code = TwoFACode::default();
        assert!(TwoFACode::parse(code.as_str().to_string()).is_ok());
    }
}

#[test]
fn login_attempt_id_is_a_uuid() {
    assert!(LoginAttemptId::parse("550e8400-e29b-41d4-a716-446655440000".to_string()).is_ok());
    assert!(LoginAttemptId::parse("1234".to_string()).is_err());
    assert_eq!(LoginAttemptId::parse("hello".to_string()).unwrap_err(), "Invalid login attempt ID");
    assert!(LoginAttemptId::parse("550e8400e29b41d4a716446655440000".to_string()).is_ok());
    assert!(LoginAttemptId::parse("{550e8400-e29b-41d4-a716-446655440000}".to_string()).is_ok());
    assert!(LoginAttemptId::parse("URN:uuid:550E8400-E29B-41D4-A716-446655440000".to_string()).is_ok());
    assert!(LoginAttemptId::parse("550e8400-e29b-41d4-a716_446655440000".to_string()).is_err());
    assert!(LoginAttemptId::parse("550e8400-e29b-41d4-a716-44665544000g".to_string()).is_err());
    let fresh = LoginAttemptId::default();
    assert_eq!(fresh.as_str().len(), 36);
    assert!(LoginAttemptId::parse(fresh.as_str().to_string()).is_ok());
    assert_ne!(LoginAttemptId::default(), LoginAttemptId::default());
}

#[test]
fn token_round_trip() {
    let service = TokenService::new(b"key".to_vec(), 60);
    let banned = HashsetBannedTokenStore::default();
    let email = Email::from_str("a@b.com").unwrap();
    let token = service.issue(&email, 1000);
    assert_eq!(token.len(), 16 + 16 + 64 + "a@b.com".len());
    assert_eq!(&token[..16], "0000000000000424");
    assert!(token[16..32].chars().all(|c| c.is_ascii_alphanumeric()));
    assert!(token.ends_with("a@b.com"));
    assert_eq!(service.verify(&token, 1059, &banned).unwrap().as_str(), "a@b.com");
    assert_eq!(service.verify(&token, 1060, &banned).unwrap_err(), TokenError::Invalid);
}

#[test]
fn token_expiry_saturates() {
    let service = TokenService::new(b"key".to_vec(), 60);
    let token = service.issue(&Email::from_str("a@b.com").unwrap(), u64::MAX - 10);
    assert_eq!(&token[..16], "ffffffffffffffff");
}

#[test]
fn tampered_or_foreign_tokens_are_invalid() {
    let service = TokenService::new(b"key".to_vec(), 60);
    let other = TokenService::new(b"another key".to_vec(), 60);
    let banned = HashsetBannedTokenStore::default();
    let token = service.issue(&Email::from_str("a@b.com").unwrap(), 1000);
    assert_eq!(other.verify(&token, 1000, &banned).unwrap_err(), TokenError::Invalid);
    let swapped_subject = format!("{}c@b.com", &token[..96]);
    assert_eq!(service.verify(&swapped_subject, 1000, &banned).unwrap_err(), TokenError::Invalid);
    let later_expiry = format!("f{}", &token[1..]);
    assert_eq!(service.verify(&later_expiry, 1000, &banned).unwrap_err(), TokenError::Invalid);
    assert_eq!(service.verify("invalid", 1000, &banned).unwrap_err(), TokenError::Invalid);
    assert_eq!(service.verify(&token[..96], 1000, &banned).unwrap_err(), TokenError::Invalid);
    let other_nonce = format!("{}{}{}", &token[..16], "0000000000000000", &token[32..]);
    assert_eq!(service.verify(&other_nonce, 1000, &banned).unwrap_err(), TokenError::Invalid);
}

#[test]
fn banned_token_is_revoked() {
    let service = TokenService::new(b"key".to_vec(), 60);
    let mut banned = HashsetBannedTokenStore::default();
    let token = service.issue(&Email::from_str("a@b.com").unwrap(), 1000);
    banned.add(token.clone()).unwrap();
    assert_eq!(service.verify(&token, 1000, &banned).unwrap_err(), TokenError::Revoked);
    assert_eq!(service.verify(&token, 2000, &banned).unwrap_err(), TokenError::Invalid);
}

#[test]
fn error_statuses_and_messages() {
    assert_eq!(AuthAPIError::UserAlreadyExists.status_code(), 409);
    assert_eq!(AuthAPIError::UnexpectedError.status_code(), 500);
    assert_eq!(AuthAPIError::TokenCreationError.status_code(), 500);
    assert_eq!(AuthAPIError::Invalid2FACredentials.message(), "Invalid 2FA code or login attempt ID");
    assert_eq!(ErrorResponse::from_error(AuthAPIError::MissingToken).error, "Missing authentication token");
    assert_eq!(ErrorResponse::from_error(AuthAPIError::IncorrectPassword).error, "The password is incorrect or the user does not exist");
}

#[test]
fn token_with_given_nonce_is_exact() {
    let service = TokenService::new(b"key".to_vec(), 60);
    let email = Email::from_str("a@b.com").unwrap();
    let a = service.issue_with_nonce(&email, 1000, "ABCDEFGHIJKLMNOP");
    let b = service.issue_with_nonce(&email, 1000, "ABCDEFGHIJKLMNOP");
    assert_eq!(a, b);
    assert_eq!(&a[..32], "0000000000000424ABCDEFGHIJKLMNOP");
    assert!(a[32..96].chars().all(|c| c.is_ascii_hexdigit() && !c.is_ascii_uppercase()));
    assert_eq!(&a[96..], "a@b.com");
    let c = service.issue_with_nonce(&email, 1000, "ABCDEFGHIJKLMNOQ");
    assert_ne!(a[32..96], c[32..96]);
}

#[test]
fn tokens_issued_in_the_same_second_differ() {
    let service = TokenService::new(b"key".to_vec(), 60);
    let email = Email::from_str("a@b.com").unwrap();
    assert_ne!(service.issue(&email, 1000), service.issue(&email, 1000));
}
