use crate::data_stores::{validation_outcome, BannedTokenStore, TwoFACodeStore, UserStore};
use crate::error::AuthAPIError;
use crate::ids::{is_code_text, uuid_accepts, LoginAttemptId, TwoFACode};
use crate::token::{
    expiry_at, is_live, lemma_issue_then_verify, token_nonce, token_subject, token_text,
    TokenService,
};
use crate::user::{is_email_text, is_password_text, Email, Password, User, UserView};
use vstd::prelude::*;
use vstd::string::StringExecFns;

verus! {

/// The stores and the token service that the authentication operations work on.
pub struct AppState<U: UserStore, B: BannedTokenStore, C: TwoFACodeStore> {
    pub user_store: U,
    pub banned_token_store: B,
    pub two_fa_code_store: C,
    pub token_service: TokenService,
}

impl<U: UserStore, B: BannedTokenStore, C: TwoFACodeStore> AppState<U, B, C> {
    pub open spec fn well_formed(&self) -> bool {
        &&& self.user_store.well_formed()
        &&& self.banned_token_store.well_formed()
        &&& self.two_fa_code_store.well_formed()
        &&& users_shaped(self.user_store.users())
        &&& challenges_shaped(self.two_fa_code_store.codes())
    }

    pub fn new(user_store: U, banned_token_store: B, two_fa_code_store: C, token_service: TokenService) -> (r: Self)
        ensures
            r.user_store == user_store,
            r.banned_token_store == banned_token_store,
            r.two_fa_code_store == two_fa_code_store,
            r.token_service == token_service,
    {
        AppState { user_store, banned_token_store, two_fa_code_store, token_service }
    }
}

pub struct SignupRequest {
    pub email: String,
    pub password: String,
    pub requires_2fa: bool,
}

impl SignupRequest {
    /// The user that this request describes, when its email and password are well formed.
    pub fn to_user(&self) -> (r: Result<User, String>)
        ensures
            r is Ok <==> is_email_text(self.email@) && is_password_text(self.password@),
            r matches Ok(u) ==> u@ == (UserView {
                email: self.email@,
                password: self.password@,
                requires_2fa: self.requires_2fa,
            }),
    {
        User::from_str(self.email.as_str(), self.password.as_str(), self.requires_2fa)
    }
}

#[derive(Debug)]
pub struct SignupResponse {
    pub message: String,
}

pub struct LoginRequest {
    pub email: String,
    pub password: String,
}

/// What a successful login gives.
#[derive(Debug)]
pub enum LoginResponse {
    /// Logged in: the session token.
    RegularAuth(String),
    /// A second factor is required.
    TwoFactorAuth(TwoFactorAuthResponse),
}

#[derive(Debug)]
pub struct TwoFactorAuthResponse {
    pub message: String,
    pub login_attempt_id: String,
}

pub struct Verify2FARequest {
    pub email: String,
    pub login_attempt_id: String,
    pub two_fa_code: String,
}

pub struct VerifyTokenRequest {
    pub token: String,
}

/// Every user is filed under its own well-formed email and has a well-formed password.
pub open spec fn users_shaped(users: Map<Seq<char>, UserView>) -> bool {
    forall|k: Seq<char>| #[trigger]
        users.contains_key(k) ==> is_email_text(k) && users[k].email == k && is_password_text(
            users[k].password,
        )
}

/// Every challenge is filed under a well-formed email and holds a UUID and a code.
pub open spec fn challenges_shaped(codes: Map<Seq<char>, (Seq<char>, Seq<char>)>) -> bool {
    forall|k: Seq<char>| #[trigger]
        codes.contains_key(k) ==> is_email_text(k) && uuid_accepts(codes[k].0) && is_code_text(
            codes[k].1,
        )
}

/// `t` is a token issued under `key` with lifetime `ttl` at time `now` for `email`,
/// with a nonce of its own; it names `email`, is not banned, and is live unless `now`
/// is the last second.
pub open spec fn is_fresh_token(
    key: Seq<u8>,
    ttl: u64,
    banned: Set<Seq<char>>,
    email: Seq<char>,
    now: u64,
    t: Seq<char>,
) -> bool {
    &&& token_nonce(t).len() == 16
    &&& t == token_text(key, expiry_at(now, ttl) as nat, token_nonce(t), email)
    &&& token_subject(t) == email
    &&& !banned.contains(t)
    &&& now < u64::MAX ==> is_live(key, t, now as nat)
}

/// Some token issued under `key` with lifetime `ttl` at time `now` for `email` is banned.
pub open spec fn some_issued_token_banned(
    key: Seq<u8>,
    ttl: u64,
    banned: Set<Seq<char>>,
    email: Seq<char>,
    now: u64,
) -> bool {
    exists|n: Seq<char>|
        n.len() == 16 && #[trigger] banned.contains(
            token_text(key, expiry_at(now, ttl) as nat, n, email),
        )
}

/// How signup fails for `email` and `password` against `users`, if it does.
pub open spec fn signup_error(
    users: Map<Seq<char>, UserView>,
    email: Seq<char>,
    password: Seq<char>,
) -> Option<AuthAPIError> {
    if !is_email_text(email) || !is_password_text(password) {
        Some(AuthAPIError::InvalidCredentials)
    } else if users.contains_key(email) {
        Some(AuthAPIError::UserAlreadyExists)
    } else {
        None
    }
}

/// How login fails for `email` and `password` against `users`, if it does.
pub open spec fn login_error(
    users: Map<Seq<char>, UserView>,
    email: Seq<char>,
    password: Seq<char>,
) -> Option<AuthAPIError> {
    if !is_email_text(email) || !is_password_text(password) {
        Some(AuthAPIError::InvalidCredentials)
    } else if validation_outcome(users, email, password) is Err {
        Some(AuthAPIError::IncorrectPassword)
    } else {
        None
    }
}

/// How a second-factor check fails against the pending challenges `codes`, if it does.
pub open spec fn verify_2fa_error(
    codes: Map<Seq<char>, (Seq<char>, Seq<char>)>,
    email: Seq<char>,
    login_attempt_id: Seq<char>,
    code: Seq<char>,
) -> Option<AuthAPIError> {
    if !is_email_text(email) || !uuid_accepts(login_attempt_id) || !is_code_text(code) {
        Some(AuthAPIError::InvalidCredentials)
    } else if !codes.contains_key(email) || codes[email] != (login_attempt_id, code) {
        Some(AuthAPIError::Invalid2FACredentials)
    } else {
        None
    }
}

/// The text of an optional token.
pub open spec fn token_view(token: Option<&str>) -> Option<Seq<char>> {
    match token {
        Some(t) => Some(t@),
        None => None,
    }
}

/// How logout fails at time `now`, if it does.
pub open spec fn logout_error(
    key: Seq<u8>,
    banned: Set<Seq<char>>,
    token: Option<Seq<char>>,
    now: nat,
) -> Option<AuthAPIError> {
    match token {
        None => Some(AuthAPIError::MissingToken),
        Some(t) => if !is_live(key, t, now) || banned.contains(t) {
            Some(AuthAPIError::InvalidToken)
        } else {
            None
        },
    }
}

/// How a token check fails at time `now`, if it does.
pub open spec fn verify_token_error(
    key: Seq<u8>,
    banned: Set<Seq<char>>,
    users: Map<Seq<char>, UserView>,
    token: Seq<char>,
    now: nat,
) -> Option<AuthAPIError> {
    if !is_live(key, token, now) || banned.contains(token) {
        Some(AuthAPIError::InvalidToken)
    } else if !users.contains_key(token_subject(token)) {
        Some(AuthAPIError::UnexpectedError)
    } else {
        None
    }
}

/// Signing up twice with the same email: the first signup succeeds, and the second
/// reports that the user exists.
pub proof fn lemma_signup_twice(
    users: Map<Seq<char>, UserView>,
    email: Seq<char>,
    password: Seq<char>,
    requires_2fa: bool,
    second_password: Seq<char>,
)
    requires
        is_email_text(email),
        is_password_text(password),
        is_password_text(second_password),
        !users.contains_key(email),
    ensures
        signup_error(users, email, password) is None,
        signup_error(
            users.insert(email, UserView { email, password, requires_2fa }),
            email,
            second_password,
        ) == Some(AuthAPIError::UserAlreadyExists),
{
}

/// After a signup with well-formed credentials, login with the same credentials
/// passes the password check, and the new record decides whether a second factor
/// follows; the challenge that login then opens is passed by its own id and code and
/// by no other answer.
pub proof fn lemma_signup_then_login(
    users: Map<Seq<char>, UserView>,
    codes: Map<Seq<char>, (Seq<char>, Seq<char>)>,
    email: Seq<char>,
    password: Seq<char>,
    requires_2fa: bool,
    login_attempt_id: Seq<char>,
    code: Seq<char>,
    other_id: Seq<char>,
    other_code: Seq<char>,
)
    requires
        is_email_text(email),
        is_password_text(password),
        !users.contains_key(email),
        uuid_accepts(login_attempt_id),
        is_code_text(code),
    ensures
        ({
            let after = users.insert(email, UserView { email, password, requires_2fa });
            &&& login_error(after, email, password) is None
            &&& after[email].requires_2fa == requires_2fa
        }),
        verify_2fa_error(codes.insert(email, (login_attempt_id, code)), email, login_attempt_id, code)
            is None,
        (other_id, other_code) != (login_attempt_id, code) ==> verify_2fa_error(
            codes.insert(email, (login_attempt_id, code)),
            email,
            other_id,
            other_code,
        ) is Some,
{
}

/// A wrong password and an unknown email give the same error.
pub proof fn lemma_login_hides_which_credential_failed(
    users: Map<Seq<char>, UserView>,
    email: Seq<char>,
    password: Seq<char>,
)
    requires
        is_email_text(email),
        is_password_text(password),
        !users.contains_key(email) || users[email].password != password,
    ensures
        login_error(users, email, password) == Some(AuthAPIError::IncorrectPassword),
{
}

/// A challenge answered once cannot be answered again with the same inputs.
pub proof fn lemma_challenge_single_use(
    codes: Map<Seq<char>, (Seq<char>, Seq<char>)>,
    email: Seq<char>,
    login_attempt_id: Seq<char>,
    code: Seq<char>,
)
    requires
        verify_2fa_error(codes, email, login_attempt_id, code) is None,
    ensures
        verify_2fa_error(codes.remove(email), email, login_attempt_id, code) == Some(
            AuthAPIError::Invalid2FACredentials,
        ),
{
}

/// A banned token is refused by logout and by the token check, at any time and
/// whatever users are registered.
pub proof fn lemma_banned_token_refused(
    key: Seq<u8>,
    banned: Set<Seq<char>>,
    users: Map<Seq<char>, UserView>,
    token: Seq<char>,
    now: nat,
)
    requires
        banned.contains(token),
    ensures
        logout_error(key, banned, Some(token), now) == Some(AuthAPIError::InvalidToken),
        verify_token_error(key, banned, users, token, now) == Some(AuthAPIError::InvalidToken),
{
}

/// After a logout bans a token, logging out with it again fails.
pub proof fn lemma_logout_twice(
    key: Seq<u8>,
    banned: Set<Seq<char>>,
    token: Seq<char>,
    now: nat,
    later: nat,
)
    requires
        logout_error(key, banned, Some(token), now) is None,
    ensures
        logout_error(key, banned.insert(token), Some(token), later) == Some(
            AuthAPIError::InvalidToken,
        ),
{
}

/// A token issued for a registered user passes the token check and names that user,
/// while it is unexpired and not banned.
pub proof fn lemma_issued_token_verifies(
    key: Seq<u8>,
    banned: Set<Seq<char>>,
    users: Map<Seq<char>, UserView>,
    expiry: u64,
    nonce: Seq<char>,
    email: Seq<char>,
    now: nat,
)
    requires
        nonce.len() == 16,
        is_email_text(email),
        users.contains_key(email),
        now < expiry,
        !banned.contains(token_text(key, expiry as nat, nonce, email)),
    ensures
        verify_token_error(key, banned, users, token_text(key, expiry as nat, nonce, email), now)
            is None,
        token_subject(token_text(key, expiry as nat, nonce, email)) == email,
{
    lemma_issue_then_verify(key, expiry, nonce, email, now);
}

/// Registers a user.
pub fn signup<U: UserStore, B: BannedTokenStore, C: TwoFACodeStore>(
    state: &mut AppState<U, B, C>,
    request: &SignupRequest,
) -> (r: Result<SignupResponse, AuthAPIError>)
    requires
        old(state).well_formed(),
    ensures
        final(state).well_formed(),
        final(state).banned_token_store == old(state).banned_token_store,
        final(state).two_fa_code_store == old(state).two_fa_code_store,
        final(state).token_service == old(state).token_service,
        signup_error(old(state).user_store.users(), request.email@, request.password@) matches Some(
            e,
        ) ==> r == Err::<SignupResponse, _>(e) && final(state).user_store.users() == old(
            state,
        ).user_store.users(),
        signup_error(old(state).user_store.users(), request.email@, request.password@) is None ==> (
        r matches Ok(resp) && resp.message@ == "User "@ + request.email@ + " created successfully"@)
            && final(state).user_store.users() == old(state).user_store.users().insert(
            request.email@,
            UserView {
                email: request.email@,
                password: request.password@,
                requires_2fa: request.requires_2fa,
            },
        ),
{
    let user = match request.to_user() {
        Ok(u) => u,
        Err(_) => return Err(AuthAPIError::InvalidCredentials),
    };
    let mut message = "User ".to_owned();
    message.append(user.email_str());
    message.append(" created successfully");
    if state.user_store.get_user(user.email()).is_ok() {
        return Err(AuthAPIError::UserAlreadyExists);
    }
    match state.user_store.add_user(user) {
        Ok(()) => Ok(SignupResponse { message }),
        Err(_) => Err(AuthAPIError::UnexpectedError),
    }
}

/// Checks a password; on success either issues a session token or, for a user
/// with a second factor, opens a challenge.
pub fn login<U: UserStore, B: BannedTokenStore, C: TwoFACodeStore>(
    state: &mut AppState<U, B, C>,
    request: &LoginRequest,
    now: u64,
) -> (r: Result<LoginResponse, AuthAPIError>)
    requires
        old(state).well_formed(),
    ensures
        final(state).well_formed(),
        final(state).user_store == old(state).user_store,
        final(state).banned_token_store == old(state).banned_token_store,
        final(state).token_service == old(state).token_service,
        ({
            let users = old(state).user_store.users();
            let codes = old(state).two_fa_code_store.codes();
            let new_codes = final(state).two_fa_code_store.codes();
            let email = request.email@;
            let key = old(state).token_service.key();
            let ttl = old(state).token_service.ttl();
            match login_error(users, email, request.password@) {
                Some(e) => r == Err::<LoginResponse, _>(e) && new_codes == codes,
                None => if !users[email].requires_2fa {
                    new_codes == codes && match r {
                        Ok(LoginResponse::RegularAuth(t)) => is_fresh_token(
                            key,
                            ttl,
                            old(state).banned_token_store.banned(),
                            email,
                            now,
                            t@,
                        ),
                        Err(e) => e == AuthAPIError::UnexpectedError && some_issued_token_banned(
                            key,
                            ttl,
                            old(state).banned_token_store.banned(),
                            email,
                            now,
                        ),
                        _ => false,
                    }
                } else if codes.contains_key(email) {
                    r == Err::<LoginResponse, _>(AuthAPIError::UnexpectedError) && new_codes == codes
                } else {
                    (r matches Ok(LoginResponse::TwoFactorAuth(resp)) && resp.message@
                        == "2FA required"@ && uuid_accepts(resp.login_attempt_id@)
                        && new_codes == codes.insert(
                        email,
                        (resp.login_attempt_id@, new_codes[email].1),
                    )) && is_code_text(new_codes[email].1)
                },
            }
        }),
{
    let email = match Email::from_str(request.email.as_str()) {
        Ok(e) => e,
        Err(_) => return Err(AuthAPIError::InvalidCredentials),
    };
    let password = match Password::from_str(request.password.as_str()) {
        Ok(p) => p,
        Err(_) => return Err(AuthAPIError::InvalidCredentials),
    };
    if state.user_store.validate_user(email.clone(), password).is_err() {
        return Err(AuthAPIError::IncorrectPassword);
    }
    let user = match state.user_store.get_user(email.clone()) {
        Ok(u) => u,
        Err(_) => return Err(AuthAPIError::InvalidCredentials),
    };
    if user.requires_2fa() {
        handle_2fa(state, email, LoginAttemptId::default(), TwoFACode::default())
    } else {
        handle_no_2fa(state, &email, now)
    }
}

/// Opens the challenge `(login_attempt_id, code)` for `email`, unless one is pending.
pub fn handle_2fa<U: UserStore, B: BannedTokenStore, C: TwoFACodeStore>(
    state: &mut AppState<U, B, C>,
    email: Email,
    login_attempt_id: LoginAttemptId,
    code: TwoFACode,
) -> (r: Result<LoginResponse, AuthAPIError>)
    requires
        old(state).well_formed(),
    ensures
        final(state).well_formed(),
        final(state).user_store == old(state).user_store,
        final(state).banned_token_store == old(state).banned_token_store,
        final(state).token_service == old(state).token_service,
        old(state).two_fa_code_store.codes().contains_key(email@) ==> r == Err::<LoginResponse, _>(
            AuthAPIError::UnexpectedError,
        ) && final(state).two_fa_code_store.codes() == old(state).two_fa_code_store.codes(),
        !old(state).two_fa_code_store.codes().contains_key(email@) ==> (r matches Ok(
            LoginResponse::TwoFactorAuth(resp),
        ) && resp.message@ == "2FA required"@ && resp.login_attempt_id@ == login_attempt_id@)
            && final(state).two_fa_code_store.codes() == old(state).two_fa_code_store.codes().insert(
            email@,
            (login_attempt_id@, code@),
        ),
{
    let id_text = login_attempt_id.as_str().to_owned();
    proof {
        use_type_invariant(&email);
        use_type_invariant(&login_attempt_id);
        use_type_invariant(&code);
    }
    let ghost entry = (email@, (login_attempt_id@, code@));
    let r = state.two_fa_code_store.add_code(email, login_attempt_id, code);
    assert(challenges_shaped(state.two_fa_code_store.codes())) by {
        assert(is_email_text(entry.0) && uuid_accepts(entry.1.0) && is_code_text(entry.1.1));
    }
    match r {
        Ok(()) => Ok(
            LoginResponse::TwoFactorAuth(
                TwoFactorAuthResponse { message: "2FA required".to_owned(), login_attempt_id: id_text },
            ),
        ),
        Err(_) => Err(AuthAPIError::UnexpectedError),
    }
}

/// Issues a session token for `email` at time `now`, refusing one that is banned.
fn fresh_token<U: UserStore, B: BannedTokenStore, C: TwoFACodeStore>(
    state: &AppState<U, B, C>,
    email: &Email,
    now: u64,
) -> (r: Result<String, AuthAPIError>)
    requires
        state.well_formed(),
    ensures
        r matches Ok(t) ==> is_fresh_token(
            state.token_service.key(),
            state.token_service.ttl(),
            state.banned_token_store.banned(),
            email@,
            now,
            t@,
        ),
        r matches Err(e) ==> e == AuthAPIError::UnexpectedError && some_issued_token_banned(
            state.token_service.key(),
            state.token_service.ttl(),
            state.banned_token_store.banned(),
            email@,
            now,
        ),
{
    let token = state.token_service.issue(email, now);
    proof {
        use_type_invariant(email);
        lemma_issue_then_verify(
            state.token_service.key(),
            expiry_at(now, state.token_service.ttl()),
            token_nonce(token@),
            email@,
            now as nat,
        );
    }
    match state.banned_token_store.check(token.as_str()) {
        Ok(()) => Ok(token),
        Err(_) => Err(AuthAPIError::UnexpectedError),
    }
}

fn handle_no_2fa<U: UserStore, B: BannedTokenStore, C: TwoFACodeStore>(
    state: &AppState<U, B, C>,
    email: &Email,
    now: u64,
) -> (r: Result<LoginResponse, AuthAPIError>)
    requires
        state.well_formed(),
    ensures
        match r {
            Ok(LoginResponse::RegularAuth(t)) => is_fresh_token(
                state.token_service.key(),
                state.token_service.ttl(),
                state.banned_token_store.banned(),
                email@,
                now,
                t@,
            ),
            Err(e) => e == AuthAPIError::UnexpectedError && some_issued_token_banned(
                state.token_service.key(),
                state.token_service.ttl(),
                state.banned_token_store.banned(),
                email@,
                now,
            ),
            _ => false,
        },
{
    match fresh_token(state, email, now) {
        Ok(t) => Ok(LoginResponse::RegularAuth(t)),
        Err(e) => Err(e),
    }
}

/// Answers a second-factor challenge; on a match, consumes it and issues a session token.
pub fn verify_2fa<U: UserStore, B: BannedTokenStore, C: TwoFACodeStore>(
    state: &mut AppState<U, B, C>,
    request: &Verify2FARequest,
    now: u64,
) -> (r: Result<String, AuthAPIError>)
    requires
        old(state).well_formed(),
    ensures
        final(state).well_formed(),
        final(state).user_store == old(state).user_store,
        final(state).banned_token_store == old(state).banned_token_store,
        final(state).token_service == old(state).token_service,
        verify_2fa_error(
            old(state).two_fa_code_store.codes(),
            request.email@,
            request.login_attempt_id@,
            request.two_fa_code@,
        ) matches Some(e) ==> r == Err::<String, _>(e) && final(state).two_fa_code_store.codes()
            == old(state).two_fa_code_store.codes(),
        verify_2fa_error(
            old(state).two_fa_code_store.codes(),
            request.email@,
            request.login_attempt_id@,
            request.two_fa_code@,
        ) is None ==> match r {
            Ok(t) => is_fresh_token(
                old(state).token_service.key(),
                old(state).token_service.ttl(),
                old(state).banned_token_store.banned(),
                request.email@,
                now,
                t@,
            ) && final(state).two_fa_code_store.codes() == old(
                state,
            ).two_fa_code_store.codes().remove(request.email@),
            Err(e) => e == AuthAPIError::UnexpectedError && some_issued_token_banned(
                old(state).token_service.key(),
                old(state).token_service.ttl(),
                old(state).banned_token_store.banned(),
                request.email@,
                now,
            ) && final(state).two_fa_code_store.codes() == old(state).two_fa_code_store.codes(),
        },
{
    let email = match Email::from_str(request.email.as_str()) {
        Ok(e) => e,
        Err(_) => return Err(AuthAPIError::InvalidCredentials),
    };
    let login_attempt_id = match LoginAttemptId::parse(request.login_attempt_id.clone()) {
        Ok(a) => a,
        Err(_) => return Err(AuthAPIError::InvalidCredentials),
    };
    let two_fa_code = match TwoFACode::parse(request.two_fa_code.clone()) {
        Ok(c) => c,
        Err(_) => return Err(AuthAPIError::InvalidCredentials),
    };
    let (stored_id, stored_code) = match state.two_fa_code_store.get_code(&email) {
        Ok(pair) => pair,
        Err(_) => return Err(AuthAPIError::Invalid2FACredentials),
    };
    if !stored_id.matches(&login_attempt_id) {
        return Err(AuthAPIError::Invalid2FACredentials);
    }
    if !stored_code.matches(&two_fa_code) {
        return Err(AuthAPIError::Invalid2FACredentials);
    }
    let token = match fresh_token(state, &email, now) {
        Ok(t) => t,
        Err(e) => return Err(e),
    };
    match state.two_fa_code_store.remove_code(&email) {
        Ok(()) => Ok(token),
        Err(_) => Err(AuthAPIError::UnexpectedError),
    }
}

/// Bans the session token `token`.
pub fn logout<U: UserStore, B: BannedTokenStore, C: TwoFACodeStore>(
    state: &mut AppState<U, B, C>,
    token: Option<&str>,
    now: u64,
) -> (r: Result<(), AuthAPIError>)
    requires
        old(state).well_formed(),
    ensures
        final(state).well_formed(),
        final(state).user_store == old(state).user_store,
        final(state).two_fa_code_store == old(state).two_fa_code_store,
        final(state).token_service == old(state).token_service,
        logout_error(
            old(state).token_service.key(),
            old(state).banned_token_store.banned(),
            token_view(token),
            now as nat,
        ) matches Some(e) ==> r == Err::<(), _>(e) && final(state).banned_token_store.banned()
            == old(state).banned_token_store.banned(),
        logout_error(
            old(state).token_service.key(),
            old(state).banned_token_store.banned(),
            token_view(token),
            now as nat,
        ) is None ==> r is Ok && final(state).banned_token_store.banned() == old(
            state,
        ).banned_token_store.banned().insert(token_view(token)->0),
{
    let token = match token {
        Some(t) => t,
        None => return Err(AuthAPIError::MissingToken),
    };
    match state.token_service.verify(token, now, &state.banned_token_store) {
        Ok(_) => {},
        Err(_) => return Err(AuthAPIError::InvalidToken),
    }
    match state.banned_token_store.add(token.to_owned()) {
        Ok(()) => Ok(()),
        Err(_) => Err(AuthAPIError::InvalidToken),
    }
}

/// The email of the user that a live session token names.
pub fn verify_token<U: UserStore, B: BannedTokenStore, C: TwoFACodeStore>(
    state: &AppState<U, B, C>,
    request: &VerifyTokenRequest,
    now: u64,
) -> (r: Result<Email, AuthAPIError>)
    requires
        state.well_formed(),
    ensures
        verify_token_error(
            state.token_service.key(),
            state.banned_token_store.banned(),
            state.user_store.users(),
            request.token@,
            now as nat,
        ) matches Some(e) ==> r == Err::<Email, _>(e),
        verify_token_error(
            state.token_service.key(),
            state.banned_token_store.banned(),
            state.user_store.users(),
            request.token@,
            now as nat,
        ) is None ==> (r matches Ok(e) && e@ == token_subject(request.token@)),
{
    let email = match state.token_service.verify(request.token.as_str(), now, &state.banned_token_store) {
        Ok(e) => e,
        Err(_) => return Err(AuthAPIError::InvalidToken),
    };
    match state.user_store.get_user(email.clone()) {
        Ok(_) => Ok(email),
        Err(_) => Err(AuthAPIError::UnexpectedError),
    }
}

} // verus!
