//! The login decision: who may log in, and what the answer is.
//!
//! Checking a password and signing a token are done outside. The decision is
//! made in between: first who is to be checked, then, given the outcome of
//! the check, what is answered or which claims are to be signed.

use crate::config::{Config, ConfigView};
use crate::jwt::{issued_claims, Claims, ClaimsView, JwtService};
use crate::models::{Timestamp, User, UserStatus, UserView};
use crate::outside::{clock_now, random_uuid};
use crate::password::{password_check_of, verify_password, PasswordCheck};
use crate::registry::ClaimDefinitionView;
use crate::storage::{AdminStorage, StorageView};
use vstd::prelude::*;

verus! {

#[derive(Debug)]
pub struct LoginRequest {
    pub email: String,
    pub password: String,
}

#[derive(Debug)]
pub struct LoginResponse {
    pub success: bool,
    pub access_token: Option<String>,
    pub refresh_token: Option<String>,
    /// Lifetime of the access token, in seconds.
    pub expires_in: Option<u64>,
    pub requires_mfa: bool,
    pub mfa_session: Option<String>,
    pub redirect_to: Option<String>,
}

pub struct LoginResponseView {
    pub success: bool,
    pub access_token: Option<Seq<char>>,
    pub refresh_token: Option<Seq<char>>,
    pub expires_in: Option<u64>,
    pub requires_mfa: bool,
    pub mfa_session: Option<Seq<char>>,
    pub redirect_to: Option<Seq<char>>,
}

impl View for LoginResponse {
    type V = LoginResponseView;

    open spec fn view(&self) -> LoginResponseView {
        LoginResponseView {
            success: self.success,
            access_token: self.access_token.deep_view(),
            refresh_token: self.refresh_token.deep_view(),
            expires_in: self.expires_in,
            requires_mfa: self.requires_mfa,
            mfa_session: self.mfa_session.deep_view(),
            redirect_to: self.redirect_to.deep_view(),
        }
    }
}

/// What is to be done about a login.
#[derive(Debug)]
pub enum LoginDecision {
    /// Answer with this response.
    Respond(LoginResponse),
    /// Answer with an internal error.
    InternalError,
    /// Sign the two sets of claims and answer with `login_success`.
    Issue { access: Claims, refresh: Claims },
}

pub enum LoginDecisionView {
    Respond(LoginResponseView),
    InternalError,
    Issue { access: ClaimsView, refresh: ClaimsView },
}

impl View for LoginDecision {
    type V = LoginDecisionView;

    open spec fn view(&self) -> LoginDecisionView {
        match self {
            LoginDecision::Respond(response) => LoginDecisionView::Respond(response@),
            LoginDecision::InternalError => LoginDecisionView::InternalError,
            LoginDecision::Issue { access, refresh } => LoginDecisionView::Issue {
                access: access@,
                refresh: refresh@,
            },
        }
    }
}

/// The answer to a login that did not succeed. It does not say why.
pub open spec fn refusal() -> LoginResponseView {
    LoginResponseView {
        success: false,
        access_token: None,
        refresh_token: None,
        expires_in: None,
        requires_mfa: false,
        mfa_session: None,
        redirect_to: None,
    }
}

/// The answer to a login that has to go on with a second factor.
pub open spec fn second_factor_wanted() -> LoginResponseView {
    LoginResponseView {
        success: true,
        access_token: None,
        refresh_token: None,
        expires_in: None,
        requires_mfa: true,
        mfa_session: Some("mfa-session-placeholder"@),
        redirect_to: None,
    }
}

/// The answer to a login that succeeded.
pub open spec fn welcome(
    access_token: Seq<char>,
    refresh_token: Seq<char>,
    config: ConfigView,
) -> LoginResponseView {
    LoginResponseView {
        success: true,
        access_token: Some(access_token),
        refresh_token: Some(refresh_token),
        expires_in: Some(config.security.access_token_ttl),
        requires_mfa: false,
        mfa_session: None,
        redirect_to: Some(config.instance.admin_client_url),
    }
}

/// The audience of the tokens that a login gives.
pub open spec fn login_audience() -> Seq<Seq<char>> {
    seq!["auth-service"@]
}

/// The user whose password a login with `email` is to be checked against:
/// the user with that email, if there is one and it is active.
pub open spec fn login_candidate_of(store: StorageView, email: Seq<char>) -> Option<UserView> {
    if store.email_index.dom().contains(email) && store.users[store.email_index[email]].status
        == UserStatus::Active {
        Some(store.users[store.email_index[email]])
    } else {
        None
    }
}

/// What is to be done about a login, given who was checked and what the
/// check gave. Nobody to check, or a wrong password: a refusal. A check
/// that failed: an internal error. A right password: a second factor where
/// the instance requires one and the user has one, else two tokens, an
/// access token and a refresh token, issued at `now`.
pub open spec fn login_decision(
    candidate: Option<UserView>,
    check: PasswordCheck,
    config: ConfigView,
    registry: Map<Seq<char>, ClaimDefinitionView>,
    now: u64,
    access_jti: Seq<char>,
    refresh_jti: Seq<char>,
) -> LoginDecisionView {
    match candidate {
        None => LoginDecisionView::Respond(refusal()),
        Some(user) => match check {
            PasswordCheck::Invalid => LoginDecisionView::Respond(refusal()),
            PasswordCheck::Failed => LoginDecisionView::InternalError,
            PasswordCheck::Valid => if config.security.require_mfa && user.mfa_secret is Some {
                LoginDecisionView::Respond(second_factor_wanted())
            } else if now + config.security.access_token_ttl > u64::MAX || now
                + config.security.refresh_token_ttl > u64::MAX {
                LoginDecisionView::InternalError
            } else {
                LoginDecisionView::Issue {
                    access: issued_claims(
                        user,
                        registry,
                        login_audience(),
                        config.instance.issuer,
                        config.security.access_token_ttl,
                        now,
                        access_jti,
                    ),
                    refresh: issued_claims(
                        user,
                        registry,
                        login_audience(),
                        config.instance.issuer,
                        config.security.refresh_token_ttl,
                        now,
                        refresh_jti,
                    ),
                }
            },
        },
    }
}

fn refuse() -> (response: LoginResponse)
    ensures
        response@ == refusal(),
{
    LoginResponse {
        success: false,
        access_token: None,
        refresh_token: None,
        expires_in: None,
        requires_mfa: false,
        mfa_session: None,
        redirect_to: None,
    }
}

fn audience() -> (audience: Vec<String>)
    ensures
        audience.deep_view() == login_audience(),
{
    let mut audience: Vec<String> = Vec::new();
    audience.push("auth-service".to_owned());
    audience
}

/// The user whose password a login is to be checked against, if any.
pub fn login_candidate<'a>(storage: &'a AdminStorage, request: &LoginRequest) -> (candidate: Option<
    &'a User,
>)
    requires
        storage.wf(),
    ensures
        candidate.is_some() == login_candidate_of(storage@, request.email@).is_some(),
        candidate.is_some() ==> candidate.unwrap()@ == login_candidate_of(
            storage@,
            request.email@,
        ).unwrap(),
{
    match storage.get_user_by_email(request.email.as_str()) {
        None => None,
        Some(user) => {
            if user.is_active() {
                Some(user)
            } else {
                None
            }
        },
    }
}

/// Decides a login at the time `now`, with the token ids given.
pub fn login_at(
    storage: &AdminStorage,
    jwt_service: &JwtService,
    config: &Config,
    request: &LoginRequest,
    check: PasswordCheck,
    now: u64,
    access_jti: String,
    refresh_jti: String,
) -> (decision: LoginDecision)
    requires
        storage.wf(),
    ensures
        decision@ == login_decision(
            login_candidate_of(storage@, request.email@),
            check,
            config@,
            storage@.registry,
            now,
            access_jti@,
            refresh_jti@,
        ),
{
    let user = match login_candidate(storage, request) {
        None => {
            return LoginDecision::Respond(refuse());
        },
        Some(user) => user,
    };
    match check {
        PasswordCheck::Invalid => {
            return LoginDecision::Respond(refuse());
        },
        PasswordCheck::Failed => {
            return LoginDecision::InternalError;
        },
        PasswordCheck::Valid => {},
    }
    if config.security.require_mfa && user.mfa_secret.is_some() {
        return LoginDecision::Respond(
            LoginResponse {
                success: true,
                access_token: None,
                refresh_token: None,
                expires_in: None,
                requires_mfa: true,
                mfa_session: Some("mfa-session-placeholder".to_owned()),
                redirect_to: None,
            },
        );
    }
    let access = match jwt_service.create_token_at(
        user,
        storage.get_claims(),
        audience(),
        config.instance.issuer.as_str(),
        config.security.access_token_ttl,
        now,
        access_jti,
    ) {
        Ok(claims) => claims,
        Err(_) => {
            return LoginDecision::InternalError;
        },
    };
    let refresh = match jwt_service.create_token_at(
        user,
        storage.get_claims(),
        audience(),
        config.instance.issuer.as_str(),
        config.security.refresh_token_ttl,
        now,
        refresh_jti,
    ) {
        Ok(claims) => claims,
        Err(_) => {
            return LoginDecision::InternalError;
        },
    };
    LoginDecision::Issue { access, refresh }
}

/// What checking the password of a login gives: the outcome of checking
/// the request's password against the candidate's hash. Where there is no
/// candidate nothing is checked, and the login is refused whatever this
/// says.
pub open spec fn login_check_of(candidate: Option<UserView>, password: Seq<char>) -> PasswordCheck {
    match candidate {
        Some(user) => password_check_of(password, user.password_hash),
        None => PasswordCheck::Invalid,
    }
}

/// Whether a login comes to issuing tokens: there is somebody to check, the
/// password is right, and no second factor stands in the way.
pub open spec fn login_issues_tokens(
    candidate: Option<UserView>,
    check: PasswordCheck,
    config: ConfigView,
) -> bool {
    candidate is Some && check == PasswordCheck::Valid && !(config.security.require_mfa
        && candidate->Some_0.mfa_secret is Some)
}

/// What is done about a login that does not come to issuing tokens. Nobody
/// to check, or a wrong password: a refusal. A check that failed: an
/// internal error. A right password where a second factor is required and
/// set up: the second factor is asked for. The time of day has no say in it.
pub open spec fn login_answer(
    candidate: Option<UserView>,
    check: PasswordCheck,
    config: ConfigView,
) -> LoginDecisionView {
    match candidate {
        None => LoginDecisionView::Respond(refusal()),
        Some(_) => match check {
            PasswordCheck::Invalid => LoginDecisionView::Respond(refusal()),
            PasswordCheck::Failed => LoginDecisionView::InternalError,
            PasswordCheck::Valid => LoginDecisionView::Respond(second_factor_wanted()),
        },
    }
}

/// A login that does not come to issuing tokens is decided the same at
/// every time of day and under every token id.
pub proof fn lemma_login_without_tokens_ignores_the_clock(
    candidate: Option<UserView>,
    check: PasswordCheck,
    config: ConfigView,
    registry: Map<Seq<char>, ClaimDefinitionView>,
    now: u64,
    access_jti: Seq<char>,
    refresh_jti: Seq<char>,
)
    requires
        !login_issues_tokens(candidate, check, config),
    ensures
        login_decision(candidate, check, config, registry, now, access_jti, refresh_jti)
            == login_answer(candidate, check, config),
{
}

/// Decides a login that does not come to issuing tokens.
fn answer_without_tokens(candidate: Option<&User>, check: PasswordCheck) -> (decision:
    LoginDecision)
    ensures
        decision@ == match candidate {
            None => LoginDecisionView::Respond(refusal()),
            Some(_) => match check {
                PasswordCheck::Invalid => LoginDecisionView::Respond(refusal()),
                PasswordCheck::Failed => LoginDecisionView::InternalError,
                PasswordCheck::Valid => LoginDecisionView::Respond(second_factor_wanted()),
            },
        },
{
    match candidate {
        None => LoginDecision::Respond(refuse()),
        Some(_) => match check {
            PasswordCheck::Invalid => LoginDecision::Respond(refuse()),
            PasswordCheck::Failed => LoginDecision::InternalError,
            PasswordCheck::Valid => LoginDecision::Respond(
                LoginResponse {
                    success: true,
                    access_token: None,
                    refresh_token: None,
                    expires_in: None,
                    requires_mfa: true,
                    mfa_session: Some("mfa-session-placeholder".to_owned()),
                    redirect_to: None,
                },
            ),
        },
    }
}

/// What is to be done about a login, given what the check gave and what
/// the clock read. A login that does not come to issuing tokens gets its
/// answer whatever the clock says. One that does is an internal error
/// where the clock stands before the epoch, and else is decided as
/// `login_decision` says for the second that the clock read.
pub open spec fn login_decision_from(
    candidate: Option<UserView>,
    check: PasswordCheck,
    config: ConfigView,
    registry: Map<Seq<char>, ClaimDefinitionView>,
    now: Timestamp,
    access_jti: Seq<char>,
    refresh_jti: Seq<char>,
) -> LoginDecisionView {
    if !login_issues_tokens(candidate, check, config) {
        login_answer(candidate, check, config)
    } else if now.seconds < 0 {
        LoginDecisionView::InternalError
    } else {
        login_decision(
            candidate,
            check,
            config,
            registry,
            now.seconds as u64,
            access_jti,
            refresh_jti,
        )
    }
}

/// Decides a login, given what checking the password gave, what the clock
/// read and the token ids drawn.
pub fn login_from(
    storage: &AdminStorage,
    jwt_service: &JwtService,
    config: &Config,
    request: &LoginRequest,
    check: PasswordCheck,
    now: Timestamp,
    access_jti: String,
    refresh_jti: String,
) -> (decision: LoginDecision)
    requires
        storage.wf(),
    ensures
        decision@ == login_decision_from(
            login_candidate_of(storage@, request.email@),
            check,
            config@,
            storage@.registry,
            now,
            access_jti@,
            refresh_jti@,
        ),
{
    let candidate = login_candidate(storage, request);
    let issues_tokens = match candidate {
        Some(user) => match check {
            PasswordCheck::Valid => !(config.security.require_mfa && user.mfa_secret.is_some()),
            _ => false,
        },
        None => false,
    };
    if !issues_tokens {
        return answer_without_tokens(candidate, check);
    }
    if now.seconds < 0 {
        return LoginDecision::InternalError;
    }
    login_at(
        storage,
        jwt_service,
        config,
        request,
        check,
        now.seconds as u64,
        access_jti,
        refresh_jti,
    )
}

/// Decides a login now: finds the user, checks the password against the
/// user's hash, reads the clock, draws two token ids, and decides as
/// `login_from` does. A login that does not come to issuing tokens gets its
/// answer whatever the clock says.
pub fn login(
    storage: &AdminStorage,
    jwt_service: &JwtService,
    config: &Config,
    request: &LoginRequest,
) -> (decision: LoginDecision)
    requires
        storage.wf(),
    ensures
        ({
            let candidate = login_candidate_of(storage@, request.email@);
            let check = login_check_of(candidate, request.password@);
            if login_issues_tokens(candidate, check, config@) {
                decision is InternalError || exists|
                    now: u64,
                    access_jti: Seq<char>,
                    refresh_jti: Seq<char>,
                |
                    decision@ == login_decision(
                        candidate,
                        check,
                        config@,
                        storage@.registry,
                        now,
                        access_jti,
                        refresh_jti,
                    )
            } else {
                decision@ == login_answer(candidate, check, config@)
            }
        }),
{
    let check = match login_candidate(storage, request) {
        Some(user) => verify_password(request.password.as_str(), user.password_hash.as_str()),
        None => PasswordCheck::Invalid,
    };
    login_from(
        storage,
        jwt_service,
        config,
        request,
        check,
        clock_now(),
        random_uuid(),
        random_uuid(),
    )
}

/// The answer to a login whose tokens were signed.
pub fn login_success(access_token: String, refresh_token: String, config: &Config) -> (response:
    LoginResponse)
    ensures
        response@ == welcome(access_token@, refresh_token@, config@),
{
    LoginResponse {
        success: true,
        access_token: Some(access_token),
        refresh_token: Some(refresh_token),
        expires_in: Some(config.security.access_token_ttl),
        requires_mfa: false,
        mfa_session: None,
        redirect_to: Some(config.instance.admin_client_url.clone()),
    }
}

} // verus!
