//! The token service: which claims a token carries, and what a failed
//! verification means.
//!
//! Signing and checking signatures is done outside, by whoever drives the
//! service: this module makes the claims that are signed, and judges what
//! came back from a verification.

use crate::claims::{filter_allowed_claims, filtered_claims};
use crate::entries::{entries_map, Entry};
use crate::models::{
    clone_strings, contains_string, ClaimValue, ClaimValueView, Timestamp, User, UserView,
};
use crate::models::all_scope;
use crate::outside::{clock_now, random_uuid};
use crate::registry::{ClaimDefinitionView, ClaimsRegistry};
use vstd::prelude::*;

verus! {

/// The claims of an issued token.
#[derive(Debug)]
pub struct Claims {
    /// Subject: the user's id.
    pub sub: String,
    pub email: String,
    /// Display name.
    pub name: String,
    /// Primary organization.
    pub org: String,
    /// Admin scopes.
    pub admin: Vec<String>,
    /// The custom claims that the registry lets the user carry.
    pub user_claims: Vec<Entry<ClaimValue>>,
    /// Issuer.
    pub iss: String,
    /// Audience.
    pub aud: Vec<String>,
    /// Expiry, in seconds since the Unix epoch.
    pub exp: u64,
    /// Time of issue, in seconds since the Unix epoch.
    pub iat: u64,
    /// Token id.
    pub jti: String,
}

pub struct ClaimsView {
    pub sub: Seq<char>,
    pub email: Seq<char>,
    pub name: Seq<char>,
    pub org: Seq<char>,
    pub admin: Seq<Seq<char>>,
    pub user_claims: Map<Seq<char>, ClaimValueView>,
    pub iss: Seq<char>,
    pub aud: Seq<Seq<char>>,
    pub exp: u64,
    pub iat: u64,
    pub jti: Seq<char>,
}

impl View for Claims {
    type V = ClaimsView;

    open spec fn view(&self) -> ClaimsView {
        ClaimsView {
            sub: self.sub@,
            email: self.email@,
            name: self.name@,
            org: self.org@,
            admin: self.admin.deep_view(),
            user_claims: entries_map(self.user_claims@),
            iss: self.iss@,
            aud: self.aud.deep_view(),
            exp: self.exp,
            iat: self.iat,
            jti: self.jti@,
        }
    }
}

/// How tokens are signed.
#[derive(Clone, Copy, Debug, PartialEq, Eq, Structural)]
pub enum SigningAlgorithm {
    /// HMAC with SHA-256, under a shared secret.
    HS256,
}

/// What a verification checks besides the signature.
#[derive(Clone, Copy, Debug, PartialEq, Eq, Structural)]
pub struct ValidationPolicy {
    pub algorithm: SigningAlgorithm,
    /// The expiry is checked.
    pub validate_exp: bool,
    /// The audience is not checked here: that is left to the caller.
    pub validate_aud: bool,
}

/// Why a token was not accepted, as the verifier reports it.
#[derive(Clone, Copy, Debug, PartialEq, Eq, Structural)]
pub enum DecodeFailure {
    InvalidToken,
    InvalidSignature,
    InvalidEcdsaKey,
    InvalidRsaKey,
    RsaFailedSigning,
    InvalidAlgorithmName,
    InvalidKeyFormat,
    MissingRequiredClaim,
    ExpiredSignature,
    InvalidIssuer,
    InvalidAudience,
    InvalidSubject,
    ImmatureSignature,
    InvalidAlgorithm,
    MissingAlgorithm,
    Base64,
    Json,
    Utf8,
    Crypto,
    /// A kind that this library has no name for.
    Other,
}

/// Why the token service refused.
#[derive(Clone, Copy, Debug, PartialEq, Eq, Structural)]
pub enum TokenError {
    /// The token is not a token of this service in shape or content.
    Malformed,
    /// The signature does not match.
    SignatureInvalid,
    /// The token has expired.
    Expired,
    /// The time of issue is before the epoch, or the expiry is beyond what a
    /// token can say.
    InvalidLifetime,
}

/// What a failed verification means to the caller.
pub open spec fn failure_meaning(failure: DecodeFailure) -> TokenError {
    match failure {
        DecodeFailure::ExpiredSignature => TokenError::Expired,
        DecodeFailure::InvalidSignature => TokenError::SignatureInvalid,
        _ => TokenError::Malformed,
    }
}

/// The claims of a token issued to `user` at `now` for `expires_in` seconds.
/// The custom claims are those that pass the claims filter; everything else
/// is copied from the user and the request.
pub open spec fn issued_claims(
    user: UserView,
    registry: Map<Seq<char>, ClaimDefinitionView>,
    audience: Seq<Seq<char>>,
    issuer: Seq<char>,
    expires_in: u64,
    now: u64,
    jti: Seq<char>,
) -> ClaimsView {
    ClaimsView {
        sub: user.id,
        email: user.email,
        name: user.full_name(),
        org: user.org,
        admin: user.admin,
        user_claims: filtered_claims(user.claims, user.admin, registry),
        iss: issuer,
        aud: audience,
        exp: (now + expires_in) as u64,
        iat: now,
        jti,
    }
}

/// What a failed verification means to the caller.
pub fn classify_failure(failure: DecodeFailure) -> (error: TokenError)
    ensures
        error == failure_meaning(failure),
{
    match failure {
        DecodeFailure::ExpiredSignature => TokenError::Expired,
        DecodeFailure::InvalidSignature => TokenError::SignatureInvalid,
        _ => TokenError::Malformed,
    }
}

/// Issues and verifies tokens under one shared secret.
#[derive(Debug)]
pub struct JwtService {
    secret: String,
    algorithm: SigningAlgorithm,
}

impl JwtService {
    /// The secret that tokens are signed with.
    pub closed spec fn secret_view(&self) -> Seq<char> {
        self.secret@
    }

    pub fn new(secret: &str) -> (service: JwtService)
        ensures
            service.secret_view() == secret@,
    {
        JwtService { secret: secret.to_owned(), algorithm: SigningAlgorithm::HS256 }
    }

    pub fn secret(&self) -> (secret: &str)
        ensures
            secret@ == self.secret_view(),
    {
        self.secret.as_str()
    }

    pub fn algorithm(&self) -> (algorithm: SigningAlgorithm)
        ensures
            algorithm == SigningAlgorithm::HS256,
    {
        SigningAlgorithm::HS256
    }

    /// What a verification is to check: the signature under the configured
    /// algorithm and the expiry, not the audience.
    pub fn validation(&self) -> (policy: ValidationPolicy)
        ensures
            policy == (ValidationPolicy {
                algorithm: SigningAlgorithm::HS256,
                validate_exp: true,
                validate_aud: false,
            }),
    {
        ValidationPolicy {
            algorithm: SigningAlgorithm::HS256,
            validate_exp: true,
            validate_aud: false,
        }
    }

    /// The claims of a token issued at `now` under the id `jti`.
    pub fn create_token_at(
        &self,
        user: &User,
        claims_registry: &ClaimsRegistry,
        audience: Vec<String>,
        issuer: &str,
        expires_in: u64,
        now: u64,
        jti: String,
    ) -> (result: Result<Claims, TokenError>)
        ensures
            now + expires_in > u64::MAX ==> result == Err::<Claims, TokenError>(
                TokenError::InvalidLifetime,
            ),
            now + expires_in <= u64::MAX ==> result is Ok && result->Ok_0@ == issued_claims(
                user@,
                claims_registry@,
                audience.deep_view(),
                issuer@,
                expires_in,
                now,
                jti@,
            ),
    {
        let exp = match now.checked_add(expires_in) {
            Some(exp) => exp,
            None => {
                return Err(TokenError::InvalidLifetime);
            },
        };
        let allowed_claims = filter_allowed_claims(user, claims_registry);
        Ok(
            Claims {
                sub: user.id.clone(),
                email: user.email.clone(),
                name: user.full_name(),
                org: user.org.clone(),
                admin: clone_strings(&user.admin),
                user_claims: allowed_claims,
                iss: issuer.to_owned(),
                aud: audience,
                exp,
                iat: now,
                jti,
            },
        )
    }

    /// The claims of a token issued at the clock reading `now` under the id
    /// `jti`. A reading before the epoch, or an expiry beyond what a token
    /// can say, is an invalid lifetime; any other reading gives the token
    /// of its second.
    pub fn create_token_from(
        &self,
        user: &User,
        claims_registry: &ClaimsRegistry,
        audience: Vec<String>,
        issuer: &str,
        expires_in: u64,
        now: Timestamp,
        jti: String,
    ) -> (result: Result<Claims, TokenError>)
        ensures
            now.seconds < 0 || now.seconds + expires_in > u64::MAX ==> result == Err::<
                Claims,
                TokenError,
            >(TokenError::InvalidLifetime),
            0 <= now.seconds && now.seconds + expires_in <= u64::MAX ==> result is Ok
                && result->Ok_0@ == issued_claims(
                user@,
                claims_registry@,
                audience.deep_view(),
                issuer@,
                expires_in,
                now.seconds as u64,
                jti@,
            ),
    {
        if now.seconds < 0 {
            return Err(TokenError::InvalidLifetime);
        }
        self.create_token_at(
            user,
            claims_registry,
            audience,
            issuer,
            expires_in,
            now.seconds as u64,
            jti,
        )
    }

    /// The claims of a token issued now, under a fresh random id.
    pub fn create_token(
        &self,
        user: &User,
        claims_registry: &ClaimsRegistry,
        audience: Vec<String>,
        issuer: &str,
        expires_in: u64,
    ) -> (result: Result<Claims, TokenError>)
        ensures
            result is Ok ==> result->Ok_0.iat + expires_in <= u64::MAX && result->Ok_0@
                == issued_claims(
                user@,
                claims_registry@,
                audience.deep_view(),
                issuer@,
                expires_in,
                result->Ok_0.iat,
                result->Ok_0.jti@,
            ),
            result is Err ==> result->Err_0 == TokenError::InvalidLifetime,
    {
        self.create_token_from(
            user,
            claims_registry,
            audience,
            issuer,
            expires_in,
            clock_now(),
            random_uuid(),
        )
    }

    /// Judges what a verification gave: the claims of an accepted token, or
    /// what the failure means to the caller.
    pub fn verify_token(&self, decoded: Result<Claims, DecodeFailure>) -> (result: Result<
        Claims,
        TokenError,
    >)
        ensures
            result == match decoded {
                Ok(claims) => Ok::<Claims, TokenError>(claims),
                Err(failure) => Err(failure_meaning(failure)),
            },
    {
        match decoded {
            Ok(claims) => Ok(claims),
            Err(failure) => Err(classify_failure(failure)),
        }
    }

    /// A fresh token for `user`, given against a refresh token that was
    /// verified outside. The claims are made from the user and the registry
    /// as they are now, not as they were when the refresh token was made.
    pub fn refresh_token_at(
        &self,
        decoded_refresh: Result<Claims, DecodeFailure>,
        user: &User,
        claims_registry: &ClaimsRegistry,
        audience: Vec<String>,
        issuer: &str,
        expires_in: u64,
        now: u64,
        jti: String,
    ) -> (result: Result<Claims, TokenError>)
        ensures
            match decoded_refresh {
                Err(failure) => result == Err::<Claims, TokenError>(failure_meaning(failure)),
                Ok(_) => {
                    &&& now + expires_in > u64::MAX ==> result == Err::<Claims, TokenError>(
                        TokenError::InvalidLifetime,
                    )
                    &&& now + expires_in <= u64::MAX ==> result is Ok && result->Ok_0@
                        == issued_claims(
                        user@,
                        claims_registry@,
                        audience.deep_view(),
                        issuer@,
                        expires_in,
                        now,
                        jti@,
                    )
                },
            },
    {
        match self.verify_token(decoded_refresh) {
            Err(error) => Err(error),
            Ok(_) => self.create_token_at(
                user,
                claims_registry,
                audience,
                issuer,
                expires_in,
                now,
                jti,
            ),
        }
    }

    /// A fresh token for `user`, issued at the clock reading `now`, given
    /// against a refresh token that was verified outside. A refresh token
    /// that did not verify is refused whatever the clock says.
    pub fn refresh_token_from(
        &self,
        decoded_refresh: Result<Claims, DecodeFailure>,
        user: &User,
        claims_registry: &ClaimsRegistry,
        audience: Vec<String>,
        issuer: &str,
        expires_in: u64,
        now: Timestamp,
        jti: String,
    ) -> (result: Result<Claims, TokenError>)
        ensures
            match decoded_refresh {
                Err(failure) => result == Err::<Claims, TokenError>(failure_meaning(failure)),
                Ok(_) => {
                    &&& now.seconds < 0 || now.seconds + expires_in > u64::MAX ==> result
                        == Err::<Claims, TokenError>(TokenError::InvalidLifetime)
                    &&& 0 <= now.seconds && now.seconds + expires_in <= u64::MAX ==> result is Ok
                        && result->Ok_0@ == issued_claims(
                        user@,
                        claims_registry@,
                        audience.deep_view(),
                        issuer@,
                        expires_in,
                        now.seconds as u64,
                        jti@,
                    )
                },
            },
    {
        match self.verify_token(decoded_refresh) {
            Err(error) => Err(error),
            Ok(_) => self.create_token_from(
                user,
                claims_registry,
                audience,
                issuer,
                expires_in,
                now,
                jti,
            ),
        }
    }

    /// A fresh token for `user`, issued now, given against a refresh token
    /// that was verified outside.
    pub fn refresh_token(
        &self,
        decoded_refresh: Result<Claims, DecodeFailure>,
        user: &User,
        claims_registry: &ClaimsRegistry,
        audience: Vec<String>,
        issuer: &str,
        expires_in: u64,
    ) -> (result: Result<Claims, TokenError>)
        ensures
            match decoded_refresh {
                Err(failure) => result == Err::<Claims, TokenError>(failure_meaning(failure)),
                Ok(_) => {
                    &&& result is Ok ==> result->Ok_0.iat + expires_in <= u64::MAX
                        && result->Ok_0@ == issued_claims(
                        user@,
                        claims_registry@,
                        audience.deep_view(),
                        issuer@,
                        expires_in,
                        result->Ok_0.iat,
                        result->Ok_0.jti@,
                    )
                    &&& result is Err ==> result->Err_0 == TokenError::InvalidLifetime
                },
            },
    {
        self.refresh_token_from(
            decoded_refresh,
            user,
            claims_registry,
            audience,
            issuer,
            expires_in,
            clock_now(),
            random_uuid(),
        )
    }
}

/// Verifies tokens, and reads admin rights off their claims.
#[derive(Debug)]
pub struct JwtVerifier {
    secret: String,
    algorithm: SigningAlgorithm,
}

impl JwtVerifier {
    /// The secret that tokens are checked against.
    pub closed spec fn secret_view(&self) -> Seq<char> {
        self.secret@
    }

    pub fn new(secret: &str) -> (verifier: JwtVerifier)
        ensures
            verifier.secret_view() == secret@,
    {
        JwtVerifier { secret: secret.to_owned(), algorithm: SigningAlgorithm::HS256 }
    }

    pub fn secret(&self) -> (secret: &str)
        ensures
            secret@ == self.secret_view(),
    {
        self.secret.as_str()
    }

    /// What a verification is to check: the signature under the configured
    /// algorithm and the expiry, not the audience.
    pub fn validation(&self) -> (policy: ValidationPolicy)
        ensures
            policy == (ValidationPolicy {
                algorithm: SigningAlgorithm::HS256,
                validate_exp: true,
                validate_aud: false,
            }),
    {
        ValidationPolicy {
            algorithm: SigningAlgorithm::HS256,
            validate_exp: true,
            validate_aud: false,
        }
    }

    /// Judges what a verification gave.
    pub fn verify_token(&self, decoded: Result<Claims, DecodeFailure>) -> (result: Result<
        Claims,
        TokenError,
    >)
        ensures
            result == match decoded {
                Ok(claims) => Ok::<Claims, TokenError>(claims),
                Err(failure) => Err(failure_meaning(failure)),
            },
    {
        match decoded {
            Ok(claims) => Ok(claims),
            Err(failure) => Err(classify_failure(failure)),
        }
    }

    /// The token's subject holds some admin scope.
    pub fn has_admin_role(&self, claims: &Claims) -> (admin: bool)
        ensures
            admin == (claims@.admin.len() > 0),
    {
        claims.admin.len() > 0
    }

    /// The token's subject holds the scope `all`.
    pub fn has_write_permission(&self, claims: &Claims) -> (write: bool)
        ensures
            write == claims@.admin.contains(all_scope()),
    {
        contains_string(&claims.admin, "all")
    }
}

/// What becomes of a request to the administrative interface.
#[derive(Debug)]
pub enum AdminGate {
    /// Let it through, with the claims of its token.
    Allow(Claims),
    /// Send the browser to the login page.
    RedirectToLogin,
    /// Refuse: no token, or none that verifies.
    Unauthorized,
    /// Refuse: the token's subject holds no admin scope.
    Forbidden,
}

pub enum AdminGateView {
    Allow(ClaimsView),
    RedirectToLogin,
    Unauthorized,
    Forbidden,
}

impl View for AdminGate {
    type V = AdminGateView;

    open spec fn view(&self) -> AdminGateView {
        match self {
            AdminGate::Allow(claims) => AdminGateView::Allow(claims@),
            AdminGate::RedirectToLogin => AdminGateView::RedirectToLogin,
            AdminGate::Unauthorized => AdminGateView::Unauthorized,
            AdminGate::Forbidden => AdminGateView::Forbidden,
        }
    }
}

impl JwtVerifier {
    /// Decides what becomes of a request to the administrative interface.
    /// `decoded` is what verifying the request's token gave, or nothing
    /// where the request carried no token. A request without a token is
    /// sent to the login page if it comes from a browser and is no call of
    /// the API; any other request without a token that verifies is
    /// unauthorized. A verified token lets the request through if its
    /// subject holds some admin scope.
    pub fn require_admin(
        &self,
        decoded: Option<Result<Claims, DecodeFailure>>,
        from_browser: bool,
        api_path: bool,
    ) -> (gate: AdminGate)
        ensures
            gate@ == match decoded {
                None => if from_browser && !api_path {
                    AdminGateView::RedirectToLogin
                } else {
                    AdminGateView::Unauthorized
                },
                Some(Err(_)) => AdminGateView::Unauthorized,
                Some(Ok(claims)) => if claims@.admin.len() > 0 {
                    AdminGateView::Allow(claims@)
                } else {
                    AdminGateView::Forbidden
                },
            },
    {
        match decoded {
            None => {
                if from_browser && !api_path {
                    AdminGate::RedirectToLogin
                } else {
                    AdminGate::Unauthorized
                }
            },
            Some(outcome) => match self.verify_token(outcome) {
                Err(_) => AdminGate::Unauthorized,
                Ok(claims) => {
                    if self.has_admin_role(&claims) {
                        AdminGate::Allow(claims)
                    } else {
                        AdminGate::Forbidden
                    }
                },
            },
        }
    }
}

/// A token never carries a claim that the registry does not define.
pub proof fn lemma_token_carries_known_claims(
    user: UserView,
    registry: Map<Seq<char>, ClaimDefinitionView>,
    audience: Seq<Seq<char>>,
    issuer: Seq<char>,
    expires_in: u64,
    now: u64,
    jti: Seq<char>,
    key: Seq<char>,
)
    requires
        !registry.dom().contains(key),
    ensures
        ({
            let claims = issued_claims(user, registry, audience, issuer, expires_in, now, jti);
            !claims.user_claims.dom().contains(key)
        }),
{
}

} // verus!
