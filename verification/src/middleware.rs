//! The guard in front of protected routes, and the request log's choice of level.

use crate::clock::unix_now;
use crate::text::has_prefix;
use crate::token::{accepted_claims, verdict, Claims, ClaimsView, TokenError, TokenIssuer};
use vstd::prelude::*;
use vstd::string::*;

verus! {

/// What a request brought under `Authorization`.
#[derive(Debug, Clone)]
pub enum AuthorizationHeader {
    /// The request has no such header.
    Missing,
    /// The header is there, but its value is not text.
    Unreadable,
    /// The header's value.
    Value(String),
}

/// The mathematical value of an `AuthorizationHeader`.
pub enum AuthorizationHeaderView {
    Missing,
    Unreadable,
    Value(Seq<char>),
}

impl View for AuthorizationHeader {
    type V = AuthorizationHeaderView;

    open spec fn view(&self) -> AuthorizationHeaderView {
        match self {
            AuthorizationHeader::Missing => AuthorizationHeaderView::Missing,
            AuthorizationHeader::Unreadable => AuthorizationHeaderView::Unreadable,
            AuthorizationHeader::Value(text) => AuthorizationHeaderView::Value(text@),
        }
    }
}

/// The guard's refusal, with the message for the caller.
#[derive(Debug, Clone)]
pub struct Unauthorized {
    pub message: String,
}

/// The token of a header value of the form `Bearer <token>`: what follows the prefix,
/// which is matched letter for letter and ends with its one space.
pub open spec fn bearer_token(header: Seq<char>) -> Option<Seq<char>> {
    if "Bearer "@.is_prefix_of(header) {
        Some(header.skip("Bearer "@.len() as int))
    } else {
        None
    }
}

/// The message that a token's refusal is reported with.
pub open spec fn refusal_message(error: TokenError) -> Seq<char> {
    match error {
        TokenError::Expired => "token expired"@,
        _ => "invalid token"@,
    }
}

/// The guard's decision at `now`: the claims to attach to the request, or the message to
/// refuse it with. Only a header of the right form gets its token looked at.
pub open spec fn guard_verdict(header: AuthorizationHeaderView, secret: Seq<u8>, now: i64) -> Result<
    ClaimsView,
    Seq<char>,
> {
    match header {
        AuthorizationHeaderView::Missing => Err("no authorization header"@),
        AuthorizationHeaderView::Unreadable => Err("invalid header format"@),
        AuthorizationHeaderView::Value(text) => match bearer_token(text) {
            None => Err("invalid header format"@),
            Some(token) => match verdict(accepted_claims(token, secret), now) {
                Ok(claims) => Ok(claims),
                Err(error) => Err(refusal_message(error)),
            },
        },
    }
}

/// Takes the token out of a header value, if the value starts with `Bearer` and a space.
pub fn bearer_token_of<'a>(header: &'a str) -> (token: Option<&'a str>)
    ensures
        match token {
            Some(found) => bearer_token(header@) == Some(found@),
            None => bearer_token(header@) is None,
        },
{
    proof {
        reveal_strlit("Bearer ");
    }
    if has_prefix(header, "Bearer ") {
        Some(header.substring_char(7, header.unicode_len()))
    } else {
        None
    }
}

/// The refusal that a failed verification is turned into.
pub fn refusal(error: TokenError) -> (refused: Unauthorized)
    ensures
        refused.message@ == refusal_message(error),
{
    match error {
        TokenError::Expired => Unauthorized { message: String::from_str("token expired") },
        _ => Unauthorized { message: String::from_str("invalid token") },
    }
}

/// Makes the guard for a service: it holds the issuer whose tokens open the guard.
pub struct AuthMiddleware {
    issuer: TokenIssuer,
}

impl AuthMiddleware {
    pub closed spec fn secret(&self) -> Seq<u8> {
        self.issuer.secret()
    }

    /// The guard for the tokens of `issuer`.
    pub fn new(issuer: TokenIssuer) -> (middleware: AuthMiddleware)
        ensures
            middleware.secret() == issuer.secret(),
    {
        AuthMiddleware { issuer }
    }

    /// Puts the guard in front of `service`.
    pub fn new_transform<S>(&self, service: S) -> (guarded: AuthMiddlewareService<S>)
        ensures
            guarded.secret() == self.secret(),
            guarded.inner() == service,
    {
        AuthMiddlewareService { service, issuer: self.issuer.duplicate() }
    }
}

/// A service behind the guard. The guard decides on each request's `Authorization` header;
/// whoever runs the request hands the service the claims, or answers with the refusal and
/// leaves the service alone.
pub struct AuthMiddlewareService<S> {
    service: S,
    issuer: TokenIssuer,
}

impl<S> AuthMiddlewareService<S> {
    pub closed spec fn secret(&self) -> Seq<u8> {
        self.issuer.secret()
    }

    pub closed spec fn inner(&self) -> S {
        self.service
    }

    /// The service behind the guard.
    pub fn service(&self) -> (service: &S)
        ensures
            *service == self.inner(),
    {
        &self.service
    }

    /// Decides on a request at `now`, as `guard_verdict` says.
    pub fn authorize_at(&self, header: &AuthorizationHeader, now: i64) -> (outcome: Result<
        Claims,
        Unauthorized,
    >)
        ensures
            match outcome {
                Ok(claims) => guard_verdict(header@, self.secret(), now) == Ok::<ClaimsView, Seq<char>>(
                    claims@,
                ),
                Err(refused) => guard_verdict(header@, self.secret(), now) == Err::<
                    ClaimsView,
                    Seq<char>,
                >(refused.message@),
            },
    {
        match header {
            AuthorizationHeader::Missing => Err(
                Unauthorized { message: String::from_str("no authorization header") },
            ),
            AuthorizationHeader::Unreadable => Err(
                Unauthorized { message: String::from_str("invalid header format") },
            ),
            AuthorizationHeader::Value(text) => match bearer_token_of(text.as_str()) {
                None => Err(Unauthorized { message: String::from_str("invalid header format") }),
                Some(token) => match self.issuer.verify_token_at(token, now) {
                    Ok(claims) => Ok(claims),
                    Err(error) => Err(refusal(error)),
                },
            },
        }
    }

    /// `authorize_at` with the time read from the wall clock.
    pub fn authorize(&self, header: &AuthorizationHeader) -> (outcome: Result<Claims, Unauthorized>)
        ensures
            exists|now: i64|
                0 <= now && match outcome {
                    Ok(claims) => #[trigger] guard_verdict(header@, self.secret(), now) == Ok::<
                        ClaimsView,
                        Seq<char>,
                    >(claims@),
                    Err(refused) => guard_verdict(header@, self.secret(), now) == Err::<
                        ClaimsView,
                        Seq<char>,
                    >(refused.message@),
                },
    {
        let now: i64 = unix_now();
        self.authorize_at(header, now)
    }
}

/// The level at which a finished request is logged.
#[derive(Debug, Clone, Copy, PartialEq, Eq, Structural)]
pub enum LogLevel {
    Info,
    Warn,
}

/// A request that ended with a status from 200 to 299 is logged as information, any
/// other as a warning.
pub open spec fn level_of(status: u16) -> LogLevel {
    if 200 <= status < 300 {
        LogLevel::Info
    } else {
        LogLevel::Warn
    }
}

/// Makes the request log for a service.
#[derive(Debug, Clone, Copy)]
pub struct LoggingMiddleware {}

impl Default for LoggingMiddleware {
    fn default() -> (made: LoggingMiddleware)
        ensures
            made == (LoggingMiddleware {  }),
    {
        LoggingMiddleware {  }
    }
}

impl LoggingMiddleware {
    pub fn new() -> LoggingMiddleware {
        LoggingMiddleware {  }
    }

    /// Puts the request log in front of `service`.
    pub fn new_transform<S>(&self, service: S) -> (logged: LoggingMiddlewareService<S>)
        ensures
            logged.inner() == service,
    {
        LoggingMiddlewareService { service }
    }
}

/// A service whose requests are logged when they finish.
pub struct LoggingMiddlewareService<S> {
    service: S,
}

impl<S> LoggingMiddlewareService<S> {
    pub closed spec fn inner(&self) -> S {
        self.service
    }

    /// The service whose requests are logged.
    pub fn service(&self) -> (service: &S)
        ensures
            *service == self.inner(),
    {
        &self.service
    }

    /// The level for a request that ended with `status`.
    pub fn level_for(&self, status: u16) -> (level: LogLevel)
        ensures
            level == level_of(status),
    {
        if 200 <= status && status < 300 {
            LogLevel::Info
        } else {
            LogLevel::Warn
        }
    }
}

} // verus!
