//! Login and registration: the limiter, the hasher and the issuer in their order.

use crate::clock::unix_now;
use crate::error::{rate_limit_message, AppError, AppErrorView};
use crate::password::{bcrypt_verdict, hash_password, matches_hash, verify_password, HashFailure};
use crate::rate_limiter::{admits, after_check, lemma_new_key_is_admitted, recent, RateLimiter};
use crate::text::joined;
use crate::token::{is_issued, TokenIssuer, TOKEN_TTL_SECS};
use crate::user::{is_random_uuid, User};
use vstd::prelude::*;
use vstd::string::*;

verus! {

/// How a login attempt stands once the store has answered and the password was checked.
pub enum Authentication {
    /// The store could not be asked; its reason is kept.
    StoreFailed(Seq<char>),
    /// The store holds no account for the identifier.
    UnknownIdentifier,
    /// The stored hash is not one that the hasher accepts.
    HashRefused,
    /// The password does not match the stored hash.
    WrongPassword,
    /// The password matches.
    Verified,
}

/// Where an attempt stands, from the store's answer and the password given.
pub open spec fn authentication_of(found: Result<Option<User>, String>, password: Seq<char>) -> Authentication {
    match found {
        Err(reason) => Authentication::StoreFailed(reason@),
        Ok(None) => Authentication::UnknownIdentifier,
        Ok(Some(user)) => match bcrypt_verdict(password, user.password_hash@) {
            None => Authentication::HashRefused,
            Some(false) => Authentication::WrongPassword,
            Some(true) => Authentication::Verified,
        },
    }
}

/// Whether `error` is the failure that an attempt standing at `authentication` is
/// answered with. An unknown identifier and a wrong password get one and the same
/// answer; a verified attempt gets none.
pub open spec fn is_rejection(authentication: Authentication, error: AppErrorView) -> bool {
    match authentication {
        Authentication::StoreFailed(reason) => error == AppErrorView::InternalError(
            "Database error: "@ + reason,
        ),
        Authentication::UnknownIdentifier => error == AppErrorView::AuthenticationError(
            "invalid credentials"@,
        ),
        Authentication::WrongPassword => error == AppErrorView::AuthenticationError(
            "invalid credentials"@,
        ),
        Authentication::HashRefused => error matches AppErrorView::InternalError(message)
            && "Password verification error: "@.is_prefix_of(message),
        Authentication::Verified => false,
    }
}

/// The answer to an attempt whose password was checked against the account's hash: the
/// account on a match, `invalid credentials` on a mismatch, an internal failure where the
/// hasher failed.
pub fn authentication_outcome(user: User, checked: Result<bool, HashFailure>) -> (outcome: Result<
    User,
    AppError,
>)
    ensures
        match checked {
            Ok(true) => outcome == Ok::<User, AppError>(user),
            Ok(false) => outcome matches Err(error) && error@ == AppErrorView::AuthenticationError(
                "invalid credentials"@,
            ),
            Err(failure) => outcome matches Err(error) && error@ == AppErrorView::InternalError(
                "Password verification error: "@ + failure.reason@,
            ),
        },
{
    match checked {
        Ok(true) => Ok(user),
        Ok(false) => Err(AppError::authentication("invalid credentials")),
        Err(failure) => Err(
            AppError::InternalError(joined("Password verification error: ", failure.reason.as_str())),
        ),
    }
}

/// Decides on the credentials of a login attempt, given the store's answer for the
/// identifier: the account if the password matches its hash, else the rejection.
pub fn authenticate_user(found: Result<Option<User>, String>, password: &str) -> (outcome: Result<
    User,
    AppError,
>)
    ensures
        match outcome {
            Ok(user) => authentication_of(found, password@) is Verified && found == Ok::<
                Option<User>,
                String,
            >(Some(user)),
            Err(error) => is_rejection(authentication_of(found, password@), error@),
        },
{
    match found {
        Err(reason) => Err(AppError::InternalError(joined("Database error: ", reason.as_str()))),
        Ok(None) => Err(AppError::authentication("invalid credentials")),
        Ok(Some(user)) => {
            let checked = verify_password(password, user.password_hash.as_str());
            proof {
                if checked is Err {
                    let message = "Password verification error: "@ + checked->Err_0.reason@;
                    assert(message.subrange(0, "Password verification error: "@.len() as int)
                        =~= "Password verification error: "@);
                }
            }
            authentication_outcome(user, checked)
        },
    }
}

/// The login flow: it owns the limiter of login attempts and the issuer of tokens.
pub struct AuthService {
    limiter: RateLimiter,
    issuer: TokenIssuer,
}

impl AuthService {
    /// The attempts on record for an identifier.
    pub closed spec fn attempts(&self, key: Seq<char>) -> Seq<u128> {
        self.limiter.recorded(key)
    }

    pub closed spec fn max_attempts(&self) -> usize {
        self.limiter.max_attempts()
    }

    pub closed spec fn window_secs(&self) -> u64 {
        self.limiter.window_secs()
    }

    pub closed spec fn secret(&self) -> Seq<u8> {
        self.issuer.secret()
    }

    /// Well-formedness: that of the limiter.
    pub closed spec fn wf(&self) -> bool {
        self.limiter.wf()
    }

    /// What no step of a login changes: the limits, the secret, and the attempts of every
    /// identifier but `email`.
    pub open spec fn kept(&self, before: &AuthService, email: Seq<char>) -> bool {
        &&& self.max_attempts() == before.max_attempts()
        &&& self.window_secs() == before.window_secs()
        &&& self.secret() == before.secret()
        &&& forall|other: Seq<char>|
            other != email ==> #[trigger] self.attempts(other) == before.attempts(other)
    }

    /// Whether the limiter lets an attempt for `email` at `stamp` through.
    pub open spec fn lets_in(&self, email: Seq<char>, stamp: u128) -> bool {
        admits(self.attempts(email), stamp, self.window_secs(), self.max_attempts())
    }

    /// What the limiter has on record for `email` once it was asked at `stamp`.
    pub open spec fn counted(&self, email: Seq<char>, stamp: u128) -> Seq<u128> {
        after_check(self.attempts(email), stamp, self.window_secs(), self.max_attempts())
    }

    /// The failure that a throttled identifier is answered with.
    pub open spec fn throttled(&self) -> AppErrorView {
        AppErrorView::RateLimitExceeded(rate_limit_message(self.window_secs()), self.window_secs())
    }

    /// Whether `token` is the token of `email` issued at `now` under this service's secret.
    pub open spec fn is_token_for(&self, token: Seq<char>, email: Seq<char>, now: i64) -> bool {
        is_issued(token, self.secret(), email, now)
    }

    /// The first step, from `self` to `after`: the attempt is counted, and let through
    /// exactly if the limiter lets it in.
    pub open spec fn begun(
        &self,
        after: &AuthService,
        email: Seq<char>,
        stamp: u128,
        outcome: Result<(), AppError>,
    ) -> bool {
        &&& after.kept(self, email)
        &&& after.attempts(email) == self.counted(email, stamp)
        &&& match outcome {
            Ok(_) => self.lets_in(email, stamp),
            Err(error) => !self.lets_in(email, stamp) && error@ == self.throttled(),
        }
    }

    /// The last step, from `self` to `after`: a token for `email` issued at `now`, with
    /// the attempts of `email` cleared.
    pub open spec fn granted(
        &self,
        after: &AuthService,
        email: Seq<char>,
        now: i64,
        outcome: Result<String, AppError>,
    ) -> bool {
        &&& after.kept(self, email)
        &&& outcome matches Ok(token) && self.is_token_for(token@, email, now)
        &&& after.attempts(email) == Seq::<u128>::empty()
    }

    /// All that follows the store's answer, from `self` to `after`: for verified
    /// credentials a token, as `granted` says; else the rejection, with the attempts
    /// untouched.
    pub open spec fn completed(
        &self,
        after: &AuthService,
        email: Seq<char>,
        authentication: Authentication,
        now: i64,
        outcome: Result<String, AppError>,
    ) -> bool {
        if authentication is Verified {
            self.granted(after, email, now, outcome)
        } else {
            &&& after.kept(self, email)
            &&& after.attempts(email) == self.attempts(email)
            &&& outcome matches Err(error) && is_rejection(authentication, error@)
        }
    }

    /// What follows the judgement of the credentials, from `self` to `after`: `checked` is
    /// what `authenticate_user` answered. For an account a token, as `granted` says; for a
    /// rejection that rejection, with the attempts untouched.
    pub open spec fn concluded(
        &self,
        after: &AuthService,
        email: Seq<char>,
        checked: Result<User, AppError>,
        now: i64,
        outcome: Result<String, AppError>,
    ) -> bool {
        match checked {
            Ok(_) => self.granted(after, email, now, outcome),
            Err(error) => {
                &&& after.kept(self, email)
                &&& after.attempts(email) == self.attempts(email)
                &&& outcome == Err::<String, AppError>(error)
            },
        }
    }

    /// A whole login, from `self` to `after`. A throttled identifier is refused, whatever
    /// its credentials are. One that is let in gets a token if its credentials are
    /// verified, and its attempts are cleared; else it gets the rejection, and the attempts
    /// stand as they do once this one was counted.
    pub open spec fn logged_in(
        &self,
        after: &AuthService,
        email: Seq<char>,
        authentication: Authentication,
        stamp: u128,
        now: i64,
        outcome: Result<String, AppError>,
    ) -> bool {
        &&& after.kept(self, email)
        &&& if !self.lets_in(email, stamp) {
            &&& outcome matches Err(error) && error@ == self.throttled()
            &&& after.attempts(email) == self.counted(email, stamp)
        } else if authentication is Verified {
            &&& outcome matches Ok(token) && self.is_token_for(token@, email, now)
            &&& after.attempts(email) == Seq::<u128>::empty()
        } else {
            &&& outcome matches Err(error) && is_rejection(authentication, error@)
            &&& after.attempts(email) == self.counted(email, stamp)
        }
    }

    /// The login flow over an issuer and a limiter, with whatever the limiter has on record.
    pub fn new(issuer: TokenIssuer, limiter: RateLimiter) -> (service: AuthService)
        requires
            limiter.wf(),
        ensures
            service.wf(),
            service.secret() == issuer.secret(),
            service.max_attempts() == limiter.max_attempts(),
            service.window_secs() == limiter.window_secs(),
            forall|key: Seq<char>| #[trigger] service.attempts(key) == limiter.recorded(key),
    {
        AuthService { limiter, issuer }
    }

    /// First step of a login, before the store is asked: counts the attempt at `stamp` on
    /// the limiter's clock, and refuses it if the identifier is throttled.
    pub fn begin_login_at(&mut self, email: &str, stamp: u128) -> (outcome: Result<(), AppError>)
        requires
            old(self).wf(),
        ensures
            final(self).wf(),
            old(self).begun(final(self), email@, stamp, outcome),
    {
        match self.limiter.check_at(email, stamp) {
            Ok(_) => Ok(()),
            Err(limited) => Err(AppError::too_many_attempts(limited)),
        }
    }

    /// `begin_login_at` with the stamp read from the limiter's clock.
    pub fn begin_login(&mut self, email: &str) -> (outcome: Result<(), AppError>)
        requires
            old(self).wf(),
        ensures
            final(self).wf(),
            exists|stamp: u128| #[trigger] old(self).begun(final(self), email@, stamp, outcome),
    {
        let stamp: u128 = self.limiter.now();
        self.begin_login_at(email, stamp)
    }

    /// The last step of a login, for an identifier whose credentials were found good:
    /// issues its token at `now`, and only then clears its attempts.
    pub fn grant_token_at(&mut self, email: &str, now: i64) -> (outcome: Result<String, AppError>)
        requires
            old(self).wf(),
            now + TOKEN_TTL_SECS <= i64::MAX,
        ensures
            final(self).wf(),
            old(self).granted(final(self), email@, now, outcome),
    {
        match self.issuer.generate_token_at(email, now) {
            Ok(token) => {
                self.limiter.reset(email);
                Ok(token)
            },
            Err(_) => Err(AppError::internal("Token generation error")),
        }
    }

    /// `grant_token_at` with the time read from the wall clock.
    pub fn grant_token(&mut self, email: &str) -> (outcome: Result<String, AppError>)
        requires
            old(self).wf(),
        ensures
            final(self).wf(),
            exists|now: i64| 0 <= now && #[trigger] old(self).granted(final(self), email@, now, outcome),
    {
        let now: i64 = unix_now();
        self.grant_token_at(email, now)
    }

    /// Concludes a login whose credentials were judged, `checked` being what
    /// `authenticate_user` answered: a token at `now` for an account, the rejection else.
    /// The password is hashed by `authenticate_user`, not here: a caller that shares this
    /// service can have it hashed before it takes hold of the service.
    pub fn conclude_login_at(&mut self, email: &str, checked: Result<User, AppError>, now: i64) -> (outcome:
        Result<String, AppError>)
        requires
            old(self).wf(),
            now + TOKEN_TTL_SECS <= i64::MAX,
        ensures
            final(self).wf(),
            old(self).concluded(final(self), email@, checked, now, outcome),
    {
        match checked {
            Ok(_) => self.grant_token_at(email, now),
            Err(error) => Err(error),
        }
    }

    /// `conclude_login_at` with the time read from the wall clock.
    pub fn conclude_login(&mut self, email: &str, checked: Result<User, AppError>) -> (outcome: Result<
        String,
        AppError,
    >)
        requires
            old(self).wf(),
        ensures
            final(self).wf(),
            exists|now: i64|
                0 <= now && #[trigger] old(self).concluded(final(self), email@, checked, now, outcome),
    {
        let now: i64 = unix_now();
        self.conclude_login_at(email, checked, now)
    }

    /// The rest of a login, once the store has answered with `found`: checks the password,
    /// issues a token for the identifier at `now`, and only then clears the identifier's
    /// attempts. Where the credentials are rejected the attempts stay as they are. After
    /// `begin_login` this keeps the order of a login: the limiter is asked before the store.
    pub fn complete_login_at(
        &mut self,
        email: &str,
        password: &str,
        found: Result<Option<User>, String>,
        now: i64,
    ) -> (outcome: Result<String, AppError>)
        requires
            old(self).wf(),
            now + TOKEN_TTL_SECS <= i64::MAX,
        ensures
            final(self).wf(),
            old(self).completed(
                final(self),
                email@,
                authentication_of(found, password@),
                now,
                outcome,
            ),
    {
        self.conclude_login_at(email, authenticate_user(found, password), now)
    }

    /// `complete_login_at` with the time read from the wall clock.
    pub fn complete_login(
        &mut self,
        email: &str,
        password: &str,
        found: Result<Option<User>, String>,
    ) -> (outcome: Result<String, AppError>)
        requires
            old(self).wf(),
        ensures
            final(self).wf(),
            exists|now: i64|
                0 <= now && #[trigger] old(self).completed(
                    final(self),
                    email@,
                    authentication_of(found, password@),
                    now,
                    outcome,
                ),
    {
        let now: i64 = unix_now();
        self.complete_login_at(email, password, found, now)
    }

    /// A whole login, for a caller that has the store's answer at hand: the limiter first,
    /// and nothing else for a throttled identifier, whatever the password; then the
    /// password, the token, and the clearing of the attempts. Its caller has asked the
    /// store before the limiter is asked; only `begin_login` followed by `complete_login`
    /// asks the limiter before the store.
    pub fn login_user_at(
        &mut self,
        email: &str,
        password: &str,
        found: Result<Option<User>, String>,
        stamp: u128,
        now: i64,
    ) -> (outcome: Result<String, AppError>)
        requires
            old(self).wf(),
            now + TOKEN_TTL_SECS <= i64::MAX,
        ensures
            final(self).wf(),
            old(self).logged_in(
                final(self),
                email@,
                authentication_of(found, password@),
                stamp,
                now,
                outcome,
            ),
    {
        match self.begin_login_at(email, stamp) {
            Err(error) => Err(error),
            Ok(_) => self.complete_login_at(email, password, found, now),
        }
    }

    /// `login_user_at` with both times read from the clocks. As there, the store was asked
    /// before the limiter is.
    pub fn login_user(&mut self, email: &str, password: &str, found: Result<Option<User>, String>) -> (outcome:
        Result<String, AppError>)
        requires
            old(self).wf(),
        ensures
            final(self).wf(),
            exists|stamp: u128, now: i64|
                0 <= now && #[trigger] old(self).logged_in(
                    final(self),
                    email@,
                    authentication_of(found, password@),
                    stamp,
                    now,
                    outcome,
                ),
    {
        let stamp: u128 = self.limiter.now();
        let now: i64 = unix_now();
        self.login_user_at(email, password, found, stamp, now)
    }
}

/// Login never tells an unknown identifier from a wrong password: whatever failure
/// answers the one answers the other.
pub proof fn lemma_unknown_and_wrong_look_alike(error: AppErrorView)
    ensures
        is_rejection(Authentication::UnknownIdentifier, error) == is_rejection(
            Authentication::WrongPassword,
            error,
        ),
{
}

/// A throttled identifier is refused with the seconds to wait, whatever the store holds
/// for it and whatever password is given; and the refused attempt is not counted.
pub proof fn lemma_throttled_login_is_refused(
    before: &AuthService,
    after: &AuthService,
    email: Seq<char>,
    authentication: Authentication,
    stamp: u128,
    now: i64,
    outcome: Result<String, AppError>,
)
    requires
        before.logged_in(after, email, authentication, stamp, now, outcome),
        !before.lets_in(email, stamp),
    ensures
        outcome matches Err(error) && error@ == AppErrorView::RateLimitExceeded(
            rate_limit_message(before.window_secs()),
            before.window_secs(),
        ),
        after.attempts(email) == recent(before.attempts(email), stamp, before.window_secs()),
{
}

/// A login with verified credentials that the limiter lets in gives a token: the one
/// issued to the identifier at `now`; and the identifier's attempts are cleared.
pub proof fn lemma_good_login_gives_a_token(
    before: &AuthService,
    after: &AuthService,
    email: Seq<char>,
    stamp: u128,
    now: i64,
    outcome: Result<String, AppError>,
)
    requires
        before.logged_in(after, email, Authentication::Verified, stamp, now, outcome),
        before.lets_in(email, stamp),
    ensures
        outcome matches Ok(token) && is_issued(token@, before.secret(), email, now),
        after.attempts(email) == Seq::<u128>::empty(),
{
}

/// After a login that gave a token, the identifier is let in again at any time, as long
/// as the limiter admits anything at all: good logins in a row each give a token.
pub proof fn lemma_login_clears_the_way(
    before: &AuthService,
    after: &AuthService,
    email: Seq<char>,
    authentication: Authentication,
    stamp: u128,
    now: i64,
    outcome: Result<String, AppError>,
    next: u128,
)
    requires
        before.logged_in(after, email, authentication, stamp, now, outcome),
        outcome is Ok,
        before.max_attempts() > 0,
    ensures
        after.lets_in(email, next),
{
    lemma_new_key_is_admitted(next, after.window_secs(), after.max_attempts());
}

/// The account of a registration, from what the hasher answered for its password: a new
/// account with that hash and the fields given, or an internal failure that carries the
/// hasher's reason.
pub fn prepared_account(
    hashed: Result<String, HashFailure>,
    email: String,
    name: Option<String>,
    address: Option<String>,
    phone: Option<String>,
) -> (outcome: Result<User, AppError>)
    ensures
        match hashed {
            Ok(hash) => outcome matches Ok(user) && user.password_hash == hash && is_random_uuid(
                user.id,
            ) && user.email == email && user.name == name && user.address == address && user.phone
                == phone && user.updated_at is None && user.deleted_at is None,
            Err(failure) => outcome matches Err(error) && error@ == AppErrorView::InternalError(
                "Password hashing error: "@ + failure.reason@,
            ),
        },
{
    match hashed {
        Ok(password_hash) => {
            let mut user = User::new(email, password_hash);
            user.name = name;
            user.address = address;
            user.phone = phone;
            Ok(user)
        },
        Err(failure) => Err(
            AppError::InternalError(joined("Password hashing error: ", failure.reason.as_str())),
        ),
    }
}

/// Prepares the account of a registration, given the store's answer for the identifier.
/// An identifier that the store already holds is refused, and a store that could not be
/// asked is reported, both before anything is hashed. Else the password is hashed, and
/// the account that comes back holds a hash that matches it.
pub fn register_user(
    existing: &Result<Option<User>, String>,
    email: String,
    name: Option<String>,
    address: Option<String>,
    phone: Option<String>,
    password: &str,
) -> (outcome: Result<User, AppError>)
    ensures
        match outcome {
            Ok(user) => {
                &&& *existing matches Ok(None)
                &&& matches_hash(password@, user.password_hash@)
                &&& is_random_uuid(user.id)
                &&& user.email == email
                &&& user.name == name
                &&& user.address == address
                &&& user.phone == phone
                &&& user.updated_at is None
                &&& user.deleted_at is None
            },
            Err(error) => match *existing {
                Ok(Some(_)) => error@ == AppErrorView::ValidationError("Email already exists"@),
                Err(reason) => error@ == AppErrorView::DatabaseError(reason@),
                Ok(None) => error@ matches AppErrorView::InternalError(message)
                    && "Password hashing error: "@.is_prefix_of(message),
            },
        },
{
    match existing {
        Ok(Some(_)) => {
            return Err(AppError::validation("Email already exists"));
        },
        Err(reason) => {
            return Err(AppError::database(reason.as_str()));
        },
        Ok(None) => {},
    }
    let hashed = hash_password(password);
    proof {
        if hashed is Err {
            let message = "Password hashing error: "@ + hashed->Err_0.reason@;
            assert(message.subrange(0, "Password hashing error: "@.len() as int)
                =~= "Password hashing error: "@);
        }
    }
    prepared_account(hashed, email, name, address, phone)
}

} // verus!
