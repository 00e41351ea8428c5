//! Signed, time-bounded identity tokens.

use crate::clock::unix_now;
use vstd::prelude::*;

verus! {

/// How long a token stays valid after it was issued, in seconds.
pub const TOKEN_TTL_SECS: i64 = 86_400;

/// The payload of a token: who it speaks for, and the seconds since the epoch at which it
/// was issued and at which it expires.
#[derive(Debug, Clone)]
pub struct Claims {
    pub sub: String,
    pub exp: i64,
    pub iat: i64,
}

/// The claims as the decoder hands them over: each is there, or it is not.
#[derive(Debug, Clone)]
pub struct DecodedClaims {
    pub sub: Option<String>,
    pub exp: Option<i64>,
    pub iat: Option<i64>,
}

impl View for DecodedClaims {
    type V = (Option<Seq<char>>, Option<i64>, Option<i64>);

    open spec fn view(&self) -> (Option<Seq<char>>, Option<i64>, Option<i64>) {
        (
            match self.sub {
                Some(text) => Some(text@),
                None => None,
            },
            self.exp,
            self.iat,
        )
    }
}

/// The mathematical value of a `Claims`.
pub struct ClaimsView {
    pub sub: Seq<char>,
    pub exp: i64,
    pub iat: i64,
}

impl View for Claims {
    type V = ClaimsView;

    open spec fn view(&self) -> ClaimsView {
        ClaimsView { sub: self.sub@, exp: self.exp, iat: self.iat }
    }
}

/// Why no token was issued, or why one was not taken.
#[derive(Debug, Clone, Copy, PartialEq, Eq, Structural)]
pub enum TokenError {
    /// The token is malformed, lacks a field, or its signature does not match.
    InvalidToken,
    /// The signature matches, but the token's time is over.
    Expired,
    /// The secret is not one that tokens can be signed with.
    SigningFailure,
}

/// `jsonwebtoken::errors::Error`, carried as it is: nothing inside it is read.
#[verifier::external_type_specification]
#[verifier::external_body]
pub struct ExJwtError(jsonwebtoken::errors::Error);

/// The compact token that `jsonwebtoken::encode` builds with the default header from the
/// claims `sub`, `exp` and `iat`, signed with `secret`.
pub uninterp spec fn encoded_token(sub: Seq<char>, exp: i64, iat: i64, secret: Seq<u8>) -> Seq<char>;

/// What `jsonwebtoken::decode` reads from `token` when it checks the signature against
/// `secret` and leaves the expiry alone: the claim `sub` as text, `exp` and `iat` as
/// integers, each `None` where the payload lacks it or holds it as another kind. `None`
/// where the decoder refuses the token.
pub uninterp spec fn decoded_claims(token: Seq<char>, secret: Seq<u8>) -> Option<
    (Option<Seq<char>>, Option<i64>, Option<i64>),
>;

/// The signature segment that `jsonwebtoken::crypto::sign` computes over `message` with
/// HMAC-SHA256 keyed by `secret`.
pub uninterp spec fn token_signature(message: Seq<char>, secret: Seq<u8>) -> Seq<char>;

/// Position of the last `.` in `token`, or -1 where it has none.
pub open spec fn last_dot(token: Seq<char>) -> int
    decreases token.len(),
{
    if token.len() == 0 {
        -1
    } else if token.last() == '.' {
        token.len() - 1
    } else {
        last_dot(token.drop_last())
    }
}

/// How many `.` the token holds.
pub open spec fn dot_count(token: Seq<char>) -> nat
    decreases token.len(),
{
    if token.len() == 0 {
        0
    } else if token.last() == '.' {
        dot_count(token.drop_last()) + 1
    } else {
        dot_count(token.drop_last())
    }
}

/// Header and payload: what lies before the last `.` and is covered by the signature.
pub open spec fn signed_part(token: Seq<char>) -> Seq<char> {
    token.take(last_dot(token))
}

/// The signature segment: what follows the last `.`.
pub open spec fn signature_part(token: Seq<char>) -> Seq<char> {
    token.skip(last_dot(token) + 1)
}

/// A token has three segments, and the third is the signature of the first two.
pub open spec fn well_signed(token: Seq<char>, secret: Seq<u8>) -> bool {
    &&& dot_count(token) == 2
    &&& signature_part(token) == token_signature(signed_part(token), secret)
}

/// The claims of a payload that holds all three of them; none where one is missing.
pub open spec fn complete_claims(read: (Option<Seq<char>>, Option<i64>, Option<i64>)) -> Option<
    ClaimsView,
> {
    match read {
        (Some(sub), Some(exp), Some(iat)) => Some(ClaimsView { sub, exp, iat }),
        _ => None,
    }
}

/// The claims that a token is accepted with under `secret`, expiry aside: those of a
/// well-signed token whose payload holds all three.
pub open spec fn accepted_claims(token: Seq<char>, secret: Seq<u8>) -> Option<ClaimsView> {
    if well_signed(token, secret) {
        match decoded_claims(token, secret) {
            Some(read) => complete_claims(read),
            None => None,
        }
    } else {
        None
    }
}

/// The claims of a token issued to `subject` at `now`.
pub open spec fn claims_for(subject: Seq<char>, now: i64) -> ClaimsView {
    ClaimsView { sub: subject, exp: (now + TOKEN_TTL_SECS) as i64, iat: now }
}

/// Whether `token` is the token issued to `subject` at `now` under `secret`: it is the
/// encoding of the claims of that issue, and unless it expires before the epoch it is
/// accepted with exactly those claims.
pub open spec fn is_issued(token: Seq<char>, secret: Seq<u8>, subject: Seq<char>, now: i64) -> bool {
    &&& now + TOKEN_TTL_SECS <= i64::MAX
    &&& token == encoded_token(subject, (now + TOKEN_TTL_SECS) as i64, now, secret)
    &&& now + TOKEN_TTL_SECS >= 0 ==> accepted_claims(token, secret) == Some(claims_for(subject, now))
}

/// What verification at `now` answers, given the claims that the token is accepted with.
/// A token is good up to and including the second at which it expires.
pub open spec fn verdict(accepted: Option<ClaimsView>, now: i64) -> Result<ClaimsView, TokenError> {
    match accepted {
        None => Err(TokenError::InvalidToken),
        Some(claims) => if now > claims.exp {
            Err(TokenError::Expired)
        } else {
            Ok(claims)
        },
    }
}

/// `jsonwebtoken::encode` with `Header::default()` (HS256) and a key made by
/// `EncodingKey::from_secret`, over a JSON object with the three claims. Trusted: with
/// this header, this kind of key and these claims the encoder has nothing to fail on, so
/// a token comes back; it is the named encoding; it carries the signature of its first
/// two segments; and, where `exp` is not negative, decoding it under the same secret
/// gives the claims back.
#[verifier::external_body]
fn encode_claims(claims: &Claims, secret: &[u8]) -> (encoded: Result<String, jsonwebtoken::errors::Error>)
    ensures
        encoded is Ok,
        encoded matches Ok(token) ==> token@ == encoded_token(
            claims.sub@,
            claims.exp,
            claims.iat,
            secret@,
        ),
        encoded matches Ok(token) ==> (claims.exp >= 0 ==> accepted_claims(token@, secret@) == Some(
            claims@,
        )),
{
    let mut payload = serde_json::Map::new();
    payload.insert("sub".to_string(), serde_json::Value::from(claims.sub.as_str()));
    payload.insert("exp".to_string(), serde_json::Value::from(claims.exp));
    payload.insert("iat".to_string(), serde_json::Value::from(claims.iat));
    let key = jsonwebtoken::EncodingKey::from_secret(secret);
    jsonwebtoken::encode(&jsonwebtoken::Header::default(), &payload, &key)
}

/// `jsonwebtoken::decode` into a JSON value, with `Validation::new(Algorithm::HS256)` whose
/// `validate_exp` is switched off and a key made by `DecodingKey::from_secret`; then each
/// of the three claims is read with `Value::get` and `as_str` or `as_i64`, and handed
/// over as it was found. Trusted: the result is the named decoding, and there is none
/// unless the token has exactly three segments of which the last is the HMAC-SHA256
/// signature of the first two.
#[verifier::external_body]
fn decode_claims(token: &str, secret: &[u8]) -> (decoded: Option<DecodedClaims>)
    ensures
        match decoded {
            Some(read) => {
                &&& dot_count(token@) == 2
                &&& signature_part(token@) == token_signature(signed_part(token@), secret@)
                &&& decoded_claims(token@, secret@) == Some(read@)
            },
            None => decoded_claims(token@, secret@) is None,
        },
{
    let mut validation = jsonwebtoken::Validation::new(jsonwebtoken::Algorithm::HS256);
    validation.validate_exp = false;
    let key = jsonwebtoken::DecodingKey::from_secret(secret);
    let data = jsonwebtoken::decode::<serde_json::Value>(token, &key, &validation).ok()?;
    let sub = data.claims.get("sub").and_then(serde_json::Value::as_str).map(str::to_string);
    let exp = data.claims.get("exp").and_then(serde_json::Value::as_i64);
    let iat = data.claims.get("iat").and_then(serde_json::Value::as_i64);
    Some(DecodedClaims { sub, exp, iat })
}

/// The claims of a decoded token, if the decoder found all three; a token that lacks one,
/// or holds it as another kind, has none, like a token that the decoder refused.
pub fn required_claims(decoded: Option<DecodedClaims>) -> (claims: Option<Claims>)
    ensures
        match decoded {
            Some(read) => match claims {
                Some(found) => complete_claims(read@) == Some(found@),
                None => complete_claims(read@) is None,
            },
            None => claims is None,
        },
{
    match decoded {
        Some(read) => match (read.sub, read.exp, read.iat) {
            (Some(sub), Some(exp), Some(iat)) => Some(Claims { sub, exp, iat }),
            _ => None,
        },
        None => None,
    }
}

/// Turns what the encoder handed back into the issuer's own result: a token passes
/// through, any failure of the encoder is a `SigningFailure`.
pub fn signed_token(encoded: Result<String, jsonwebtoken::errors::Error>) -> (outcome: Result<
    String,
    TokenError,
>)
    ensures
        match encoded {
            Ok(token) => outcome == Ok::<String, TokenError>(token),
            Err(_) => outcome == Err::<String, TokenError>(TokenError::SigningFailure),
        },
{
    match encoded {
        Ok(token) => Ok(token),
        Err(_) => Err(TokenError::SigningFailure),
    }
}

/// Decides on a decoded token at `now`: no claims means the token was refused; claims whose
/// expiry lies before `now` mean it has expired; else the claims are handed on.
pub fn check_expiry(decoded: Option<Claims>, now: i64) -> (outcome: Result<Claims, TokenError>)
    ensures
        match decoded {
            None => outcome == Err::<Claims, TokenError>(TokenError::InvalidToken),
            Some(claims) => if now > claims.exp {
                outcome == Err::<Claims, TokenError>(TokenError::Expired)
            } else {
                outcome == Ok::<Claims, TokenError>(claims)
            },
        },
{
    match decoded {
        None => Err(TokenError::InvalidToken),
        Some(claims) => {
            if now > claims.exp {
                Err(TokenError::Expired)
            } else {
                Ok(claims)
            }
        },
    }
}

/// Issues and verifies tokens under one secret, fixed when the issuer is made.
pub struct TokenIssuer {
    secret: Vec<u8>,
}

impl TokenIssuer {
    pub closed spec fn secret(&self) -> Seq<u8> {
        self.secret@
    }

    /// An issuer for `secret`. An empty secret is refused with `SigningFailure`.
    pub fn new(secret: Vec<u8>) -> (made: Result<TokenIssuer, TokenError>)
        ensures
            match made {
                Ok(issuer) => secret@.len() > 0 && issuer.secret() == secret@,
                Err(e) => secret@.len() == 0 && e == TokenError::SigningFailure,
            },
    {
        if secret.len() == 0 {
            Err(TokenError::SigningFailure)
        } else {
            Ok(TokenIssuer { secret })
        }
    }

    /// A second issuer for the same secret.
    pub fn duplicate(&self) -> (copy: TokenIssuer)
        ensures
            copy.secret() == self.secret(),
    {
        let secret = self.secret.clone();
        assert(secret@ =~= self.secret@);
        TokenIssuer { secret }
    }

    /// A token for `subject`, issued at `now` and valid for `TOKEN_TTL_SECS` from then.
    /// An issuer always has a usable secret, so a token is always given: the encoding of
    /// the claims `sub == subject`, `iat == now`, `exp == now + TOKEN_TTL_SECS`, which
    /// verifies under this issuer unless it expires before the epoch.
    pub fn generate_token_at(&self, subject: &str, now: i64) -> (outcome: Result<String, TokenError>)
        requires
            now + TOKEN_TTL_SECS <= i64::MAX,
        ensures
            outcome matches Ok(token) && is_issued(token@, self.secret(), subject@, now),
    {
        let claims = Claims { sub: subject.to_owned(), exp: now + TOKEN_TTL_SECS, iat: now };
        signed_token(encode_claims(&claims, self.secret.as_slice()))
    }

    /// `generate_token_at` with the time read from the wall clock. The token that is
    /// given verifies at that time with `subject` as its subject, and answers `Expired`
    /// at any time later than `TOKEN_TTL_SECS` after it.
    pub fn generate_token(&self, subject: &str) -> (outcome: Result<String, TokenError>)
        ensures
            outcome matches Ok(token) && exists|now: i64|
                {
                    &&& 0 <= now
                    &&& #[trigger] is_issued(token@, self.secret(), subject@, now)
                    &&& verdict(accepted_claims(token@, self.secret()), now) == Ok::<
                        ClaimsView,
                        TokenError,
                    >(claims_for(subject@, now))
                    &&& forall|later: i64|
                        later > now + TOKEN_TTL_SECS ==> #[trigger] verdict(
                            accepted_claims(token@, self.secret()),
                            later,
                        ) == Err::<ClaimsView, TokenError>(TokenError::Expired)
                },
    {
        let now: i64 = unix_now();
        self.generate_token_at(subject, now)
    }

    /// Verifies `token` at `now`: `InvalidToken` unless it is accepted under this issuer's
    /// secret, `Expired` if it is accepted and `now` lies after its expiry, else its claims.
    pub fn verify_token_at(&self, token: &str, now: i64) -> (outcome: Result<Claims, TokenError>)
        ensures
            match outcome {
                Ok(claims) => verdict(accepted_claims(token@, self.secret()), now) == Ok::<
                    ClaimsView,
                    TokenError,
                >(claims@),
                Err(e) => verdict(accepted_claims(token@, self.secret()), now) == Err::<
                    ClaimsView,
                    TokenError,
                >(e),
            },
    {
        check_expiry(required_claims(decode_claims(token, self.secret.as_slice())), now)
    }

    /// `verify_token_at` with the time read from the wall clock.
    pub fn verify_token(&self, token: &str) -> (outcome: Result<Claims, TokenError>)
        ensures
            exists|now: i64|
                0 <= now && match outcome {
                    Ok(claims) => #[trigger] verdict(accepted_claims(token@, self.secret()), now)
                        == Ok::<ClaimsView, TokenError>(claims@),
                    Err(e) => verdict(accepted_claims(token@, self.secret()), now) == Err::<
                        ClaimsView,
                        TokenError,
                    >(e),
                },
    {
        let now: i64 = unix_now();
        self.verify_token_at(token, now)
    }
}

/// Counting dots goes segment by segment.
pub proof fn lemma_dot_count_concat(left: Seq<char>, right: Seq<char>)
    ensures
        dot_count(left + right) == dot_count(left) + dot_count(right),
    decreases right.len(),
{
    if right.len() == 0 {
        assert(left + right =~= left);
    } else {
        lemma_dot_count_concat(left, right.drop_last());
        assert((left + right).drop_last() =~= left + right.drop_last());
        assert((left + right).last() == right.last());
    }
}

/// Where the last dot stands: on a dot, with none after it; and a token has no last dot
/// exactly when it has no dot.
pub proof fn lemma_last_dot(token: Seq<char>)
    ensures
        -1 <= last_dot(token) < token.len(),
        last_dot(token) >= 0 ==> token[last_dot(token)] == '.',
        dot_count(token.skip(last_dot(token) + 1)) == 0,
        last_dot(token) == -1 <==> dot_count(token) == 0,
    decreases token.len(),
{
    if token.len() == 0 {
        assert(token.skip(0) =~= token);
    } else if token.last() == '.' {
        assert(token.skip(token.len() as int) =~= Seq::<char>::empty());
    } else {
        let shorter = token.drop_last();
        lemma_last_dot(shorter);
        let at = last_dot(shorter);
        assert(token.skip(at + 1).drop_last() =~= shorter.skip(at + 1));
        assert(token.skip(at + 1).last() == token.last());
    }
}

/// A tail without dots does not move the last dot.
pub proof fn lemma_last_dot_before_plain_tail(head: Seq<char>, tail: Seq<char>)
    requires
        dot_count(tail) == 0,
    ensures
        last_dot(head + tail) == last_dot(head),
    decreases tail.len(),
{
    if tail.len() == 0 {
        assert(head + tail =~= head);
    } else {
        assert((head + tail).drop_last() =~= head + tail.drop_last());
        assert((head + tail).last() == tail.last());
        lemma_last_dot_before_plain_tail(head, tail.drop_last());
    }
}

/// Round trip: the token issued to `subject` at `issued_at` verifies at that time and at
/// any time up to its expiry, and the verified claims name `subject`. A token that would
/// expire before the epoch is left out: the decoder takes no negative expiry.
pub proof fn lemma_issued_token_verifies(
    token: Seq<char>,
    secret: Seq<u8>,
    subject: Seq<char>,
    issued_at: i64,
    now: i64,
)
    requires
        is_issued(token, secret, subject, issued_at),
        issued_at + TOKEN_TTL_SECS >= 0,
        now <= issued_at + TOKEN_TTL_SECS,
    ensures
        verdict(accepted_claims(token, secret), now) == Ok::<ClaimsView, TokenError>(
            claims_for(subject, issued_at),
        ),
        verdict(accepted_claims(token, secret), now)->Ok_0.sub == subject,
        verdict(accepted_claims(token, secret), now)->Ok_0.iat == issued_at,
        verdict(accepted_claims(token, secret), now)->Ok_0.exp == issued_at + TOKEN_TTL_SECS,
{
}

/// Expiry of an issued token: at any time later than `TOKEN_TTL_SECS` after its issue the
/// token issued to `subject` at `issued_at` is answered with `Expired`, not with
/// `InvalidToken`. A token that would expire before the epoch is left out, as above.
pub proof fn lemma_issued_token_expires(
    token: Seq<char>,
    secret: Seq<u8>,
    subject: Seq<char>,
    issued_at: i64,
    now: i64,
)
    requires
        is_issued(token, secret, subject, issued_at),
        issued_at + TOKEN_TTL_SECS >= 0,
        now > issued_at + TOKEN_TTL_SECS,
    ensures
        verdict(accepted_claims(token, secret), now) == Err::<ClaimsView, TokenError>(
            TokenError::Expired,
        ),
{
}

/// Expiry: once the time has passed the token's expiry, a token that was accepted before
/// is answered with `Expired`, never with `InvalidToken`.
pub proof fn lemma_accepted_token_expires(token: Seq<char>, secret: Seq<u8>, now: i64)
    requires
        accepted_claims(token, secret) is Some,
        now > accepted_claims(token, secret)->Some_0.exp,
    ensures
        verdict(accepted_claims(token, secret), now) == Err::<ClaimsView, TokenError>(
            TokenError::Expired,
        ),
{
}

/// Tamper detection: take a token that is accepted under `secret` and change anything
/// after its last dot, that is in its signature segment. The changed token is not
/// accepted, so verification answers `InvalidToken` at any time.
pub proof fn lemma_changed_signature_is_rejected(
    token: Seq<char>,
    forged: Seq<char>,
    secret: Seq<u8>,
    now: i64,
)
    requires
        accepted_claims(token, secret) is Some,
        forged != token,
        forged.len() > last_dot(token),
        forged.take(last_dot(token) + 1) == token.take(last_dot(token) + 1),
    ensures
        accepted_claims(forged, secret) is None,
        verdict(accepted_claims(forged, secret), now) == Err::<ClaimsView, TokenError>(
            TokenError::InvalidToken,
        ),
{
    let at = last_dot(token);
    lemma_last_dot(token);
    let head = token.take(at + 1);
    let tail = token.skip(at + 1);
    let forged_tail = forged.skip(at + 1);
    assert(token =~= head + tail);
    assert(forged =~= head + forged_tail);
    lemma_dot_count_concat(head, tail);
    lemma_dot_count_concat(head, forged_tail);
    if well_signed(forged, secret) {
        assert(dot_count(forged_tail) == 0);
        lemma_last_dot_before_plain_tail(head, tail);
        lemma_last_dot_before_plain_tail(head, forged_tail);
        assert(last_dot(forged) == at);
        assert(forged.take(at) =~= head.take(at));
        assert(token.take(at) =~= head.take(at));
        assert(forged_tail == tail);
        assert(false);
    }
}

/// Tokens that are accepted with different claims are different tokens: two tokens issued
/// under one secret at different seconds, or to different subjects, never coincide.
pub proof fn lemma_distinct_claims_distinct_tokens(first: Seq<char>, second: Seq<char>, secret: Seq<u8>)
    requires
        accepted_claims(first, secret) is Some,
        accepted_claims(second, secret) is Some,
        accepted_claims(first, secret) != accepted_claims(second, secret),
    ensures
        first != second,
{
}

} // verus!
