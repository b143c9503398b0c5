//! Bearer tokens: issuing them at login and checking them on each request.

use vstd::prelude::*;
use vstd::string::*;
use crate::time::{clock_reading, system_now, Timestamp};

verus! {

/// Seconds for which an issued token stays valid.
pub const TOKEN_LIFETIME_SECONDS: i64 = 3600;

/// Number of characters of the scheme prefix of an authorization header.
pub const BEARER_PREFIX_LENGTH: usize = 7;

/// What a token states about its holder.
#[derive(Clone, Debug)]
pub struct Claims {
    pub sub: String,
    pub exp: i64,
    pub role: String,
}

/// Why a request is not let through. Every cause gives the same answer,
/// so that a caller cannot tell an expired token from a forged one.
#[derive(Clone, Copy, Debug, PartialEq, Eq, Structural)]
pub enum AuthError {
    Unauthenticated,
}

/// Subject, expiry and role of a claim set.
pub type ClaimsContent = (Seq<char>, i64, Seq<char>);

impl Claims {
    /// Subject, expiry and role as plain values.
    pub open spec fn content(self) -> ClaimsContent {
        (self.sub@, self.exp, self.role@)
    }
}

/// The HS256 token that carries subject, expiry and role under a secret.
pub uninterp spec fn hs256_token(sub: Seq<char>, exp: i64, role: Seq<char>, secret: Seq<char>) -> Seq<
    char,
>;

/// The claims that a token carries when its HS256 signature matches the
/// secret and it has the three fields; its expiry is not looked at.
pub uninterp spec fn hs256_claims(token: Seq<char>, secret: Seq<char>) -> Option<ClaimsContent>;

/// The claims that a token is accepted with at the instant `now`: those
/// it carries under the secret, provided that its expiry lies after `now`.
pub open spec fn accepted_claims(token: Seq<char>, secret: Seq<char>, now: i64) -> Option<
    ClaimsContent,
> {
    match hs256_claims(token, secret) {
        Some(content) => if content.1 > now {
            Some(content)
        } else {
            None
        },
        None => None,
    }
}

/// What issuing a token for `username` at the instant `now` gives: the
/// token that carries the subject, role `user` and an expiry one hour
/// later; unless that expiry is negative, it is accepted at `now` with
/// exactly these claims.
pub open spec fn issued_at(token: Seq<char>, username: Seq<char>, secret: Seq<char>, now: i64) -> bool {
    &&& token == hs256_token(username, (now + TOKEN_LIFETIME_SECONDS) as i64, "user"@, secret)
    &&& now + TOKEN_LIFETIME_SECONDS >= 0 ==> accepted_claims(token, secret, now) == Some(
        (username, (now + TOKEN_LIFETIME_SECONDS) as i64, "user"@),
    )
}

/// The token inside an authorization header: what follows `Bearer `.
pub open spec fn bearer_of(header: Seq<char>) -> Option<Seq<char>> {
    if header.len() >= BEARER_PREFIX_LENGTH && header.subrange(0, BEARER_PREFIX_LENGTH as int)
        == "Bearer "@ {
        Some(header.subrange(BEARER_PREFIX_LENGTH as int, header.len() as int))
    } else {
        None
    }
}

/// The claims that a request is let through with: its header must be
/// there and hold a bearer token that is accepted at `now`.
pub open spec fn admitted_claims(header: Option<Seq<char>>, secret: Seq<char>, now: i64) -> Option<
    ClaimsContent,
> {
    match header {
        Some(text) => match bearer_of(text) {
            Some(token) => accepted_claims(token, secret, now),
            None => None,
        },
        None => None,
    }
}

/// The characters of an optional header value.
pub open spec fn header_text(header: Option<&str>) -> Option<Seq<char>> {
    match header {
        Some(text) => Some(text@),
        None => None,
    }
}

/// What a check hands back for the claims that are accepted, if any.
pub open spec fn outcome_matches(r: Result<Claims, AuthError>, accepted: Option<ClaimsContent>) -> bool {
    match r {
        Ok(claims) => accepted == Some(claims.content()),
        Err(_) => accepted is None,
    }
}

/// Signs a claim set with `jsonwebtoken::encode` under the default
/// header (HS256) and the secret as HMAC key. The claims are handed over
/// as a JSON object with the fields `sub`, `exp` and `role`, in this order.
///
/// Trusted: the token depends on the claims and the secret alone, and
/// decoding it under the same secret gives the claims back when the
/// expiry is not negative, as the crate's round-trip test shows.
#[verifier::external_body]
fn jwt_encode(claims: &Claims, secret: &str) -> (token: String)
    ensures
        token@ == hs256_token(claims.sub@, claims.exp, claims.role@, secret@),
        claims.exp >= 0 ==> hs256_claims(token@, secret@) == Some(claims.content()),
{
    let mut payload = serde_json::Map::new();
    payload.insert("sub".to_string(), serde_json::Value::from(claims.sub.as_str()));
    payload.insert("exp".to_string(), serde_json::Value::from(claims.exp));
    payload.insert("role".to_string(), serde_json::Value::from(claims.role.as_str()));
    let key = jsonwebtoken::EncodingKey::from_secret(secret.as_bytes());
    jsonwebtoken::encode(&jsonwebtoken::Header::default(), &payload, &key)
        .expect("JWT encoding failed")
}

/// Decodes a token with `jsonwebtoken::decode` under the default
/// validation (HS256, `exp` required) with the check of the expiry
/// against the clock switched off, and reads `sub`, `exp` and `role`
/// from the payload.
///
/// Trusted: the answer depends on the token and the secret alone.
#[verifier::external_body]
fn jwt_decode(token: &str, secret: &str) -> (claims: Option<Claims>)
    ensures
        match claims {
            Some(c) => hs256_claims(token@, secret@) == Some(c.content()),
            None => hs256_claims(token@, secret@) is None,
        },
{
    let mut rules = jsonwebtoken::Validation::default();
    rules.validate_exp = false;
    let key = jsonwebtoken::DecodingKey::from_secret(secret.as_bytes());
    let data = jsonwebtoken::decode::<serde_json::Value>(token, &key, &rules).ok()?;
    Some(Claims {
        sub: data.claims.get("sub")?.as_str()?.to_string(),
        exp: data.claims.get("exp")?.as_i64()?,
        role: data.claims.get("role")?.as_str()?.to_string(),
    })
}

/// Issues a token for a subject at the instant `now`: role `user`,
/// expiry one hour later. Unless its expiry is negative, the token is
/// accepted at `now` with exactly these claims.
pub fn issue_token(username: &str, secret: &str, now: i64) -> (token: String)
    requires
        now <= i64::MAX - TOKEN_LIFETIME_SECONDS,
    ensures
        issued_at(token@, username@, secret@, now),
{
    let claims = Claims {
        sub: String::from_str(username),
        exp: now + TOKEN_LIFETIME_SECONDS,
        role: String::from_str("user"),
    };
    jwt_encode(&claims, secret)
}

/// Issues a token for a subject now, by the system clock: the token of
/// the instant that the clock gave, accepted at that instant with
/// subject and role as given.
pub fn create_jwt(username: &str, secret: &str) -> (token: String)
    ensures
        exists|now: Timestamp|
            clock_reading(now) && #[trigger] issued_at(token@, username@, secret@, now.secs)
                && accepted_claims(token@, secret@, now.secs) == Some(
                (username@, (now.secs + TOKEN_LIFETIME_SECONDS) as i64, "user"@),
            ),
{
    let now = system_now();
    let token = issue_token(username, secret, now.secs);
    assert(issued_at(token@, username@, secret@, now.secs));
    token
}

/// Takes the token out of an authorization header.
pub fn bearer_token<'a>(header: &'a str) -> (token: Option<&'a str>)
    ensures
        match token {
            Some(t) => bearer_of(header@) == Some(t@),
            None => bearer_of(header@) is None,
        },
{
    let length = header.unicode_len();
    if length < BEARER_PREFIX_LENGTH {
        return None;
    }
    let prefix = header.substring_char(0, BEARER_PREFIX_LENGTH);
    if String::from_str(prefix) == String::from_str("Bearer ") {
        Some(header.substring_char(BEARER_PREFIX_LENGTH, length))
    } else {
        None
    }
}

/// Judges what decoding a token gave: the claims stand when their
/// expiry lies after `now`; a token that did not decode, or that has
/// expired, gives the one error.
pub fn judge_claims(decoded: Option<Claims>, now: i64) -> (r: Result<Claims, AuthError>)
    ensures
        r == match decoded {
            Some(claims) => if claims.exp > now {
                Ok::<Claims, AuthError>(claims)
            } else {
                Err(AuthError::Unauthenticated)
            },
            None => Err(AuthError::Unauthenticated),
        },
{
    match decoded {
        Some(claims) => {
            if claims.exp > now {
                Ok(claims)
            } else {
                Err(AuthError::Unauthenticated)
            }
        },
        None => Err(AuthError::Unauthenticated),
    }
}

/// Checks a token at the instant `now`: its signature must match the
/// secret and its expiry must lie after `now`.
pub fn check_token(token: &str, secret: &str, now: i64) -> (r: Result<Claims, AuthError>)
    ensures
        outcome_matches(r, accepted_claims(token@, secret@, now)),
{
    judge_claims(jwt_decode(token, secret), now)
}

/// Decides at the instant `now` whether a request with this
/// authorization header is let through, and with which claims.
pub fn authenticate(authorization: Option<&str>, secret: &str, now: i64) -> (r: Result<
    Claims,
    AuthError,
>)
    ensures
        outcome_matches(
            r,
            admitted_claims(
                header_text(authorization),
                secret@,
                now,
            ),
        ),
{
    match authorization {
        None => Err(AuthError::Unauthenticated),
        Some(header) => match bearer_token(header) {
            None => Err(AuthError::Unauthenticated),
            Some(token) => check_token(token, secret, now),
        },
    }
}

/// Decides now, by the system clock, whether a request is let through.
pub fn verify_jwt(authorization: Option<&str>, secret: &str) -> (r: Result<Claims, AuthError>)
    ensures
        exists|now: Timestamp|
            clock_reading(now) && #[trigger] outcome_matches(
                r,
                admitted_claims(
                    header_text(authorization),
                    secret@,
                    now.secs,
                ),
            ),
{
    let now = system_now();
    let r = authenticate(authorization, secret, now.secs);
    assert(outcome_matches(
        r,
        admitted_claims(
            header_text(authorization),
            secret@,
            now.secs,
        ),
    ));
    r
}

/// A token is accepted at no instant at or after its expiry.
pub proof fn lemma_expired_token_is_rejected(token: Seq<char>, secret: Seq<char>, now: i64)
    requires
        hs256_claims(token, secret) matches Some(content) && content.1 <= now,
    ensures
        accepted_claims(token, secret, now) is None,
        forall|header: Seq<char>|
            bearer_of(header) == Some(token) ==> #[trigger] admitted_claims(
                Some(header),
                secret,
                now,
            ) is None,
{
}

/// A token that is accepted at an instant is accepted, with the same
/// claims, at every earlier instant.
pub proof fn lemma_acceptance_only_ends(token: Seq<char>, secret: Seq<char>, earlier: i64, later: i64)
    requires
        earlier <= later,
        accepted_claims(token, secret, later) is Some,
    ensures
        accepted_claims(token, secret, earlier) == accepted_claims(token, secret, later),
{
}

/// Without a header, or with a header that holds no bearer token, no
/// request is let through, whatever the secret and the instant.
pub proof fn lemma_no_bearer_no_entry(header: Option<Seq<char>>, secret: Seq<char>, now: i64)
    requires
        header matches Some(text) ==> bearer_of(text) is None,
    ensures
        admitted_claims(header, secret, now) is None,
{
}

} // verus!
