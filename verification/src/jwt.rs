//! Stateless signed-token issuance and verification.
//!
//! A token is an opaque signed string carrying five claims: subject, email,
//! username, issued-at and expires-at (Unix seconds), with the expiry one
//! fixed validity window after issue. Verification is a pure function of the
//! token, the configured secret and the verification instant: the signature
//! and the structure are checked by the signing library, the expiry is
//! checked here, and either failing alone rejects the token.

use vstd::prelude::*;
use vstd::string::StringExecFns;
use serde_json::Value;
use jsonwebtoken::decode;
use jsonwebtoken::Algorithm;
use jsonwebtoken::DecodingKey;
use jsonwebtoken::EncodingKey;
use jsonwebtoken::Header;
use jsonwebtoken::Validation;

verus! {

/// How long an issued token stays valid, in seconds (24 hours).
pub const TOKEN_VALIDITY_SECONDS: i64 = 86400;

/// The claims carried by a token.
#[derive(Debug, Clone)]
pub struct Claims {
    /// Subject: the account's identity id, string-encoded.
    pub sub: String,
    pub email: String,
    pub username: String,
    /// Expiration time, Unix seconds.
    pub exp: i64,
    /// Issued at, Unix seconds.
    pub iat: i64,
}

/// How token operations fail.
#[derive(Debug, Clone, Copy, PartialEq, Eq, Structural)]
pub enum TokenError {
    /// The signing operation itself failed.
    TokenIssuanceFailure,
    /// Signature mismatch, structural corruption, a missing claim field, or
    /// expiration.
    TokenInvalid,
}

/// The claims `(sub, email, username, iat, exp)` that signature-checked
/// decoding under `secret` recovers from `token`, without regard to expiry;
/// `None` when the token is structurally malformed, the signature does not
/// match, any of the five fields is missing or of the wrong type, or the
/// token carries an audience claim (this service expects none, and the
/// decoder rejects an unexpected one). A function of the two arguments
/// alone.
pub uninterp spec fn jwt_payload(secret: Seq<char>, token: Seq<char>) -> Option<
    (Seq<char>, Seq<char>, Seq<char>, int, int),
>;

/// That the two positions hold dots and no other position does.
pub open spec fn dots_at(t: Seq<char>, i: int, j: int) -> bool {
    &&& t[i] == '.'
    &&& t[j] == '.'
    &&& forall|k: int| 0 <= k < t.len() && k != i && k != j ==> t[k] != '.'
}

/// A three-segment dot-delimited string: exactly two dots, with a non-empty
/// segment before, between and after them.
pub open spec fn three_dot_segments(t: Seq<char>) -> bool {
    exists|i: int, j: int|
        {
            &&& 0 < i
            &&& i + 1 < j
            &&& j + 1 < t.len()
            &&& #[trigger] dots_at(t, i, j)
        }
}

/// That `token` decodes under `secret` to the given identity claims, issued
/// at `iat` and expiring one validity window later.
pub open spec fn issued_payload(
    secret: Seq<char>,
    sub: Seq<char>,
    email: Seq<char>,
    username: Seq<char>,
    iat: int,
    token: Seq<char>,
) -> bool {
    jwt_payload(secret, token) == Some(
        (sub, email, username, iat, iat + TOKEN_VALIDITY_SECONDS as int),
    )
}

/// What verification at instant `now` returns for `token` under `secret`:
/// the decoded claims when the token decodes and `now` is strictly before
/// its expiry, nothing otherwise.
pub open spec fn spec_verify(secret: Seq<char>, token: Seq<char>, now: int) -> Option<
    (Seq<char>, Seq<char>, Seq<char>, int, int),
> {
    match jwt_payload(secret, token) {
        Some(c) => if now < c.4 {
            Some(c)
        } else {
            None
        },
        None => None,
    }
}

/// Relies on jsonwebtoken::encode with the default (HS256) header. For an
/// HMAC secret and this header encoding cannot fail: the key accepts any
/// length, and signing and claim serialization are infallible. The result is
/// three dot-delimited base64url segments (an alphabet with no dot, each
/// segment non-empty), and decoding it under the same secret recovers
/// exactly the claims that were encoded (`jwt_payload` names that decoding;
/// claim timestamps are non-negative, as the decoder reads them as
/// unsigned).
#[verifier::external_body]
fn jwt_encode(secret: &str, sub: &str, email: &str, username: &str, exp: i64, iat: i64) -> (r:
    Result<String, ()>)
    requires
        0 <= iat,
        0 <= exp,
    ensures
        r is Ok,
        r matches Ok(t) ==> jwt_payload(secret@, t@) == Some(
            (sub@, email@, username@, iat as int, exp as int),
        ) && three_dot_segments(t@),
{
    let mut claims = serde_json::Map::new();
    claims.insert("sub".into(), Value::from(sub));
    claims.insert("email".into(), Value::from(email));
    claims.insert("username".into(), Value::from(username));
    claims.insert("exp".into(), Value::from(exp));
    claims.insert("iat".into(), Value::from(iat));
    let key = EncodingKey::from_secret(secret.as_bytes());
    jsonwebtoken::encode(&Header::default(), &claims, &key).map_err(|_| ())
}

/// Relies on jsonwebtoken::decode over HS256 with expiry checking turned
/// off: signature and structure are checked (an unexpected audience claim is
/// rejected too, as the decoder's audience validation stays on), no clock is
/// read, and the result is the function of the token and the secret alone
/// that `jwt_payload` names.
#[verifier::external_body]
fn jwt_decode(secret: &str, token: &str) -> (r: Option<Claims>)
    ensures
        r is Some <==> jwt_payload(secret@, token@) is Some,
        r matches Some(c) ==> jwt_payload(secret@, token@) == Some(
            (c.sub@, c.email@, c.username@, c.iat as int, c.exp as int),
        ),
{
    let mut v = Validation::new(Algorithm::HS256);
    v.validate_exp = false;
    let key = DecodingKey::from_secret(secret.as_bytes());
    let c = decode::<serde_json::Map<String, Value>>(token, &key, &v).ok()?.claims;
    Some(Claims {
        sub: c.get("sub")?.as_str()?.into(),
        email: c.get("email")?.as_str()?.into(),
        username: c.get("username")?.as_str()?.into(),
        exp: c.get("exp")?.as_i64()?,
        iat: c.get("iat")?.as_i64()?,
    })
}

/// Relies on chrono::Utc::now: the current wall-clock time as Unix seconds.
/// Nothing is promised of the reading; callers state what holds for every
/// value.
#[verifier::external_body]
pub(crate) fn now_timestamp() -> i64 {
    chrono::Utc::now().timestamp()
}

/// The token service: an immutable signing secret, fixed at construction.
/// Rotating the secret means constructing a new service; every token issued
/// under the old secret then fails verification.
pub struct JwtService {
    secret: String,
}

impl JwtService {
    /// The configured signing secret.
    pub closed spec fn spec_secret(&self) -> Seq<char> {
        self.secret@
    }

    pub fn new(secret: &str) -> (r: Self)
        ensures
            r.spec_secret() == secret@,
    {
        JwtService { secret: String::from_str(secret) }
    }

    /// Issue a token for the given identity, taking the issue instant as an
    /// argument: the claims embed `iat = now` and `exp = now + validity`.
    /// Issuance always succeeds: signing with an HMAC secret has no failure
    /// path.
    pub fn issue_token_at(&self, user_id: &str, email: &str, username: &str, now: i64) -> (r:
        Result<String, TokenError>)
        requires
            0 <= now,
            now + TOKEN_VALIDITY_SECONDS <= i64::MAX,
        ensures
            r is Ok,
            r matches Ok(t) ==> issued_payload(
                self.spec_secret(),
                user_id@,
                email@,
                username@,
                now as int,
                t@,
            ) && three_dot_segments(t@),
    {
        let exp = now + TOKEN_VALIDITY_SECONDS;
        match jwt_encode(self.secret.as_str(), user_id, email, username, exp, now) {
            Ok(t) => Ok(t),
            Err(_) => Err(TokenError::TokenIssuanceFailure),
        }
    }

    /// Issue a token for the given identity at the current instant. This
    /// fails only where the clock reading leaves no room for the validity
    /// window; with the instant in range, issuance succeeds.
    pub fn generate_token(&self, user_id: &str, email: &str, username: &str) -> (r: Result<
        String,
        TokenError,
    >)
        ensures
            r matches Ok(t) ==> three_dot_segments(t@) && (exists|iat: int|
                0 <= iat && #[trigger] issued_payload(
                    self.spec_secret(),
                    user_id@,
                    email@,
                    username@,
                    iat,
                    t@,
                )),
            r matches Err(e) ==> e == TokenError::TokenIssuanceFailure,
    {
        let now = now_timestamp();
        if now < 0 || now > i64::MAX - TOKEN_VALIDITY_SECONDS {
            return Err(TokenError::TokenIssuanceFailure);
        }
        self.issue_token_at(user_id, email, username, now)
    }

    /// Verify a token at the given instant: the decoded claims come back
    /// exactly when the signature and structure check out and `now` is
    /// strictly before the embedded expiry.
    pub fn verify_token_at(&self, token: &str, now: i64) -> (r: Result<Claims, TokenError>)
        ensures
            r is Ok <==> spec_verify(self.spec_secret(), token@, now as int) is Some,
            r matches Ok(c) ==> spec_verify(self.spec_secret(), token@, now as int) == Some(
                (c.sub@, c.email@, c.username@, c.iat as int, c.exp as int),
            ),
            r matches Err(e) ==> e == TokenError::TokenInvalid,
    {
        match jwt_decode(self.secret.as_str(), token) {
            Some(c) => if now < c.exp {
                Ok(c)
            } else {
                Err(TokenError::TokenInvalid)
            },
            None => Err(TokenError::TokenInvalid),
        }
    }

    /// Verify a token at the current instant.
    pub fn verify_token(&self, token: &str) -> (r: Result<Claims, TokenError>)
        ensures
            jwt_payload(self.spec_secret(), token@) is None ==> r == Err::<
                Claims,
                TokenError,
            >(TokenError::TokenInvalid),
            r matches Ok(c) ==> jwt_payload(self.spec_secret(), token@) == Some(
                (c.sub@, c.email@, c.username@, c.iat as int, c.exp as int),
            ),
            r matches Err(e) ==> e == TokenError::TokenInvalid,
    {
        let now = now_timestamp();
        self.verify_token_at(token, now)
    }

    /// How long a fresh token stays valid, in seconds.
    pub fn expires_in_seconds(&self) -> (r: i64)
        ensures
            r == TOKEN_VALIDITY_SECONDS,
    {
        TOKEN_VALIDITY_SECONDS
    }
}

impl Default for JwtService {
    /// The development fallback secret, for use where no secret is
    /// configured.
    fn default() -> (r: Self)
        ensures
            r.spec_secret() == "your-secret-key-change-this-in-production"@,
    {
        Self::new("your-secret-key-change-this-in-production")
    }
}

/// Issuing a token and then verifying it under the same secret returns
/// exactly the claims that were issued, with the expiry one validity window
/// after the issue instant, at every instant strictly before that expiry;
/// at or after it, verification fails.
pub proof fn lemma_issue_then_verify(
    secret: Seq<char>,
    token: Seq<char>,
    sub: Seq<char>,
    email: Seq<char>,
    username: Seq<char>,
    iat: int,
    at: int,
)
    requires
        issued_payload(secret, sub, email, username, iat, token),
    ensures
        at < iat + TOKEN_VALIDITY_SECONDS ==> spec_verify(secret, token, at) == Some(
            (sub, email, username, iat, iat + TOKEN_VALIDITY_SECONDS as int),
        ),
        at >= iat + TOKEN_VALIDITY_SECONDS ==> spec_verify(secret, token, at) is None,
{
}

} // verus!
