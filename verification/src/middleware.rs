//! The authentication gate.
//!
//! One inbound authorization string resolves here to an identity
//! attached to the request's context. In mandatory mode any failure stops
//! the request with a distinct error; in optional mode every failure is
//! swallowed and the request proceeds with no identity attached. Each
//! request is evaluated exactly once, against its own context.

use vstd::prelude::*;
use crate::identity::is_canonical_uuid;
use crate::identity::is_valid_identity_id;
use crate::jwt::JwtService;
use crate::jwt::now_timestamp;
use crate::jwt::spec_verify;
use vstd::string::StrSliceExecFns;

verus! {

/// How the mandatory gate rejects a request. The three kinds are distinct
/// diagnostics: no credential at all, a credential of the wrong shape, and
/// a credential that fails cryptographic or expiry checks.
#[derive(Debug, Clone, Copy, PartialEq, Eq, Structural)]
pub enum GateError {
    /// No authorization field was present on the request.
    MissingCredential,
    /// The field is present but does not carry the bearer scheme, or the
    /// verified subject is not a well-formed identity id.
    MalformedCredential,
    /// The token failed signature, structure or expiry checks.
    InvalidCredential,
}

/// The identity attached to a request after a successful check.
#[derive(Debug, Clone)]
pub struct AuthUser {
    /// The account's identity id, in canonical form.
    pub id: String,
    pub email: String,
    pub username: String,
}

/// A request-scoped store for the attached identity: set on a successful
/// check, read by downstream handlers, discarded with the request.
#[derive(Debug)]
pub struct RequestContext {
    pub auth_user: Option<AuthUser>,
}

impl RequestContext {
    /// A fresh context, with no identity attached.
    pub fn new() -> (r: RequestContext)
        ensures
            r.auth_user is None,
    {
        RequestContext { auth_user: None }
    }
}

/// Whether an authorization value carries the recognized scheme prefix
/// `"Bearer "`.
pub open spec fn has_bearer_prefix(s: Seq<char>) -> bool {
    &&& s.len() >= 7
    &&& s[0] == 'B'
    &&& s[1] == 'e'
    &&& s[2] == 'a'
    &&& s[3] == 'r'
    &&& s[4] == 'e'
    &&& s[5] == 'r'
    &&& s[6] == ' '
}

/// What the mandatory gate decides for one request at instant `now`: the
/// identity fields `(id, email, username)` to attach, or the rejection.
pub open spec fn spec_gate(
    secret: Seq<char>,
    authorization: Option<Seq<char>>,
    now: int,
) -> Result<(Seq<char>, Seq<char>, Seq<char>), GateError> {
    match authorization {
        None => Err(GateError::MissingCredential),
        Some(h) => if !has_bearer_prefix(h) {
            Err(GateError::MalformedCredential)
        } else {
            match spec_verify(secret, h.skip(7), now) {
                None => Err(GateError::InvalidCredential),
                Some(c) => if is_canonical_uuid(c.0) {
                    Ok((c.0, c.1, c.2))
                } else {
                    Err(GateError::MalformedCredential)
                },
            }
        },
    }
}

/// What the optional gate attaches for one request at instant `now`: the
/// identity the mandatory gate would attach, or nothing where it would
/// reject.
pub open spec fn spec_gate_optional(
    secret: Seq<char>,
    authorization: Option<Seq<char>>,
    now: int,
) -> Option<(Seq<char>, Seq<char>, Seq<char>)> {
    match spec_gate(secret, authorization, now) {
        Ok(u) => Some(u),
        Err(_) => None,
    }
}

/// How one mandatory gate pass relates its result and the context before
/// and after: on acceptance the decided identity is attached, on rejection
/// the decided error comes back and the context is untouched.
pub open spec fn gate_post(
    secret: Seq<char>,
    authorization: Option<Seq<char>>,
    now: int,
    r: Result<(), GateError>,
    pre: RequestContext,
    post: RequestContext,
) -> bool {
    match spec_gate(secret, authorization, now) {
        Ok(u) => r is Ok && (post.auth_user matches Some(a) && a.id@ == u.0 && a.email@ == u.1
            && a.username@ == u.2),
        Err(e) => r == Err::<(), GateError>(e) && post == pre,
    }
}

/// How one optional gate pass relates the context before and after: the
/// identity the mandatory gate would attach is attached, and on any failure
/// the context is untouched and the request still proceeds.
pub open spec fn optional_gate_post(
    secret: Seq<char>,
    authorization: Option<Seq<char>>,
    now: int,
    pre: RequestContext,
    post: RequestContext,
) -> bool {
    match spec_gate_optional(secret, authorization, now) {
        Some(u) => (post.auth_user matches Some(a) && a.id@ == u.0 && a.email@ == u.1
            && a.username@ == u.2),
        None => post == pre,
    }
}

/// The token after the scheme prefix, where the prefix is present.
fn bearer_token(header: &str) -> (r: Option<&str>)
    ensures
        r is Some <==> has_bearer_prefix(header@),
        r matches Some(t) ==> t@ == header@.skip(7),
{
    let n = header.unicode_len();
    if n < 7 {
        return None;
    }
    let ok = header.get_char(0) == 'B' && header.get_char(1) == 'e' && header.get_char(2) == 'a'
        && header.get_char(3) == 'r' && header.get_char(4) == 'e' && header.get_char(5) == 'r'
        && header.get_char(6) == ' ';
    if ok {
        Some(header.substring_char(7, n))
    } else {
        None
    }
}

/// The mandatory gate, evaluated at instant `now`. On success the identity
/// from the verified claims is attached to the context; on any failure the
/// context is untouched and the distinct rejection is returned, so that the
/// caller stops the request before its handler runs.
pub fn auth_check_at(
    jwt: &JwtService,
    authorization: Option<&str>,
    now: i64,
    request: &mut RequestContext,
) -> (r: Result<(), GateError>)
    ensures
        gate_post(
            jwt.spec_secret(),
            authorization.deep_view(),
            now as int,
            r,
            *old(request),
            *final(request),
        ),
{
    match authorization {
        None => Err(GateError::MissingCredential),
        Some(header) => match bearer_token(header) {
            None => Err(GateError::MalformedCredential),
            Some(token) => match jwt.verify_token_at(token, now) {
                Err(_) => Err(GateError::InvalidCredential),
                Ok(claims) => if is_valid_identity_id(claims.sub.as_str()) {
                    request.auth_user = Some(
                        AuthUser { id: claims.sub, email: claims.email, username: claims.username },
                    );
                    Ok(())
                } else {
                    Err(GateError::MalformedCredential)
                },
            },
        },
    }
}

/// The optional gate, evaluated at instant `now`. The request always
/// proceeds: a valid credential attaches its identity exactly as the
/// mandatory gate would, and every failure leaves the context untouched.
pub fn optional_auth_check_at(
    jwt: &JwtService,
    authorization: Option<&str>,
    now: i64,
    request: &mut RequestContext,
)
    ensures
        optional_gate_post(
            jwt.spec_secret(),
            authorization.deep_view(),
            now as int,
            *old(request),
            *final(request),
        ),
{
    let _ = auth_check_at(jwt, authorization, now, request);
}

/// The mandatory gate, evaluated at the current instant.
pub fn auth_middleware(
    jwt: &JwtService,
    authorization: Option<&str>,
    request: &mut RequestContext,
) -> (r: Result<(), GateError>)
    ensures
        exists|now: int|
            #[trigger] gate_post(
                jwt.spec_secret(),
                authorization.deep_view(),
                now,
                r,
                *old(request),
                *final(request),
            ),
{
    let now = now_timestamp();
    auth_check_at(jwt, authorization, now, request)
}

/// The optional gate, evaluated at the current instant.
pub fn optional_auth_middleware(
    jwt: &JwtService,
    authorization: Option<&str>,
    request: &mut RequestContext,
)
    ensures
        exists|now: int|
            #[trigger] optional_gate_post(
                jwt.spec_secret(),
                authorization.deep_view(),
                now,
                *old(request),
                *final(request),
            ),
{
    let now = now_timestamp();
    optional_auth_check_at(jwt, authorization, now, request);
}

/// The mandatory gate's rejection taxonomy: a missing authorization field is
/// rejected as missing and nothing else is; a present field without the
/// bearer scheme is rejected as malformed; a bearer credential whose token
/// fails verification is rejected as invalid and nothing else is; and an
/// accepted request carries exactly the verified claims, with a well-formed
/// subject.
pub proof fn lemma_gate_error_taxonomy(
    secret: Seq<char>,
    authorization: Option<Seq<char>>,
    now: int,
)
    ensures
        authorization is None <==> spec_gate(secret, authorization, now) == Err::<
            (Seq<char>, Seq<char>, Seq<char>),
            GateError,
        >(GateError::MissingCredential),
        (authorization matches Some(h) && !has_bearer_prefix(h)) ==> spec_gate(
            secret,
            authorization,
            now,
        ) == Err::<(Seq<char>, Seq<char>, Seq<char>), GateError>(GateError::MalformedCredential),
        (authorization matches Some(h) && has_bearer_prefix(h) && spec_verify(
            secret,
            h.skip(7),
            now,
        ) is None) <==> spec_gate(secret, authorization, now) == Err::<
            (Seq<char>, Seq<char>, Seq<char>),
            GateError,
        >(GateError::InvalidCredential),
        spec_gate(secret, authorization, now) matches Ok(u) ==> (authorization matches Some(h)
            && has_bearer_prefix(h) && (spec_verify(secret, h.skip(7), now) matches Some(c) && u
            == (c.0, c.1, c.2) && is_canonical_uuid(c.0))),
{
}

/// The optional gate never rejects: it attaches exactly the identity the
/// mandatory gate would attach, and where the mandatory gate would reject
/// for any of its three reasons, the request proceeds with no identity.
pub proof fn lemma_optional_gate_never_rejects(
    secret: Seq<char>,
    authorization: Option<Seq<char>>,
    now: int,
)
    ensures
        spec_gate(secret, authorization, now) matches Ok(u) ==> spec_gate_optional(
            secret,
            authorization,
            now,
        ) == Some(u),
        spec_gate(secret, authorization, now) is Err ==> spec_gate_optional(
            secret,
            authorization,
            now,
        ) is None,
{
}

} // verus!
