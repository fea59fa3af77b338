//! Plain data carried across the core's boundary.
//!
//! Identifiers travel as their canonical string form and instants as Unix
//! timestamps in seconds, so that every field is a value the contracts can
//! speak about directly. The web layer owns the serialized shapes.

use vstd::prelude::*;
use vstd::string::StringExecFns;

verus! {

/// A registration request: the three values a new account is made from.
#[derive(Debug, Clone)]
pub struct RegisterRequest {
    pub email: String,
    pub username: String,
    pub password: String,
}

/// A login request.
#[derive(Debug, Clone)]
pub struct LoginRequest {
    pub email: String,
    pub password: String,
}

/// A stored account record, as the persistence collaborator hands it in.
#[derive(Debug, Clone)]
pub struct User {
    pub id: String,
    pub email: String,
    pub username: String,
    pub password_hash: String,
    pub created_at: i64,
    pub updated_at: i64,
}

/// A new account record, ready to be stored by the persistence collaborator.
/// The raw password never appears here; only its hash does.
#[derive(Debug, Clone)]
pub struct NewUser {
    pub email: String,
    pub username: String,
    pub password_hash: String,
}

/// The public view of an account.
#[derive(Debug, Clone)]
pub struct UserInfo {
    pub id: String,
    pub email: String,
    pub username: String,
}

/// What a successful registration reports back.
#[derive(Debug, Clone)]
pub struct RegisterResponse {
    pub id: String,
    pub email: String,
    pub username: String,
    pub created_at: i64,
}

/// What a successful login reports back: the bearer token and its terms.
#[derive(Debug, Clone)]
pub struct LoginResponse {
    pub access_token: String,
    pub token_type: String,
    pub expires_in: i64,
    pub user: UserInfo,
}

/// What a health check reports.
#[derive(Debug, Clone)]
pub struct HealthResponse {
    /// Service status
    pub status: String,
    /// The instant of the report, Unix seconds
    pub timestamp: i64,
    /// Service version
    pub version: String,
    /// Environment
    pub environment: String,
}

impl HealthResponse {
    /// Create a new healthy response for the given instant, version and
    /// environment.
    pub fn healthy(timestamp: i64, version: &str, environment: &str) -> (r: HealthResponse)
        ensures
            r.status@ == "healthy"@,
            r.timestamp == timestamp,
            r.version@ == version@,
            r.environment@ == environment@,
    {
        HealthResponse {
            status: String::from_str("healthy"),
            timestamp,
            version: String::from_str(version),
            environment: String::from_str(environment),
        }
    }
}

impl UserInfo {
    /// The public view of a stored account: the same identity fields, and
    /// never the credential hash.
    pub fn of_user(user: &User) -> (r: UserInfo)
        ensures
            r.id == user.id,
            r.email == user.email,
            r.username == user.username,
    {
        UserInfo { id: user.id.clone(), email: user.email.clone(), username: user.username.clone() }
    }
}

impl RegisterResponse {
    /// What registration reports of a freshly stored account.
    pub fn of_user(user: &User) -> (r: RegisterResponse)
        ensures
            r.id == user.id,
            r.email == user.email,
            r.username == user.username,
            r.created_at == user.created_at,
    {
        RegisterResponse {
            id: user.id.clone(),
            email: user.email.clone(),
            username: user.username.clone(),
            created_at: user.created_at,
        }
    }
}

} // verus!
