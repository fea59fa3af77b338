//! The service-level registration and login flows.
//!
//! The persistence collaborator is outside this crate: the surrounding
//! layer looks accounts up and passes the results in as plain values, and
//! stores whatever `register` hands back. The service itself only decides:
//! it checks the request's shape, refuses duplicates, hashes the password,
//! compares credentials and mints tokens.

use vstd::prelude::*;
use vstd::string::StrSliceExecFns;
use vstd::string::StringExecFns;
use crate::credential::bcrypt_matches;
use crate::credential::bcrypt_wellformed;
use crate::credential::hash_password;
use crate::credential::verify_password;
use crate::dto::LoginRequest;
use crate::dto::LoginResponse;
use crate::dto::NewUser;
use crate::dto::RegisterRequest;
use crate::dto::User;
use crate::dto::UserInfo;
use crate::error::ApiError;
use crate::jwt::JwtService;
use crate::jwt::TOKEN_VALIDITY_SECONDS;
use crate::jwt::issued_payload;
use crate::jwt::three_dot_segments;
use crate::validation::email_accepted;
use crate::validation::check_email;
use crate::validation::is_valid_username;
use crate::validation::spec_valid_username;

verus! {

/// The registration request shapes the service accepts: an acceptable
/// email, a well-formed username, and a password of 8 to 128 characters
/// (the request-shape rules count characters).
pub open spec fn spec_register_valid(
    email: Seq<char>,
    username: Seq<char>,
    password: Seq<char>,
) -> bool {
    email_accepted(email) && spec_valid_username(username) && 8 <= password.len() <= 128
}

/// The login request shapes the service accepts: an acceptable email and a
/// non-empty password.
pub open spec fn spec_login_valid(email: Seq<char>, password: Seq<char>) -> bool {
    email_accepted(email) && password.len() >= 1
}

/// The user service: the decision core of registration and login, over an
/// immutable token service.
pub struct UserService {
    jwt_service: JwtService,
}

impl UserService {
    /// The signing secret of the service's token service.
    pub closed spec fn spec_secret(&self) -> Seq<char> {
        self.jwt_service.spec_secret()
    }

    /// A service over the development fallback secret.
    pub fn new() -> (r: Self)
        ensures
            r.spec_secret() == "your-secret-key-change-this-in-production"@,
    {
        UserService { jwt_service: JwtService::default() }
    }

    /// A service over an explicitly configured token service.
    pub fn new_with_jwt(jwt_service: JwtService) -> (r: Self)
        ensures
            r.spec_secret() == jwt_service.spec_secret(),
    {
        UserService { jwt_service }
    }

    /// Decide a registration: check the request's shape, refuse duplicates,
    /// and hash the password into the record to store. The caller passes in
    /// whether the email and the username are already taken, and stores the
    /// returned record; the raw password goes no further than the hasher.
    pub fn register(
        &self,
        request: &RegisterRequest,
        email_exists: bool,
        username_exists: bool,
    ) -> (r: Result<NewUser, ApiError>)
        ensures
            !email_accepted(request.email@) ==> (r matches Err(ApiError::Validation(m)) && m@
                == "유효한 이메일 주소를 입력해주세요"@),
            email_accepted(request.email@) && !(3 <= request.username@.len() <= 50) ==> (r matches
                Err(ApiError::Validation(m)) && m@ == "사용자명은 3-50자 사이여야 합니다"@),
            email_accepted(request.email@) && 3 <= request.username@.len() <= 50
                && !spec_valid_username(request.username@) ==> (r matches Err(
                ApiError::Validation(m),
            ) && m@ == "사용자명은 영문, 숫자, 언더스코어만 사용 가능합니다"@),
            email_accepted(request.email@) && spec_valid_username(request.username@) && !(8
                <= request.password@.len() <= 128) ==> (r matches Err(ApiError::Validation(m))
                && m@ == "비밀번호는 8-128자 사이여야 합니다"@),
            spec_register_valid(request.email@, request.username@, request.password@)
                && email_exists ==> (r matches Err(ApiError::Conflict(m)) && m@
                == "이미 존재하는 이메일입니다"@),
            spec_register_valid(request.email@, request.username@, request.password@)
                && !email_exists && username_exists ==> (r matches Err(ApiError::Conflict(m)) && m@
                == "이미 존재하는 사용자명입니다"@),
            spec_register_valid(request.email@, request.username@, request.password@)
                && !email_exists && !username_exists ==> (r is Ok || (r matches Err(
                ApiError::PasswordHash(m),
            ) && m@ == "비밀번호 해싱에 실패했습니다"@)),
            r matches Ok(n) ==> spec_register_valid(
                request.email@,
                request.username@,
                request.password@,
            ) && !email_exists && !username_exists && n.email == request.email && n.username
                == request.username && n.password_hash@.len() == 60 && bcrypt_wellformed(
                n.password_hash@,
            ) && bcrypt_matches(request.password@, n.password_hash@),
    {
        if !check_email(request.email.as_str()) {
            return Err(
                ApiError::Validation(String::from_str("유효한 이메일 주소를 입력해주세요")),
            );
        }
        let ulen = request.username.as_str().unicode_len();
        if ulen < 3 || ulen > 50 {
            return Err(
                ApiError::Validation(String::from_str("사용자명은 3-50자 사이여야 합니다")),
            );
        }
        if !is_valid_username(request.username.as_str()) {
            return Err(
                ApiError::Validation(
                    String::from_str("사용자명은 영문, 숫자, 언더스코어만 사용 가능합니다"),
                ),
            );
        }
        let plen = request.password.as_str().unicode_len();
        if plen < 8 || plen > 128 {
            return Err(
                ApiError::Validation(String::from_str("비밀번호는 8-128자 사이여야 합니다")),
            );
        }
        if email_exists {
            return Err(ApiError::Conflict(String::from_str("이미 존재하는 이메일입니다")));
        }
        if username_exists {
            return Err(ApiError::Conflict(String::from_str("이미 존재하는 사용자명입니다")));
        }
        match hash_password(request.password.as_str()) {
            Ok(password_hash) => Ok(
                NewUser {
                    email: request.email.clone(),
                    username: request.username.clone(),
                    password_hash,
                },
            ),
            Err(_) => Err(
                ApiError::PasswordHash(String::from_str("비밀번호 해싱에 실패했습니다")),
            ),
        }
    }

    /// Finish a login once the credential comparison has answered: a
    /// non-matching password is turned away, a matching one is handed a
    /// fresh token over the account's identity fields.
    pub fn login_with_match(&self, user: &User, password_matches: bool) -> (r: Result<
        LoginResponse,
        ApiError,
    >)
        ensures
            !password_matches <==> (r matches Err(ApiError::Unauthorized(m)) && m@
                == "잘못된 이메일 또는 비밀번호입니다"@),
            password_matches ==> (r is Ok || (r matches Err(ApiError::Internal(m)) && m@
                == "JWT 토큰 생성 실패"@)),
            r matches Ok(resp) ==> (resp.user.id == user.id && resp.user.email == user.email
                && resp.user.username == user.username && resp.token_type@ == "Bearer"@
                && resp.expires_in == TOKEN_VALIDITY_SECONDS && three_dot_segments(
                resp.access_token@,
            ) && (exists|iat: int|
                0 <= iat && #[trigger] issued_payload(
                    self.spec_secret(),
                    user.id@,
                    user.email@,
                    user.username@,
                    iat,
                    resp.access_token@,
                ))),
    {
        if !password_matches {
            return Err(
                ApiError::Unauthorized(String::from_str("잘못된 이메일 또는 비밀번호입니다")),
            );
        }
        match self.jwt_service.generate_token(
            user.id.as_str(),
            user.email.as_str(),
            user.username.as_str(),
        ) {
            Err(_) => Err(ApiError::Internal(String::from_str("JWT 토큰 생성 실패"))),
            Ok(access_token) => {
                let resp = LoginResponse {
                    access_token,
                    token_type: String::from_str("Bearer"),
                    expires_in: self.jwt_service.expires_in_seconds(),
                    user: UserInfo::of_user(user),
                };
                proof {
                    let iat = choose|iat: int|
                        0 <= iat && #[trigger] issued_payload(
                            self.jwt_service.spec_secret(),
                            user.id@,
                            user.email@,
                            user.username@,
                            iat,
                            resp.access_token@,
                        );
                    assert(0 <= iat && issued_payload(
                        self.spec_secret(),
                        user.id@,
                        user.email@,
                        user.username@,
                        iat,
                        resp.access_token@,
                    ));
                }
                Ok(resp)
            },
        }
    }

    /// Decide a login: check the request's shape, compare the password
    /// against the stored credential, and mint a token. The caller passes in
    /// the stored account found under the request's email, or nothing. A
    /// missing account and a wrong password answer with one and the same
    /// message, so that the two cannot be told apart.
    pub fn login(&self, request: &LoginRequest, user: Option<&User>) -> (r: Result<
        LoginResponse,
        ApiError,
    >)
        ensures
            !email_accepted(request.email@) ==> (r matches Err(ApiError::Validation(m)) && m@
                == "유효한 이메일 주소를 입력해주세요"@),
            email_accepted(request.email@) && request.password@.len() < 1 ==> (r matches Err(
                ApiError::Validation(m),
            ) && m@ == "비밀번호를 입력해주세요"@),
            spec_login_valid(request.email@, request.password@) && user is None ==> (r matches Err(
                ApiError::Unauthorized(m),
            ) && m@ == "잘못된 이메일 또는 비밀번호입니다"@),
            r matches Err(ApiError::Unauthorized(m)) ==> m@
                == "잘못된 이메일 또는 비밀번호입니다"@,
            (user matches Some(u) ==> ((spec_login_valid(request.email@, request.password@)
                && !bcrypt_wellformed(u.password_hash@)) ==> (r matches Err(
                ApiError::PasswordHash(m),
            ) && m@ == "비밀번호 해싱에 실패했습니다"@))),
            (user matches Some(u) ==> ((spec_login_valid(request.email@, request.password@)
                && bcrypt_wellformed(u.password_hash@) && !bcrypt_matches(
                request.password@,
                u.password_hash@,
            )) ==> (r matches Err(ApiError::Unauthorized(m)) && m@
                == "잘못된 이메일 또는 비밀번호입니다"@))),
            (user matches Some(u) ==> ((spec_login_valid(request.email@, request.password@)
                && bcrypt_wellformed(u.password_hash@) && bcrypt_matches(
                request.password@,
                u.password_hash@,
            )) ==> (r is Ok || (r matches Err(ApiError::Internal(m)) && m@
                == "JWT 토큰 생성 실패"@)))),
            r matches Err(ApiError::PasswordHash(m)) ==> (user matches Some(u)
                && !bcrypt_wellformed(u.password_hash@)),
            r matches Ok(resp) ==> (spec_login_valid(request.email@, request.password@) && (
            user matches Some(u) && resp.user.id == u.id && resp.user.email == u.email
                && resp.user.username == u.username && resp.token_type@ == "Bearer"@
                && resp.expires_in == TOKEN_VALIDITY_SECONDS && bcrypt_matches(
                request.password@,
                u.password_hash@,
            ) && three_dot_segments(resp.access_token@) && (exists|iat: int|
                0 <= iat && #[trigger] issued_payload(
                    self.spec_secret(),
                    u.id@,
                    u.email@,
                    u.username@,
                    iat,
                    resp.access_token@,
                )))),
    {
        if !check_email(request.email.as_str()) {
            return Err(
                ApiError::Validation(String::from_str("유효한 이메일 주소를 입력해주세요")),
            );
        }
        let plen = request.password.as_str().unicode_len();
        if plen < 1 {
            return Err(ApiError::Validation(String::from_str("비밀번호를 입력해주세요")));
        }
        let user = match user {
            Some(u) => u,
            None => {
                return Err(
                    ApiError::Unauthorized(
                        String::from_str("잘못된 이메일 또는 비밀번호입니다"),
                    ),
                );
            },
        };
        match verify_password(request.password.as_str(), user.password_hash.as_str()) {
            Err(_) => Err(ApiError::PasswordHash(String::from_str("비밀번호 해싱에 실패했습니다"))),
            Ok(password_matches) => self.login_with_match(user, password_matches),
        }
    }
}

} // verus!
