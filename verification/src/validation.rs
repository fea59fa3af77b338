//! Shape checks for registration input.
//!
//! The standalone email and password helpers bound the UTF-8 byte length of
//! their input, the measure of what is stored and transmitted; the username
//! rule admits ASCII only, so its byte and character counts agree. The email
//! helper applies the loose service-level rule (an `@` somewhere, at most
//! 255 bytes); the stricter per-request email rule lives with the request
//! validation in [`crate::user_service`], which counts characters, as the
//! request-shape rules do.

use vstd::prelude::*;
use vstd::string::StrSliceExecFns;
use vstd::string::StringSliceAdditionalSpecFns;

verus! {

/// A character allowed in a username: an ASCII letter, a digit or `_`.
pub open spec fn is_username_char(c: char) -> bool {
    ('a' <= c && c <= 'z') || ('A' <= c && c <= 'Z') || ('0' <= c && c <= '9') || c == '_'
}

/// A valid username: 3 to 50 characters, all of them letters, digits or `_`.
pub open spec fn spec_valid_username(s: Seq<char>) -> bool {
    &&& 3 <= s.len() <= 50
    &&& forall|i: int| 0 <= i < s.len() ==> is_username_char(#[trigger] s[i])
}

/// A valid email for service-level checks: contains `@`, at most 255 bytes.
pub open spec fn spec_valid_email(s: &str) -> bool {
    s@.contains('@') && s.spec_bytes().len() <= 255
}

/// A valid password: 8 to 128 bytes.
pub open spec fn spec_valid_password(s: &str) -> bool {
    8 <= s.spec_bytes().len() <= 128
}

/// Email validation helper
pub fn is_valid_email(email: &str) -> (r: bool)
    ensures
        r == spec_valid_email(email),
{
    if email.as_bytes().len() > 255 {
        return false;
    }
    let n = email.unicode_len();
    let mut i: usize = 0;
    while i < n
        invariant
            n == email@.len(),
            email.spec_bytes().len() <= 255,
            0 <= i <= n,
            forall|j: int| 0 <= j < i ==> email@[j] != '@',
        decreases n - i,
    {
        if email.get_char(i) == '@' {
            assert(email@.contains('@'));
            return true;
        }
        i += 1;
    }
    assert(!email@.contains('@'));
    false
}

/// Username validation helper
pub fn is_valid_username(username: &str) -> (r: bool)
    ensures
        r == spec_valid_username(username@),
{
    let n = username.unicode_len();
    if n < 3 || n > 50 {
        return false;
    }
    let mut i: usize = 0;
    while i < n
        invariant
            n == username@.len(),
            3 <= n <= 50,
            0 <= i <= n,
            forall|j: int| 0 <= j < i ==> is_username_char(#[trigger] username@[j]),
        decreases n - i,
    {
        let c = username.get_char(i);
        let ok = ('a' <= c && c <= 'z') || ('A' <= c && c <= 'Z') || ('0' <= c && c <= '9')
            || c == '_';
        if !ok {
            return false;
        }
        i += 1;
    }
    true
}

/// Password validation helper
pub fn is_valid_password(password: &str) -> (r: bool)
    ensures
        r == spec_valid_password(password),
{
    let n = password.as_bytes().len();
    8 <= n && n <= 128
}

/// Whether the stricter per-request email rule accepts a string. The rule
/// is the HTML5 email shape; a function of the string alone.
pub uninterp spec fn email_accepted(s: Seq<char>) -> bool;

/// Relies on validator::ValidateEmail::validate_email for `&str`: the HTML5
/// email shape, a function of the string alone (`email_accepted` names it);
/// the empty string is never accepted.
#[verifier::external_body]
pub(crate) fn check_email(email: &str) -> (r: bool)
    ensures
        r == email_accepted(email@),
        email@.len() == 0 ==> r == false,
{
    validator::ValidateEmail::validate_email(&email)
}

} // verus!
