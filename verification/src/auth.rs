//! Authenticated-user data and the account rules that are pure logic:
//! role checks, token claims, and password-strength validation. Session
//! management itself — hashing, token signing, storage — lives with the
//! outside collaborators.

use vstd::prelude::*;
use vstd::string::StringExecFns;
use crate::text::has_sub;
use crate::text::lower_seq;
use crate::text::str_eq;
use crate::text::str_to_chars;
use crate::text::to_lower;
use crate::text::contains_sub;

verus! {

/// The authenticated caller of a request.
pub struct AuthUser {
    pub id: String,
    pub email: String,
    pub name: String,
    pub role: String,
}

/// A sign-in request.
pub struct LoginRequest {
    pub email: String,
    pub password: String,
}

/// An account-creation request.
pub struct RegisterRequest {
    pub email: String,
    pub password: String,
    pub name: String,
}

/// A profile-update request; only the supplied fields change.
pub struct UpdateProfileRequest {
    pub name: Option<String>,
    pub password: Option<String>,
}

/// The user part of an authentication response.
pub struct UserResponse {
    pub id: String,
    pub email: String,
    pub name: String,
    pub role: String,
}

/// A successful authentication: the session token and its user.
pub struct AuthResponse {
    pub token: String,
    pub user: UserResponse,
}

/// Whether the user holds the role, with the administrator role standing
/// in for every role.
pub fn has_role(user: &AuthUser, role: &str) -> (r: bool)
    ensures
        r == (user.role@ == role@ || user.role@ == "admin"@),
{
    str_eq(user.role.as_str(), role) || str_eq(user.role.as_str(), "admin")
}

/// How long a session token stays valid, in seconds.
pub const TOKEN_TTL_SECS: i64 = 86400;

/// The claims carried by a session token.
pub struct Claims {
    pub sub: String,
    pub email: String,
    pub name: String,
    pub role: String,
    pub exp: i64,
    pub iat: i64,
}

impl Claims {
    /// Claims for a session opened at `now`, expiring one day later.
    pub fn new(user_id: String, email: String, name: String, role: String, now: i64) -> (r:
        Claims)
        requires
            now <= i64::MAX - TOKEN_TTL_SECS,
        ensures
            r.sub == user_id,
            r.email == email,
            r.name == name,
            r.role == role,
            r.iat == now,
            r.exp == now + TOKEN_TTL_SECS,
    {
        Claims { sub: user_id, email, name, role, exp: now + TOKEN_TTL_SECS, iat: now }
    }
}

/// `c` is an ASCII capital letter.
pub open spec fn is_upper_char(c: char) -> bool {
    'A' as u32 <= c as u32 <= 'Z' as u32
}

/// `c` is an ASCII small letter.
pub open spec fn is_lower_char(c: char) -> bool {
    'a' as u32 <= c as u32 <= 'z' as u32
}

/// `c` is an ASCII digit.
pub open spec fn is_digit_char(c: char) -> bool {
    '0' as u32 <= c as u32 <= '9' as u32
}

/// Some character of `s` is an ASCII capital letter.
pub open spec fn has_upper(s: Seq<char>) -> bool {
    exists|i: int| 0 <= i < s.len() && is_upper_char(s[i])
}

/// Some character of `s` is an ASCII small letter.
pub open spec fn has_lower(s: Seq<char>) -> bool {
    exists|i: int| 0 <= i < s.len() && is_lower_char(s[i])
}

/// Some character of `s` is an ASCII digit.
pub open spec fn has_digit(s: Seq<char>) -> bool {
    exists|i: int| 0 <= i < s.len() && is_digit_char(s[i])
}

/// The lower-cased password holds one of the well-known weak passwords.
pub open spec fn contains_weak(lower: Seq<char>) -> bool {
    ||| has_sub(lower, "password"@)
    ||| has_sub(lower, "12345678"@)
    ||| has_sub(lower, "qwerty123"@)
    ||| has_sub(lower, "admin123"@)
    ||| has_sub(lower, "password1"@)
    ||| has_sub(lower, "pass1234"@)
    ||| has_sub(lower, "test1234"@)
}

/// A password is acceptable: between 8 and 128 characters, with a
/// capital letter, a small letter and a digit, and free of the
/// well-known weak passwords.
pub open spec fn password_acceptable(s: Seq<char>) -> bool {
    &&& 8 <= s.len() <= 128
    &&& has_upper(s)
    &&& has_lower(s)
    &&& has_digit(s)
    &&& !contains_weak(lower_seq(s))
}

/// The message reported for an unacceptable password, checked in the
/// validator's order.
pub open spec fn spec_password_error(s: Seq<char>) -> Seq<char> {
    if s.len() < 8 {
        "password must be at least 8 characters long"@
    } else if s.len() > 128 {
        "password must be at most 128 characters long"@
    } else if !has_upper(s) {
        "password must contain an uppercase letter"@
    } else if !has_lower(s) {
        "password must contain a lowercase letter"@
    } else if !has_digit(s) {
        "password must contain a digit"@
    } else {
        "password is too common; choose a stronger one"@
    }
}

/// Some character of `s` is an ASCII capital letter.
#[verifier::loop_isolation(false)]
fn any_upper(s: &Vec<char>) -> (r: bool)
    ensures
        r == has_upper(s@),
{
    let mut i: usize = 0;
    while i < s.len()
        invariant
            i <= s@.len(),
            forall|j: int| 0 <= j < i ==> !is_upper_char(s@[j]),
        decreases s@.len() - i,
    {
        let c = s[i];
        if 'A' as u32 <= c as u32 && c as u32 <= 'Z' as u32 {
            return true;
        }
        i += 1;
    }
    false
}

/// Some character of `s` is an ASCII small letter.
#[verifier::loop_isolation(false)]
fn any_lower(s: &Vec<char>) -> (r: bool)
    ensures
        r == has_lower(s@),
{
    let mut i: usize = 0;
    while i < s.len()
        invariant
            i <= s@.len(),
            forall|j: int| 0 <= j < i ==> !is_lower_char(s@[j]),
        decreases s@.len() - i,
    {
        let c = s[i];
        if 'a' as u32 <= c as u32 && c as u32 <= 'z' as u32 {
            return true;
        }
        i += 1;
    }
    false
}

/// Some character of `s` is an ASCII digit.
#[verifier::loop_isolation(false)]
fn any_digit(s: &Vec<char>) -> (r: bool)
    ensures
        r == has_digit(s@),
{
    let mut i: usize = 0;
    while i < s.len()
        invariant
            i <= s@.len(),
            forall|j: int| 0 <= j < i ==> !is_digit_char(s@[j]),
        decreases s@.len() - i,
    {
        let c = s[i];
        if '0' as u32 <= c as u32 && c as u32 <= '9' as u32 {
            return true;
        }
        i += 1;
    }
    false
}

/// Validates a password against the account rules: length between 8 and
/// 128, at least one capital letter, small letter and digit, and none of
/// the well-known weak passwords inside it; the first failing rule names
/// the error.
pub fn validate_password_strength(password: &str) -> (r: Result<(), String>)
    ensures
        r is Ok <==> password_acceptable(password@),
        r matches Err(m) ==> m@ == spec_password_error(password@),
{
    let chars = str_to_chars(password);
    if chars.len() < 8 {
        return Err(String::from_str("password must be at least 8 characters long"));
    }
    if chars.len() > 128 {
        return Err(String::from_str("password must be at most 128 characters long"));
    }
    if !any_upper(&chars) {
        return Err(String::from_str("password must contain an uppercase letter"));
    }
    if !any_lower(&chars) {
        return Err(String::from_str("password must contain a lowercase letter"));
    }
    if !any_digit(&chars) {
        return Err(String::from_str("password must contain a digit"));
    }
    let lower = to_lower(&chars);
    let weak = contains_sub(&lower, &str_to_chars("password")) || contains_sub(
        &lower,
        &str_to_chars("12345678"),
    ) || contains_sub(&lower, &str_to_chars("qwerty123")) || contains_sub(
        &lower,
        &str_to_chars("admin123"),
    ) || contains_sub(&lower, &str_to_chars("password1")) || contains_sub(
        &lower,
        &str_to_chars("pass1234"),
    ) || contains_sub(&lower, &str_to_chars("test1234"));
    if weak {
        return Err(String::from_str("password is too common; choose a stronger one"));
    }
    Ok(())
}

} // verus!
