use crate::credential::{argon2_accepts, verify};
use crate::errors::{ApiError, Invalid};
use vstd::prelude::*;
use vstd::string::StrSliceExecFns;

verus! {

/// An email is accepted when some `@` has at least one character on each side.
/// This is a superficial shape check, not a validation of deliverability.
pub open spec fn email_well_formed(e: Seq<char>) -> bool {
    exists|i: int| 0 < i < e.len() - 1 && e[i] == '@'
}

/// The ASCII whitespace characters.
pub open spec fn is_blank_char(c: char) -> bool {
    c == ' ' || c == '\t' || c == '\n' || c == '\r' || c == '\x0B' || c == '\x0C'
}

/// A tag name is refused when it is empty or made of ASCII whitespace only.
pub open spec fn is_blank(n: Seq<char>) -> bool {
    forall|i: int| 0 <= i < n.len() ==> is_blank_char(n[i])
}

/// The first reason, if any, for which a registration input is refused.
pub open spec fn registration_error(email: Seq<char>, password: Seq<char>) -> Option<ApiError> {
    if !email_well_formed(email) {
        Some(ApiError::Validation(Invalid::Email))
    } else if password.len() == 0 {
        Some(ApiError::Validation(Invalid::Password))
    } else {
        None
    }
}

/// What a login answers, given the digest stored for the email (none where no
/// user has it): both failure causes give the same error.
pub open spec fn login_result(stored: Option<Seq<char>>, password: Seq<char>) -> Result<(), ApiError> {
    match stored {
        Some(d) => if argon2_accepts(password, d) {
            Ok(())
        } else {
            Err(ApiError::Unauthorized)
        },
        None => Err(ApiError::Unauthorized),
    }
}

pub open spec fn option_view(o: Option<String>) -> Option<Seq<char>> {
    match o {
        Some(s) => Some(s@),
        None => None,
    }
}

/// What went wrong in the storage layer, as far as the core tells failures apart.
#[derive(Clone, Copy, Debug, PartialEq, Eq, Structural)]
pub enum StorageFault {
    /// A unique index refused the row.
    UniqueViolation,
    /// A foreign key named no existing row.
    ForeignKeyViolation,
    /// No connection could be had, or it broke.
    Unreachable,
    /// Any other failure of the store.
    Other,
}

pub open spec fn fault_kind(f: StorageFault) -> ApiError {
    match f {
        StorageFault::UniqueViolation => ApiError::Conflict,
        StorageFault::ForeignKeyViolation => ApiError::NotFound,
        StorageFault::Unreachable => ApiError::Unavailable,
        StorageFault::Other => ApiError::Unavailable,
    }
}

/// Translates a storage failure into the error taxonomy; no storage text survives.
pub fn translate_fault(f: StorageFault) -> (r: ApiError)
    ensures
        r == fault_kind(f),
{
    match f {
        StorageFault::UniqueViolation => ApiError::Conflict,
        StorageFault::ForeignKeyViolation => ApiError::NotFound,
        StorageFault::Unreachable => ApiError::Unavailable,
        StorageFault::Other => ApiError::Unavailable,
    }
}

/// Whether `email` has the shape `local@domain` with both parts non-empty.
pub fn is_valid_email(email: &str) -> (r: bool)
    ensures
        r == email_well_formed(email@),
{
    let n = email.unicode_len();
    if n < 3 {
        return false;
    }
    let mut i: usize = 1;
    while i < n - 1
        invariant
            n == email@.len(),
            3 <= n,
            1 <= i <= n - 1,
            forall|j: int| 1 <= j < i ==> email@[j] != '@',
        decreases n - i,
    {
        if email.get_char(i) == '@' {
            return true;
        }
        i = i + 1;
    }
    false
}

/// Whether `name` is empty or ASCII whitespace only.
pub fn is_blank_name(name: &str) -> (r: bool)
    ensures
        r == is_blank(name@),
{
    let n = name.unicode_len();
    let mut i: usize = 0;
    while i < n
        invariant
            n == name@.len(),
            i <= n,
            forall|j: int| 0 <= j < i ==> is_blank_char(name@[j]),
        decreases n - i,
    {
        let c = name.get_char(i);
        if !(c == ' ' || c == '\t' || c == '\n' || c == '\r' || c == '\x0B' || c == '\x0C') {
            return false;
        }
        i = i + 1;
    }
    true
}

/// Checks a registration input before anything is hashed or stored.
pub fn check_registration(email: &str, password: &str) -> (r: Result<(), ApiError>)
    ensures
        r == match registration_error(email@, password@) {
            Some(e) => Err(e),
            None => Ok(()),
        },
{
    if !is_valid_email(email) {
        Err(ApiError::Validation(Invalid::Email))
    } else if password.is_empty() {
        Err(ApiError::Validation(Invalid::Password))
    } else {
        Ok(())
    }
}

/// Checks a tag name before the tag is stored.
pub fn check_tag_name(name: &str) -> (r: Result<(), ApiError>)
    ensures
        r == if is_blank(name@) {
            Err::<(), ApiError>(ApiError::Validation(Invalid::TagName))
        } else {
            Ok(())
        },
{
    if is_blank_name(name) {
        Err(ApiError::Validation(Invalid::TagName))
    } else {
        Ok(())
    }
}

/// Decides a login from the digest stored for the email, if any user has it.
pub fn check_login(stored: &Option<String>, password: &str) -> (r: Result<(), ApiError>)
    ensures
        r == login_result(option_view(*stored), password@),
{
    match stored {
        Some(d) => if verify(password, d.as_str()) {
            Ok(())
        } else {
            Err(ApiError::Unauthorized)
        },
        None => Err(ApiError::Unauthorized),
    }
}

} // verus!
