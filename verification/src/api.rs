//! Validation and error rules of the HTTP API over the school records.
//!
//! The HTTP surface itself — routing, JSON, the database — lives outside
//! this crate; verified here are its decision rules: the error taxonomy
//! with its status codes and messages, the TERYT code grammar, and the
//! email precheck of the submit-URL form.

use vstd::prelude::*;

verus! {

/// The errors the API reports to its callers.
#[derive(Clone, Copy, Debug, PartialEq, Eq, Structural)]
pub enum ApiError {
    DbError,
    InvalidTerytCode,
    InvalidEmailAddress,
    EntityNotFound,
    RouteNotFound,
}

impl ApiError {
    /// The HTTP status code of each error.
    pub open spec fn spec_status_code(self) -> u16 {
        match self {
            ApiError::DbError => 500,
            ApiError::InvalidTerytCode => 400,
            ApiError::InvalidEmailAddress => 400,
            ApiError::EntityNotFound => 404,
            ApiError::RouteNotFound => 404,
        }
    }

    pub fn get_status_code(&self) -> (r: u16)
        ensures
            r == self.spec_status_code(),
    {
        match self {
            ApiError::DbError => 500,
            ApiError::InvalidTerytCode => 400,
            ApiError::InvalidEmailAddress => 400,
            ApiError::EntityNotFound => 404,
            ApiError::RouteNotFound => 404,
        }
    }

    /// The user-facing message of each error.
    pub fn get_message(&self) -> (r: &'static str)
        ensures
            (match self {
                ApiError::DbError => r@ == "Unexpected database error"@,
                ApiError::InvalidTerytCode => r@ == "Invalid TERYT code"@,
                ApiError::InvalidEmailAddress => r@ == "Invalid email address"@,
                ApiError::EntityNotFound => r@ == "Entity not found"@,
                ApiError::RouteNotFound => r@ == "Route not found"@,
            }),
    {
        match self {
            ApiError::DbError => "Unexpected database error",
            ApiError::InvalidTerytCode => "Invalid TERYT code",
            ApiError::InvalidEmailAddress => "Invalid email address",
            ApiError::EntityNotFound => "Entity not found",
            ApiError::RouteNotFound => "Route not found",
        }
    }

    /// The error reported for a failed database insert: a foreign-key
    /// violation means the referenced entity does not exist; any other
    /// failure is a plain database error.
    pub fn from_db_failure(foreign_key_violation: bool) -> (r: ApiError)
        ensures
            r == (if foreign_key_violation {
                ApiError::EntityNotFound
            } else {
                ApiError::DbError
            }),
    {
        if foreign_key_violation {
            ApiError::EntityNotFound
        } else {
            ApiError::DbError
        }
    }
}

pub open spec fn spec_is_digit(c: char) -> bool {
    '0' as int <= c as int && c as int <= '9' as int
}

/// A well-formed TERYT location code: an even two-digit voivodeship code
/// between 02 and 32, optionally followed by a two-digit county code,
/// optionally followed by a commune code of two digits plus an optional
/// type digit — so 2, 4, 6 or 7 digits in all.
pub open spec fn spec_valid_teryt(s: Seq<char>) -> bool {
    &&& (s.len() == 2 || s.len() == 4 || s.len() == 6 || s.len() == 7)
    &&& (forall|i: int| 0 <= i < s.len() ==> spec_is_digit(#[trigger] s[i]))
    &&& {
        let v = (s[0] as int - '0' as int) * 10 + (s[1] as int - '0' as int);
        2 <= v <= 32 && v % 2 == 0
    }
}

/// Validate a TERYT location code.
pub fn validate_teryt(teryt: &str) -> (r: bool)
    ensures
        r == spec_valid_teryt(teryt@),
{
    let len = teryt.unicode_len();
    if !(len == 2 || len == 4 || len == 6 || len == 7) {
        return false;
    }
    let mut i: usize = 0;
    while i < len
        invariant
            len == teryt@.len(),
            0 <= i <= len,
            forall|j: int| 0 <= j < i ==> spec_is_digit(#[trigger] teryt@[j]),
        decreases len - i,
    {
        let u = teryt.get_char(i) as u32;
        if u < 48 || u > 57 {
            return false;
        }
        i = i + 1;
    }
    let v = (teryt.get_char(0) as u32 - 48) * 10 + (teryt.get_char(1) as u32 - 48);
    2 <= v && v <= 32 && v % 2 == 0
}

/// What email_address::EmailAddress::is_valid decides of an address
/// string: acceptance depends on the characters alone.
pub uninterp spec fn email_valid(s: Seq<char>) -> bool;

/// Relies on email_address::EmailAddress::is_valid: syntactic validity of
/// an email address.
#[verifier::external_body]
fn email_is_valid(address: &str) -> (r: bool)
    ensures
        r == email_valid(address@),
{
    email_address::EmailAddress::is_valid(address)
}

/// The submit-URL precheck: an absent email address passes; a present one
/// must be a valid address, else the request is rejected.
pub fn validate_submission_email(email: Option<&str>) -> (r: Result<(), ApiError>)
    ensures
        (match email {
            Some(e) => r == (if email_valid(e@) {
                Result::<(), ApiError>::Ok(())
            } else {
                Result::<(), ApiError>::Err(ApiError::InvalidEmailAddress)
            }),
            None => r == Result::<(), ApiError>::Ok(()),
        }),
{
    match email {
        Some(e) => {
            if email_is_valid(e) {
                Ok(())
            } else {
                Err(ApiError::InvalidEmailAddress)
            }
        },
        None => Ok(()),
    }
}

} // verus!
