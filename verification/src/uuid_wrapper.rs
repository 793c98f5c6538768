//! The identifier of a request: a UUID, read from the text of a form value
//! and written back in hyphenated form.
//!
//! Reading and writing are the work of the `uuid` crate.  What it accepts is
//! known here by name only, [`parsed_uuid`]; what it writes is stated in full,
//! [`hyphenated_text`].

use std::str::FromStr;
use vstd::arithmetic::power::pow;
use vstd::prelude::*;

verus! {

/// The error of the `uuid` crate.  Nothing is known of what it holds.
#[verifier::external_type_specification]
#[verifier::external_body]
pub struct ExUuidError(uuid::Error);

/// The value that the `uuid` crate reads from `text`, if it accepts it.
pub uninterp spec fn parsed_uuid(text: Seq<char>) -> Option<u128>;

/// The sixteen digits, in lower case.
pub open spec fn hex_digits() -> Seq<char> {
    seq!['0', '1', '2', '3', '4', '5', '6', '7', '8', '9', 'a', 'b', 'c', 'd', 'e', 'f']
}

/// The `i`-th of the 32 hexadecimal digits of `value`, the most significant
/// first.
pub open spec fn digit(value: u128, i: int) -> char {
    hex_digits()[(value as int / pow(16, (31 - i) as nat)) % 16]
}

/// How many hyphens stand before place `p` of the hyphenated form.
pub open spec fn hyphens_before(p: int) -> int {
    if p < 8 {
        0
    } else if p < 13 {
        1
    } else if p < 18 {
        2
    } else if p < 23 {
        3
    } else {
        4
    }
}

/// The hyphenated form of `value`: its 32 digits in groups of 8, 4, 4, 4 and
/// 12, with a hyphen between two groups.
pub open spec fn hyphenated_text(value: u128) -> Seq<char> {
    Seq::new(
        36,
        |p: int|
            if p == 8 || p == 13 || p == 18 || p == 23 {
                '-'
            } else {
                digit(value, p - hyphens_before(p))
            },
    )
}

/// A UUID.
#[derive(Clone, Copy, Debug, PartialEq, Eq, Hash, Structural)]
pub struct Uuid(u128);

/// Errors occurring when a UUID is read from text.
#[derive(Debug)]
pub enum UuidParseError {
    /// The form value could not be taken as a string.
    StrError(std::string::ParseError),
    /// The string is no UUID.
    UuidError(uuid::Error),
}

impl View for Uuid {
    type V = u128;

    /// The UUID as one number, its first byte the most significant.
    closed spec fn view(&self) -> u128 {
        self.0
    }
}

/// `uuid::Uuid::from_str`, with the UUID it reads handed out as a number by
/// `uuid::Uuid::as_u128`.  The text is accepted exactly if [`parsed_uuid`]
/// has a value for it, and that value is the one returned.
#[verifier::external_body]
fn parse_str(text: &str) -> (r: Result<u128, uuid::Error>)
    ensures
        match r {
            Ok(value) => parsed_uuid(text@) == Some(value),
            Err(_) => parsed_uuid(text@) is None,
        },
{
    match uuid::Uuid::from_str(text) {
        Ok(id) => Ok(id.as_u128()),
        Err(e) => Err(e),
    }
}

/// `uuid::Uuid::hyphenated`, written out by `to_string`, for the UUID that
/// `uuid::Uuid::from_u128` makes of `value`.  The text is the 36 characters
/// of [`hyphenated_text`].
#[verifier::external_body]
fn format_hyphenated(value: u128) -> (s: String)
    ensures
        s@ == hyphenated_text(value),
{
    uuid::Uuid::from_u128(value).hyphenated().to_string()
}

impl Uuid {
    /// The UUID with the given value.
    pub fn from_u128(value: u128) -> (id: Uuid)
        ensures
            id@ == value,
    {
        Uuid(value)
    }

    /// The value of the UUID.
    pub fn as_u128(&self) -> (value: u128)
        ensures
            value == self@,
    {
        self.0
    }

    /// Makes of what the parser returned what the caller gets: the UUID with
    /// the value read, or the parser's error as it came.
    pub fn from_parsed(parsed: Result<u128, uuid::Error>) -> (r: Result<Uuid, UuidParseError>)
        ensures
            match parsed {
                Ok(value) => r matches Ok(id) && id@ == value,
                Err(e) => r matches Err(UuidParseError::UuidError(f)) && f == e,
            },
    {
        match parsed {
            Ok(value) => Ok(Uuid(value)),
            Err(e) => Err(UuidParseError::UuidError(e)),
        }
    }

    /// Reads a UUID from the text of a form value.  Succeeds exactly on the
    /// texts that the `uuid` crate accepts, with the value it reads; on every
    /// other text the crate's error is returned.
    pub fn from_form_value(form_value: &str) -> (r: Result<Uuid, UuidParseError>)
        ensures
            match parsed_uuid(form_value@) {
                Some(value) => r matches Ok(id) && id@ == value,
                None => r matches Err(UuidParseError::UuidError(_)),
            },
    {
        Uuid::from_parsed(parse_str(form_value))
    }

    /// The UUID in hyphenated form, as it is serialized.
    pub fn hyphenated(&self) -> (s: String)
        ensures
            s@ == hyphenated_text(self@),
            s@.len() == 36,
    {
        format_hyphenated(self.0)
    }
}

} // verus!
