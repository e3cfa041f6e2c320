//! Validation of keys, identifier strings and values before anything is stored.

use vstd::prelude::*;

verus! {

/// The error value of `anyhow`, carried from a failed check to the place that
/// maps it to a [`ValidationError`]. Nothing is known of what it holds.
#[verifier::external_type_specification]
#[verifier::external_body]
pub struct ExAnyhowError(anyhow::Error);

/// Why an input was rejected. A rejected input never changes any state.
#[derive(Clone, Copy, Debug, PartialEq, Eq, Structural)]
pub enum ValidationError {
    /// A key of the general store is empty, blank or not ASCII.
    InvalidKey,
    /// A value of the general store has no bytes.
    EmptyValue,
    /// An identifier string is empty, blank or not ASCII.
    InvalidIdentifier,
}

/// The ASCII characters that count as whitespace: tab, line feed, vertical
/// tab, form feed, carriage return and space.
pub open spec fn is_ascii_whitespace(c: char) -> bool {
    c == ' ' || ('\u{9}' <= c && c <= '\u{d}')
}

/// A string is valid when it is not empty, holds only ASCII characters, and
/// at least one of them is not whitespace.
pub open spec fn valid_string(s: Seq<char>) -> bool {
    &&& s.len() > 0
    &&& forall|i: int| 0 <= i < s.len() ==> #[trigger] s[i] <= '\u{7f}'
    &&& exists|i: int| 0 <= i < s.len() && !is_ascii_whitespace(#[trigger] s[i])
}

/// Calls `nautilus_core::correctness::check_valid_string_ascii`. The contract
/// restates its three tests: it fails on the empty string, on a string with a
/// character outside ASCII, and on a string made of whitespace alone, and
/// succeeds on every other string. The parameter name handed over only
/// appears in the error's message.
#[verifier::external_body]
pub(crate) fn check_valid_string(s: &str) -> (r: Result<(), anyhow::Error>)
    ensures
        r is Ok <==> valid_string(s@),
{
    nautilus_core::correctness::check_valid_string_ascii(s, "value")
}

/// Calls `nautilus_core::correctness::check_slice_not_empty`, which fails
/// exactly on the empty slice.
#[verifier::external_body]
pub(crate) fn check_slice_not_empty(slice: &[u8]) -> (r: Result<(), anyhow::Error>)
    ensures
        r is Ok <==> slice@.len() > 0,
{
    nautilus_core::correctness::check_slice_not_empty(slice, "value")
}

/// Validates a key of the general store.
pub fn validate_key(key: &str) -> (r: Result<(), ValidationError>)
    ensures
        valid_string(key@) ==> r is Ok,
        !valid_string(key@) ==> r == Err::<(), ValidationError>(ValidationError::InvalidKey),
{
    match check_valid_string(key) {
        Ok(()) => Ok(()),
        Err(_) => Err(ValidationError::InvalidKey),
    }
}

/// Validates a value of the general store: any byte sequence but the empty one.
pub fn validate_value(value: &Vec<u8>) -> (r: Result<(), ValidationError>)
    ensures
        value@.len() > 0 ==> r is Ok,
        value@.len() == 0 ==> r == Err::<(), ValidationError>(ValidationError::EmptyValue),
{
    match check_slice_not_empty(value.as_slice()) {
        Ok(()) => Ok(()),
        Err(_) => Err(ValidationError::EmptyValue),
    }
}

/// Validates the string of an identifier.
pub fn validate_identifier(value: &str) -> (r: Result<(), ValidationError>)
    ensures
        valid_string(value@) ==> r is Ok,
        !valid_string(value@) ==> r == Err::<(), ValidationError>(
            ValidationError::InvalidIdentifier,
        ),
{
    match check_valid_string(value) {
        Ok(()) => Ok(()),
        Err(_) => Err(ValidationError::InvalidIdentifier),
    }
}

} // verus!
