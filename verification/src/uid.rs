//! Identifiers of todos and their text form.
//!
//! A todo is known outside the store by a 128-bit identifier. On the wire and
//! in storage the identifier travels as text: 26 characters of Crockford
//! base 32. Writing and reading that text is the `ulid` crate's work; this
//! module gives the two directions a name that contracts can speak of.

use vstd::prelude::*;

verus! {

/// The failure that `ulid::Ulid::from_string` reports.
#[verifier::external_type_specification]
#[verifier::external_body]
pub struct ExDecodeError(ulid::DecodeError);

/// The text that `ulid::Ulid::to_string` gives for the identifier `uid`.
pub uninterp spec fn ulid_text(uid: u128) -> Seq<char>;

/// The identifier that `ulid::Ulid::from_string` reads from `text`, or `None`
/// where it reports a failure.
pub uninterp spec fn ulid_parse(text: Seq<char>) -> Option<u128>;

/// `uid` is read back from its own text form.
pub open spec fn reads_back(uid: u128) -> bool {
    ulid_parse(ulid_text(uid)) == Some(uid)
}

/// `text` is an identifier in the form in which identifiers are written.
/// (The crate also reads lower-case letters, which it never writes.)
pub open spec fn canonical(text: Seq<char>) -> bool {
    ulid_parse(text) matches Some(uid) && ulid_text(uid) == text
}

/// Writes an identifier as text with `ulid::Ulid::to_string`.
///
/// The result is the crate's text for `uid`, and the crate reads that text
/// back as `uid`: its encoder writes 26 characters of five bits each, the
/// first holding the three highest bits, and its decoder shifts the same
/// characters back in.
#[verifier::external_body]
pub(crate) fn uid_to_string(uid: u128) -> (text: String)
    ensures
        text@ == ulid_text(uid),
        ulid_parse(text@) == Some(uid),
{
    ulid::Ulid(uid).to_string()
}

/// Reads an identifier from text with `ulid::Ulid::from_string`.
///
/// Returns the identifier that the crate reads, or the crate's failure where
/// it reads none.
#[verifier::external_body]
pub(crate) fn uid_from_str(text: &str) -> (r: Result<u128, ulid::DecodeError>)
    ensures
        r matches Ok(uid) ==> ulid_parse(text@) == Some(uid),
        r is Err ==> ulid_parse(text@) is None,
{
    match ulid::Ulid::from_string(text) {
        Ok(id) => Ok(id.0),
        Err(e) => Err(e),
    }
}

/// Draws a new identifier with `ulid::Ulid::new`, which joins the current
/// time in milliseconds with 80 random bits. Nothing is claimed of the value.
#[verifier::external_body]
pub(crate) fn fresh_uid() -> u128 {
    ulid::Ulid::new().0
}

/// Reads an identifier from its text form; `None` where the text is not one.
pub fn parse_uid(text: &str) -> (r: Option<u128>)
    ensures
        r == ulid_parse(text@),
{
    match uid_from_str(text) {
        Ok(uid) => Some(uid),
        Err(_) => None,
    }
}

} // verus!
