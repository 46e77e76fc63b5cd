//! Validation failures, as the `validator` crate holds them.
//!
//! A failure names a field and carries a code and a message.  The services
//! report a name or a slug that is taken as such a failure, so that it
//! reaches the client beside the failures of ordinary payload validation.
use std::borrow::Cow;
use std::collections::HashMap;
use validator::ValidationError;
use validator::ValidationErrors;
use vstd::prelude::*;

verus! {

/// `validator::ValidationErrors`: the validation failures of one payload,
/// keyed by field.
#[verifier::external_type_specification]
#[verifier::external_body]
pub struct ExValidationErrors(ValidationErrors);

/// The entries of validation failures as plain values: for each field the
/// code and the message of each of its errors.
pub type ErrorEntries = Map<Seq<char>, Seq<(Seq<char>, Option<Seq<char>>)>>;

/// What a `ValidationErrors` holds: the fields that have an entry, and for
/// each of them the code and the message of its field-level errors, in the
/// order in which they were added.  A field whose entry is the errors of a
/// nested payload has no field-level error.
pub uninterp spec fn error_entries(errors: ValidationErrors) -> Map<
    Seq<char>,
    Seq<(Seq<char>, Option<Seq<char>>)>,
>;

/// No entry at all.
pub open spec fn no_entries() -> Map<Seq<char>, Seq<(Seq<char>, Option<Seq<char>>)>> {
    Map::empty()
}

/// `ValidationErrors::new`: a value without any entry.
#[verifier::external_body]
fn no_errors() -> (errors: ValidationErrors)
    ensures
        error_entries(errors) == no_entries(),
{
    ValidationErrors::new()
}

/// `ValidationErrors::add`, for a field that has no entry yet: the field
/// gets an entry with the one error, made of the code and the message and no
/// parameters.  The other entries stay.  (For a field whose entry is the
/// errors of a nested payload the method panics; such a field has an entry
/// and is left out here.)
#[verifier::external_body]
fn add_error(
    errors: &mut ValidationErrors,
    field: &'static str,
    code: &'static str,
    message: &'static str,
)
    requires
        !error_entries(*old(errors)).contains_key(field@),
    ensures
        error_entries(*final(errors)) == error_entries(*old(errors)).insert(
            field@,
            seq![(code@, Some(message@))],
        ),
{
    let error =
        ValidationError { code: Cow::from(code), message: Some(Cow::from(message)), params: HashMap::new() };
    errors.add(field, error);
}

/// The JSON form of validation failures: the value that `serde_json`
/// serializes them to, and none where it refuses them.  It depends on the
/// failures alone.
pub uninterp spec fn errors_json(errors: ValidationErrors) -> Option<serde_json::Value>;

/// `serde_json::to_value` on validation failures: their JSON form, or `None`
/// where the serializer answers with an error.  Nothing is claimed of what
/// the form holds, nor that there is one.
#[verifier::external_body]
pub(crate) fn errors_to_json(errors: &ValidationErrors) -> (json: Option<serde_json::Value>)
    ensures
        json == errors_json(*errors),
{
    serde_json::to_value(errors).ok()
}

/// The validation failures that consist of one error on one field.
pub open spec fn single_error(field: Seq<char>, code: Seq<char>, message: Seq<char>) -> Map<
    Seq<char>,
    Seq<(Seq<char>, Option<Seq<char>>)>,
> {
    no_entries().insert(field, seq![(code, Some(message))])
}

/// Validation failures with one error: `code` and `message` on `field`.
pub fn field_error(field: &'static str, code: &'static str, message: &'static str) -> (errors:
    ValidationErrors)
    ensures
        error_entries(errors) == single_error(field@, code@, message@),
{
    let mut errors = no_errors();
    add_error(&mut errors, field, code, message);
    errors
}

} // verus!
