//! Validated form input.

use vstd::prelude::*;
use std::borrow::Cow;
use axum::extract::rejection::FormRejection;
use validator::{ValidateLength, ValidationError, ValidationErrors};
use crate::error::ServerError;

verus! {

#[verifier::external_type_specification]
#[verifier::external_body]
pub struct ExValidationError(validator::ValidationError);

/// What a `validator::ValidationErrors` holds: each field with errors,
/// mapped to whether its entry is a list of field-level errors (rather than
/// the errors of a nested struct or list).
pub uninterp spec fn error_entries(e: ValidationErrors) -> Map<Seq<char>, bool>;

/// Relies on `ValidateLength::validate_length` for `String`, which counts
/// characters and, given only a minimum, accepts exactly the strings of at
/// least that many characters.
#[verifier::external_body]
fn has_min_length(s: &String, min: u64) -> (r: bool)
    ensures
        r == (s@.len() >= min),
{
    s.validate_length(Some(min), None, None)
}

/// Relies on `ValidationError::new`: an error with the given code.
#[verifier::external_body]
fn new_error(code: &'static str) -> ValidationError {
    ValidationError::new(code)
}

/// Relies on `ValidationError::with_message`: sets the message shown when
/// the error is displayed.
#[verifier::external_body]
fn error_with_message(err: ValidationError, message: &'static str) -> ValidationError {
    err.with_message(Cow::Borrowed(message))
}

/// Relies on `ValidationError::add_param`, with a number as the value.
#[verifier::external_body]
fn add_number_param(err: &mut ValidationError, name: &'static str, value: u64) {
    err.add_param(Cow::Borrowed(name), &value)
}

/// Relies on `ValidationError::add_param`, with a string as the value.
#[verifier::external_body]
fn add_text_param(err: &mut ValidationError, name: &'static str, value: &String) {
    err.add_param(Cow::Borrowed(name), value)
}

/// Relies on `ValidationErrors::new`: no field has errors yet.
#[verifier::external_body]
fn new_errors() -> (r: ValidationErrors)
    ensures
        error_entries(r).dom().len() == 0,
        error_entries(r).dom().finite(),
{
    ValidationErrors::new()
}

/// Relies on `ValidationErrors::add`: appends a field-level error to the
/// field's entry, creating it if needed. It panics on an entry that holds
/// nested errors, which `requires` leaves out.
#[verifier::external_body]
fn add_field_error(errors: &mut ValidationErrors, field: &'static str, err: ValidationError)
    requires
        error_entries(*old(errors)).contains_key(field@) ==> error_entries(*old(errors))[field@],
    ensures
        error_entries(*final(errors)) == error_entries(*old(errors)).insert(field@, true),
{
    errors.add(field, err)
}

/// Relies on `ValidationErrors::is_empty`: true when no field has errors.
#[verifier::external_body]
fn errors_are_empty(errors: &ValidationErrors) -> (r: bool)
    ensures
        r == (error_entries(*errors).dom().len() == 0),
{
    errors.is_empty()
}

/// A value whose fields obey rules that `validate` checks.
pub trait Validate: Sized {
    /// The value obeys every rule.
    spec fn is_valid(&self) -> bool;

    /// The entries that the errors of an invalid value hold: each field that
    /// broke a rule, mapped to whether its errors are field-level.
    spec fn failed_entries(&self) -> Map<Seq<char>, bool>;

    /// Succeeds exactly when the value obeys every rule; otherwise the
    /// errors name each field that broke one.
    fn validate(&self) -> (r: Result<(), ValidationErrors>)
        ensures
            r is Ok <==> self.is_valid(),
            r matches Err(e) ==> error_entries(e) == self.failed_entries(),
    ;
}

/// The least number of characters a name may have.
pub const NAME_MIN_LENGTH: u64 = 2;

/// A name submitted through a form.
#[derive(Debug)]
pub struct NameInput {
    pub name: String,
}

impl Validate for NameInput {
    open spec fn is_valid(&self) -> bool {
        self.name@.len() >= NAME_MIN_LENGTH
    }

    open spec fn failed_entries(&self) -> Map<Seq<char>, bool> {
        map!["name"@ => true]
    }

    fn validate(&self) -> (r: Result<(), ValidationErrors>) {
        let mut errors = new_errors();
        if !has_min_length(&self.name, NAME_MIN_LENGTH) {
            let mut err = new_error("length");
            err = error_with_message(err, "Can not be empty");
            add_number_param(&mut err, "min", NAME_MIN_LENGTH);
            add_text_param(&mut err, "value", &self.name);
            add_field_error(&mut errors, "name", err);
            assert(error_entries(errors) =~= map!["name"@ => true]);
        } else {
        }
        if errors_are_empty(&errors) {
            Ok(())
        } else {
            Err(errors)
        }
    }
}

/// A decoded form whose contents passed validation.
#[derive(Debug, Clone, Copy, Default)]
pub struct ValidatedForm<T>(pub T);

impl<T: Validate> ValidatedForm<T> {
    /// Takes the outcome of decoding a form. A form that did not decode is
    /// rejected with its own rejection; a decoded value is accepted exactly when
    /// it is valid, and otherwise refused with the errors its validation gave.
    pub fn from_decoded(decoded: Result<T, FormRejection>) -> (r: Result<ValidatedForm<T>, ServerError>)
        ensures
            match decoded {
                Err(rejection) => r == Err::<ValidatedForm<T>, ServerError>(
                    ServerError::AxumFormRejection(rejection),
                ),
                Ok(v) => if v.is_valid() {
                    r == Ok::<ValidatedForm<T>, ServerError>(ValidatedForm(v))
                } else {
                    &&& r is Err
                    &&& r->Err_0 is ValidationError
                    &&& error_entries(r->Err_0->ValidationError_0) == v.failed_entries()
                },
            },
    {
        match decoded {
            Err(rejection) => Err(ServerError::AxumFormRejection(rejection)),
            Ok(value) => match value.validate() {
                Ok(()) => Ok(ValidatedForm(value)),
                Err(errors) => Err(ServerError::ValidationError(errors)),
            },
        }
    }
}

} // verus!
