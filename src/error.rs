//! The error a request handler can fail with, and the response it becomes.

use vstd::prelude::*;
use vstd::string::StringExecFns;
use axum::extract::rejection::FormRejection;
use validator::ValidationErrors;
use crate::text::{
    contains_seq, flatten_char, flatten_line_breaks, flatten_lines, lemma_contains_within, lemma_flatten_concat,
    lemma_flatten_contains,
};
use crate::validation::error_entries;

verus! {

#[verifier::external_type_specification]
#[verifier::external_body]
pub struct ExValidationErrors(validator::ValidationErrors);

#[verifier::external_type_specification]
#[verifier::external_body]
pub struct ExFormRejection(axum::extract::rejection::FormRejection);

/// HTTP status "400 Bad Request".
pub const BAD_REQUEST: u16 = 400;

/// Why a request could not be handled.
pub enum ServerError {
    /// The submitted form decoded but broke a validation rule.
    ValidationError(ValidationErrors),
    /// The submitted form could not be decoded.
    AxumFormRejection(FormRejection),
}

/// A status code and a plain-text body.
pub struct ErrorResponse {
    pub status: u16,
    pub body: String,
}

/// The body sent for validation errors whose rendering is `text`.
pub open spec fn validation_body(text: Seq<char>) -> Seq<char> {
    "Input validation error: ["@ + flatten_lines(text) + "]"@
}

/// Relies on the `Display` impl of `validator::ValidationErrors`: one line per
/// failing field (`field: message`), in the order of its inner hash map.
/// Each field that holds field-level errors is written followed by `": "`.
#[verifier::external_body]
fn validation_errors_text(e: &ValidationErrors) -> (r: String)
    ensures
        forall|k: Seq<char>|
            #![trigger error_entries(*e).contains_key(k)]
            error_entries(*e).contains_key(k) && error_entries(*e)[k] ==> contains_seq(
                r@,
                k + seq![':', ' '],
            ),
{
    e.to_string()
}

/// Relies on the `Display` impl of axum's `FormRejection`, which prints the
/// rejection's own message.
#[verifier::external_body]
fn form_rejection_text(e: &FormRejection) -> String {
    e.to_string()
}

/// The body sent for validation errors rendered as `text`: line breaks are
/// flattened and the whole is framed by a fixed prefix and a closing bracket.
pub fn validation_message(text: &str) -> (r: String)
    ensures
        r@ == validation_body(text@),
{
    let prefix = "Input validation error: [";
    let suffix = "]";
    proof {
        reveal_strlit("Input validation error: [");
        reveal_strlit("]");
    }
    let flat = flatten_line_breaks(text);
    let mut r = String::from_str(prefix);
    r.append(flat.as_str());
    r.append(suffix);
    r
}

impl ServerError {
    /// Both kinds of error answer "400 Bad Request". A validation error sends
    /// its rendering framed by `validation_message`, which names each field
    /// with field-level errors; a rejected form sends the rejection's own
    /// message.
    pub fn into_response(self) -> (r: ErrorResponse)
        ensures
            r.status == BAD_REQUEST,
            match self {
                ServerError::ValidationError(e) => {
                    &&& exists|t: Seq<char>| #[trigger] validation_body(t) == r.body@
                    &&& forall|k: Seq<char>|
                        #![trigger error_entries(e).contains_key(k)]
                        error_entries(e).contains_key(k) && error_entries(e)[k] ==> contains_seq(
                            r.body@,
                            flatten_lines(k) + seq![':', ' '],
                        )
                },
                ServerError::AxumFormRejection(_) => true,
            },
    {
        match self {
            ServerError::ValidationError(e) => {
                let text = validation_errors_text(&e);
                let body = validation_message(text.as_str());
                proof {
                    let sep = seq![':', ' '];
                    let colon = seq![':'];
                    assert(sep.drop_last() =~= colon);
                    assert(colon.drop_last() =~= Seq::<char>::empty());
                    assert(flatten_lines(Seq::<char>::empty()) =~= Seq::<char>::empty());
                    assert(colon.last() == ':');
                    assert(flatten_char(':') =~= colon);
                    assert(flatten_lines(colon) =~= colon);
                    assert(sep.last() == ' ');
                    assert(flatten_char(' ') =~= seq![' ']);
                    assert(flatten_lines(sep) =~= sep);
                    assert forall|k: Seq<char>|
                        #![trigger error_entries(e).contains_key(k)]
                        error_entries(e).contains_key(k) && error_entries(e)[k] implies contains_seq(
                            body@,
                            flatten_lines(k) + sep,
                        ) by {
                        lemma_flatten_contains(text@, k + sep);
                        lemma_flatten_concat(k, sep);
                        lemma_contains_within(
                            "Input validation error: ["@,
                            flatten_lines(text@),
                            "]"@,
                            flatten_lines(k) + sep,
                        );
                    }
                }
                ErrorResponse { status: BAD_REQUEST, body }
            },
            ServerError::AxumFormRejection(e) => {
                let body = form_rejection_text(&e);
                ErrorResponse { status: BAD_REQUEST, body }
            },
        }
    }
}

} // verus!
