//! The error taxonomy and the classifier for failure bodies.

use vstd::prelude::*;
use crate::json::{JsonV, json_get, json_is_object, json_model, json_of, parse_json};
use crate::schema::{opt_str_field, spec_field, spec_opt_str_field, spec_str_field, str_field};

verus! {

/// Which credential could not be resolved.
#[derive(Clone, Copy, PartialEq, Eq, Structural, Debug)]
pub enum CredentialField {
    ApiKey,
    ApiUrl,
    DeploymentName,
    ApiVersion,
}

/// The stable error taxonomy this adapter surfaces to its caller.
#[derive(Debug)]
pub enum CompletionError {
    /// A credential was missing before any network call was made.
    MissingCredential(CredentialField),
    /// A transport-level failure, surfaced verbatim, never retried here.
    Network(String),
    /// A non-success HTTP status, with the server's parsed message when
    /// the body carried the error envelope, else the raw body text.
    Http { status: u16, message: String, error_type: Option<String>, code: Option<String> },
    /// A success response, or a whole non-streaming body, that could not
    /// be read; carries the offending text.
    MalformedResponse(String),
    /// A success response with zero choices: a hard error, not an empty
    /// stream.
    EmptyChoices,
}

pub enum CompletionErrorV {
    MissingCredential(CredentialField),
    Network(Seq<char>),
    Http {
        status: u16,
        message: Seq<char>,
        error_type: Option<Seq<char>>,
        code: Option<Seq<char>>,
    },
    MalformedResponse(Seq<char>),
    EmptyChoices,
}

impl View for CompletionError {
    type V = CompletionErrorV;

    open spec fn view(&self) -> CompletionErrorV {
        match self {
            CompletionError::MissingCredential(f) => CompletionErrorV::MissingCredential(*f),
            CompletionError::Network(s) => CompletionErrorV::Network(s@),
            CompletionError::Http { status, message, error_type, code } => (CompletionErrorV::Http {
                status: *status,
                message: message@,
                error_type: match error_type {
                    Some(t) => Some(t@),
                    None => None,
                },
                code: match code {
                    Some(c) => Some(c@),
                    None => None,
                },
            }),
            CompletionError::MalformedResponse(s) => CompletionErrorV::MalformedResponse(s@),
            CompletionError::EmptyChoices => CompletionErrorV::EmptyChoices,
        }
    }
}

/// The server's error envelope `{error: {message, type?, code?}}`,
/// read from a JSON document: the message, the optional type, the
/// optional code.
pub open spec fn spec_error_envelope_of(j: JsonV) -> Option<
    (Seq<char>, Option<Seq<char>>, Option<Seq<char>>),
> {
    match j {
        JsonV::Obj(m) => match spec_field(m, "error"@) {
            Some(JsonV::Obj(e)) => match (
                spec_str_field(e, "message"@),
                spec_opt_str_field(e, "type"@),
                spec_opt_str_field(e, "code"@),
            ) {
                (Some(msg), Some(t), Some(c)) => Some((msg, t, c)),
                _ => None,
            },
            _ => None,
        },
        _ => None,
    }
}

/// What the classifier returns for a failure status: the parsed envelope
/// when the body carries one, else the raw status and body text.
pub open spec fn spec_classify_failure(status: u16, body: Seq<char>) -> CompletionErrorV {
    match json_of(body) {
        Some(j) => match spec_error_envelope_of(j) {
            Some((msg, t, c)) => CompletionErrorV::Http {
                status,
                message: msg,
                error_type: t,
                code: c,
            },
            None => CompletionErrorV::Http {
                status,
                message: body,
                error_type: None,
                code: None,
            },
        },
        None => CompletionErrorV::Http { status, message: body, error_type: None, code: None },
    }
}

fn raw_failure(status: u16, body: &str) -> (r: CompletionError)
    ensures
        r@ == (CompletionErrorV::Http {
            status,
            message: body@,
            error_type: None,
            code: None,
        }),
{
    CompletionError::Http {
        status,
        message: String::from_str(body),
        error_type: None,
        code: None,
    }
}

/// Classifies a failure body: parses the error envelope when present,
/// falls back to the raw status and body text.
pub fn classify_failure(status: u16, body: &str) -> (r: CompletionError)
    ensures
        r@ == spec_classify_failure(status, body@),
{
    match parse_json(body) {
        None => raw_failure(status, body),
        Some(v) => {
            if !json_is_object(&v) {
                return raw_failure(status, body);
            }
            match json_get(&v, "error") {
                None => raw_failure(status, body),
                Some(e) => {
                    if !json_is_object(e) {
                        return raw_failure(status, body);
                    }
                    let message = match str_field(e, "message") {
                        Some(m) => m,
                        None => {
                            return raw_failure(status, body);
                        },
                    };
                    let error_type = match opt_str_field(e, "type") {
                        Some(t) => t,
                        None => {
                            return raw_failure(status, body);
                        },
                    };
                    let code = match opt_str_field(e, "code") {
                        Some(c) => c,
                        None => {
                            return raw_failure(status, body);
                        },
                    };
                    CompletionError::Http { status, message, error_type, code }
                },
            }
        },
    }
}

} // verus!
