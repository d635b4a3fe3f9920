//! The library's error type.

use serde_json::Error as JsonError;
use vstd::prelude::*;

verus! {

/// `serde_json::Error`, carried through when a JSON document cannot be read.
#[verifier::external_type_specification]
#[verifier::external_body]
pub struct ExJsonError(JsonError);

/// Errors of message handling and of the transaction state machine.
#[derive(Debug)]
pub enum Error {
    /// The JSON text could not be read.
    Serialization(JsonError),
    /// A field holds a value that the protocol does not allow.
    InvalidField { field: &'static str, reason: String },
    /// A field that the protocol requires is absent.
    MissingField(&'static str),
    /// The transaction cannot take this step from its current state.
    InvalidTransition { from: String, to: String },
    /// The message version is not supported.
    UnsupportedVersion(String),
    /// A protocol error, with its EMVCo error code.
    Protocol { code: String, description: String },
}

/// Result type of the library.
pub type Result<T> = std::result::Result<T, Error>;

/// The mathematical value of an [`Error`]: its texts as character sequences.
pub enum ErrorView {
    Serialization(JsonError),
    InvalidField { field: Seq<char>, reason: Seq<char> },
    MissingField(Seq<char>),
    InvalidTransition { from: Seq<char>, to: Seq<char> },
    UnsupportedVersion(Seq<char>),
    Protocol { code: Seq<char>, description: Seq<char> },
}

impl View for Error {
    type V = ErrorView;

    open spec fn view(&self) -> ErrorView {
        match self {
            Error::Serialization(e) => ErrorView::Serialization(*e),
            Error::InvalidField { field, reason } => ErrorView::InvalidField {
                field: field@,
                reason: reason@,
            },
            Error::MissingField(field) => ErrorView::MissingField(field@),
            Error::InvalidTransition { from, to } => ErrorView::InvalidTransition {
                from: from@,
                to: to@,
            },
            Error::UnsupportedVersion(v) => ErrorView::UnsupportedVersion(v@),
            Error::Protocol { code, description } => ErrorView::Protocol {
                code: code@,
                description: description@,
            },
        }
    }
}

/// An error's view keeps each field in its place, the texts as their characters.
pub proof fn lemma_error_view(e: Error)
    ensures
        e matches Error::Serialization(j) ==> e@ == ErrorView::Serialization(j),
        e matches Error::InvalidField { field, reason } ==> e@ == (ErrorView::InvalidField {
            field: field@,
            reason: reason@,
        }),
        e matches Error::MissingField(field) ==> e@ == ErrorView::MissingField(field@),
        e matches Error::InvalidTransition { from, to } ==> e@ == (ErrorView::InvalidTransition {
            from: from@,
            to: to@,
        }),
        e matches Error::UnsupportedVersion(v) ==> e@ == ErrorView::UnsupportedVersion(v@),
        e matches Error::Protocol { code, description } ==> e@ == (ErrorView::Protocol {
            code: code@,
            description: description@,
        }),
{
}

} // verus!
