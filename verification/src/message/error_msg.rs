//! Error Message (Erro).

pub mod error_codes;

use crate::text::str_eq;
use crate::types::MessageVersion;
use vstd::prelude::*;

verus! {

/// EMV 3DS Error Message.
///
/// Sent by any component (3DS Server, DS, ACS) to indicate a protocol error.
/// A received ErrorMessage should abort the current transaction.
#[derive(Debug, Clone)]
pub struct ErrorMessage {
    pub message_type: MessageType,
    pub message_version: MessageVersion,
    /// Three-digit code; see EMVCo spec Table A.5.
    pub error_code: String,
    /// Human-readable description of the error.
    pub error_description: String,
    /// Detail about the specific field that caused the error.
    pub error_detail: String,
    /// The messageType of the message that caused this error.
    pub error_message_type: String,
    /// Transaction ID of the erroring message.
    pub three_ds_server_trans_id: Option<String>,
    pub acs_trans_id: Option<String>,
    pub ds_trans_id: Option<String>,
    pub sdk_trans_id: Option<String>,
}

/// The "Erro" literal of the messageType field.
#[derive(Debug, Clone, Copy, PartialEq, Eq, Hash, Structural)]
pub enum MessageType {
    Erro,
}

impl MessageType {
    /// The wire code of this value.
    pub open spec fn spec_code(self) -> Seq<char> {
        match self {
            MessageType::Erro => "Erro"@,
        }
    }

    /// The value whose wire code is `s`, if any.
    pub open spec fn spec_from_code(s: Seq<char>) -> Option<MessageType> {
        if s == "Erro"@ {
            Some(MessageType::Erro)
        } else {
            None
        }
    }

    /// The wire code of this value, as it stands in a message.
    pub fn code(self) -> (r: &'static str)
        ensures
            r@ == self.spec_code(),
    {
        match self {
            MessageType::Erro => "Erro",
        }
    }

    /// Reads a wire code; `None` when `s` is no code of this type.
    pub fn from_code(s: &str) -> (r: Option<MessageType>)
        ensures
            r == MessageType::spec_from_code(s@),
    {
        if str_eq(s, "Erro") {
            Some(MessageType::Erro)
        } else {
            None
        }
    }

    /// Reading back the wire code of a value gives the value, and a code that
    /// reads as a value is that value's code.
    pub proof fn lemma_code_roundtrip(self, s: Seq<char>)
        ensures
            MessageType::spec_from_code(self.spec_code()) == Some(self),
            MessageType::spec_from_code(s) == Some(self) ==> s == self.spec_code(),
    {
        reveal_strlit("Erro");
    }

    /// The wire code of each value, and the value that each code reads as.
    pub proof fn lemma_wire_codes()
        ensures
            MessageType::Erro.spec_code() == "Erro"@,
            MessageType::spec_from_code("Erro"@) == Some(MessageType::Erro),
    {
        MessageType::Erro.lemma_code_roundtrip("Erro"@);
    }
}
} // verus!
