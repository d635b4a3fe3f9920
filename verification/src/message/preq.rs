//! Preparation Request (PReq).

use crate::text::str_eq;
use crate::types::MessageVersion;
use vstd::prelude::*;

verus! {

/// EMV 3DS Preparation Request (PReq).
///
/// Sent by the 3DS Server to the Directory Server before the first AReq to
/// negotiate protocol versions and retrieve card range data.
#[derive(Debug, Clone)]
pub struct PreparationRequest {
    pub message_type: MessageType,
    pub message_version: MessageVersion,
    pub three_ds_server_trans_id: String,
    pub ds_trans_id: Option<String>,
    /// Serial number of the last card range data received; omit on first request.
    pub serial_num: Option<String>,
    pub three_ds_server_ref_number: Option<String>,
}

/// The "PReq" literal of the messageType field.
#[derive(Debug, Clone, Copy, PartialEq, Eq, Hash, Structural)]
pub enum MessageType {
    PReq,
}

impl MessageType {
    /// The wire code of this value.
    pub open spec fn spec_code(self) -> Seq<char> {
        match self {
            MessageType::PReq => "PReq"@,
        }
    }

    /// The value whose wire code is `s`, if any.
    pub open spec fn spec_from_code(s: Seq<char>) -> Option<MessageType> {
        if s == "PReq"@ {
            Some(MessageType::PReq)
        } else {
            None
        }
    }

    /// The wire code of this value, as it stands in a message.
    pub fn code(self) -> (r: &'static str)
        ensures
            r@ == self.spec_code(),
    {
        match self {
            MessageType::PReq => "PReq",
        }
    }

    /// Reads a wire code; `None` when `s` is no code of this type.
    pub fn from_code(s: &str) -> (r: Option<MessageType>)
        ensures
            r == MessageType::spec_from_code(s@),
    {
        if str_eq(s, "PReq") {
            Some(MessageType::PReq)
        } else {
            None
        }
    }

    /// Reading back the wire code of a value gives the value, and a code that
    /// reads as a value is that value's code.
    pub proof fn lemma_code_roundtrip(self, s: Seq<char>)
        ensures
            MessageType::spec_from_code(self.spec_code()) == Some(self),
            MessageType::spec_from_code(s) == Some(self) ==> s == self.spec_code(),
    {
        reveal_strlit("PReq");
    }

    /// The wire code of each value, and the value that each code reads as.
    pub proof fn lemma_wire_codes()
        ensures
            MessageType::PReq.spec_code() == "PReq"@,
            MessageType::spec_from_code("PReq"@) == Some(MessageType::PReq),
    {
        MessageType::PReq.lemma_code_roundtrip("PReq"@);
    }
}
} // verus!
