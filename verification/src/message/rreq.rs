//! Results Request (RReq).

use crate::text::str_eq;
use crate::types::{
    AcsAuthMethod, AuthenticationType, Eci, MessageCategory, MessageVersion, TransStatus,
    TransStatusReason,
};
use serde_json::Value as JsonValue;
use vstd::prelude::*;

verus! {

/// `serde_json::Value`, carried through as the data of a message extension.
#[verifier::external_type_specification]
#[verifier::external_body]
pub struct ExJsonValue(JsonValue);

/// `Clone` of `serde_json::Value`, which `derive(Clone)` wrote; nothing is
/// claimed of the copy, which is only carried through.
pub assume_specification[ <JsonValue as Clone>::clone ](v: &JsonValue) -> JsonValue;

/// EMV 3DS Results Request (RReq).
///
/// Sent by the ACS to the 3DS Server (via the DS) after a decoupled or
/// app-based challenge completes. The 3DS Server must respond with an RRes.
#[derive(Debug, Clone)]
pub struct ResultsRequest {
    pub message_type: MessageType,
    pub message_version: MessageVersion,
    pub three_ds_server_trans_id: String,
    pub acs_trans_id: String,
    pub ds_trans_id: Option<String>,
    pub sdk_trans_id: Option<String>,
    pub message_category: MessageCategory,
    pub trans_status: TransStatus,
    pub trans_status_reason: Option<TransStatusReason>,
    pub authentication_method: Option<AcsAuthMethod>,
    pub authentication_type: Option<AuthenticationType>,
    /// CAVV / AAV — base64url encoded; present when transStatus is Y or A.
    pub authentication_value: Option<String>,
    pub eci: Option<Eci>,
    pub interaction_counter: Option<String>,
    pub acs_rendering_type: Option<AcsRenderingType>,
    pub message_extension: Option<Vec<MessageExtension>>,
}

/// ACS UI rendering information for app-based flows.
#[derive(Debug, Clone)]
pub struct AcsRenderingType {
    pub acs_interface: String,
    pub acs_ui_template: String,
}

/// Generic protocol extension element — carried in RReq and RRes.
#[derive(Debug, Clone)]
pub struct MessageExtension {
    pub name: String,
    pub id: String,
    pub critical_indicator: bool,
    pub data: JsonValue,
}

/// The "RReq" literal of the messageType field.
#[derive(Debug, Clone, Copy, PartialEq, Eq, Hash, Structural)]
pub enum MessageType {
    RReq,
}

impl MessageType {
    /// The wire code of this value.
    pub open spec fn spec_code(self) -> Seq<char> {
        match self {
            MessageType::RReq => "RReq"@,
        }
    }

    /// The value whose wire code is `s`, if any.
    pub open spec fn spec_from_code(s: Seq<char>) -> Option<MessageType> {
        if s == "RReq"@ {
            Some(MessageType::RReq)
        } else {
            None
        }
    }

    /// The wire code of this value, as it stands in a message.
    pub fn code(self) -> (r: &'static str)
        ensures
            r@ == self.spec_code(),
    {
        match self {
            MessageType::RReq => "RReq",
        }
    }

    /// Reads a wire code; `None` when `s` is no code of this type.
    pub fn from_code(s: &str) -> (r: Option<MessageType>)
        ensures
            r == MessageType::spec_from_code(s@),
    {
        if str_eq(s, "RReq") {
            Some(MessageType::RReq)
        } else {
            None
        }
    }

    /// Reading back the wire code of a value gives the value, and a code that
    /// reads as a value is that value's code.
    pub proof fn lemma_code_roundtrip(self, s: Seq<char>)
        ensures
            MessageType::spec_from_code(self.spec_code()) == Some(self),
            MessageType::spec_from_code(s) == Some(self) ==> s == self.spec_code(),
    {
        reveal_strlit("RReq");
    }

    /// The wire code of each value, and the value that each code reads as.
    pub proof fn lemma_wire_codes()
        ensures
            MessageType::RReq.spec_code() == "RReq"@,
            MessageType::spec_from_code("RReq"@) == Some(MessageType::RReq),
    {
        MessageType::RReq.lemma_code_roundtrip("RReq"@);
    }
}
} // verus!
