//! Results Response (RRes).

use crate::message::rreq::{MessageExtension, ResultsRequest};
use crate::text::{opt_view, str_eq};
use crate::types::{MessageVersion, ResultsStatus};
use vstd::prelude::*;

verus! {

/// EMV 3DS Results Response (RRes).
///
/// Sent by the 3DS Server to the ACS to acknowledge receipt of an RReq.
/// Build with `ResultsResponse::acknowledge(&rreq)` immediately after receiving
/// an RReq; send before or concurrently with calling `TransactionState::receive_rreq`.
#[derive(Debug, Clone)]
pub struct ResultsResponse {
    pub message_type: MessageType,
    pub message_version: MessageVersion,
    pub three_ds_server_trans_id: String,
    pub acs_trans_id: String,
    pub ds_trans_id: Option<String>,
    pub results_status: ResultsStatus,
    pub message_extension: Option<Vec<MessageExtension>>,
}

impl ResultsResponse {
    /// Build the acknowledgment RRes for a received RReq.
    pub fn acknowledge(rreq: &ResultsRequest) -> (r: Self)
        ensures
            r.message_type == MessageType::RRes,
            r.message_version == rreq.message_version,
            r.three_ds_server_trans_id@ == rreq.three_ds_server_trans_id@,
            r.acs_trans_id@ == rreq.acs_trans_id@,
            opt_view(r.ds_trans_id) == opt_view(rreq.ds_trans_id),
            r.results_status == ResultsStatus::Received,
            r.message_extension is None,
    {
        Self {
            message_type: MessageType::RRes,
            message_version: rreq.message_version,
            three_ds_server_trans_id: rreq.three_ds_server_trans_id.clone(),
            acs_trans_id: rreq.acs_trans_id.clone(),
            ds_trans_id: rreq.ds_trans_id.clone(),
            results_status: ResultsStatus::Received,
            message_extension: None,
        }
    }
}

/// The "RRes" literal of the messageType field.
#[derive(Debug, Clone, Copy, PartialEq, Eq, Hash, Structural)]
pub enum MessageType {
    RRes,
}

impl MessageType {
    /// The wire code of this value.
    pub open spec fn spec_code(self) -> Seq<char> {
        match self {
            MessageType::RRes => "RRes"@,
        }
    }

    /// The value whose wire code is `s`, if any.
    pub open spec fn spec_from_code(s: Seq<char>) -> Option<MessageType> {
        if s == "RRes"@ {
            Some(MessageType::RRes)
        } else {
            None
        }
    }

    /// The wire code of this value, as it stands in a message.
    pub fn code(self) -> (r: &'static str)
        ensures
            r@ == self.spec_code(),
    {
        match self {
            MessageType::RRes => "RRes",
        }
    }

    /// Reads a wire code; `None` when `s` is no code of this type.
    pub fn from_code(s: &str) -> (r: Option<MessageType>)
        ensures
            r == MessageType::spec_from_code(s@),
    {
        if str_eq(s, "RRes") {
            Some(MessageType::RRes)
        } else {
            None
        }
    }

    /// Reading back the wire code of a value gives the value, and a code that
    /// reads as a value is that value's code.
    pub proof fn lemma_code_roundtrip(self, s: Seq<char>)
        ensures
            MessageType::spec_from_code(self.spec_code()) == Some(self),
            MessageType::spec_from_code(s) == Some(self) ==> s == self.spec_code(),
    {
        reveal_strlit("RRes");
    }

    /// The wire code of each value, and the value that each code reads as.
    pub proof fn lemma_wire_codes()
        ensures
            MessageType::RRes.spec_code() == "RRes"@,
            MessageType::spec_from_code("RRes"@) == Some(MessageType::RRes),
    {
        MessageType::RRes.lemma_code_roundtrip("RRes"@);
    }
}
} // verus!
