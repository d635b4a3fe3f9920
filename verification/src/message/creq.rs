//! Challenge Request (CReq).

use crate::text::str_eq;
use crate::types::{ChallengeWindowSize, MessageVersion};
use vstd::prelude::*;

verus! {

/// EMV 3DS Challenge Request (CReq).
///
/// Sent by the browser (or SDK) to the ACS to initiate or continue the
/// challenge flow. For browser channel this is typically submitted as a
/// hidden form POST; for app channel it is sent directly from the SDK.
#[derive(Debug, Clone)]
pub struct ChallengeRequest {
    pub message_type: MessageType,
    pub message_version: MessageVersion,
    pub three_ds_server_trans_id: String,
    pub acs_trans_id: String,
    /// Cardholder-provided challenge data (OTP, text, selected option, etc.).
    pub challenge_data_entry: Option<String>,
    /// Preferred challenge window dimensions (browser channel only).
    pub challenge_window_size: Option<ChallengeWindowSize>,
    /// "Y" once the cardholder has completed the challenge.
    pub challenge_completion_ind: Option<CompletionIndicator>,
    /// SDK transaction ID (app channel only).
    pub sdk_trans_id: Option<String>,
    /// HTML cancel requested by cardholder.
    pub resend_challenge: Option<ResendChallenge>,
    /// Merchant whitelist opt-in preference (v2.2+).
    pub whitelist_status_source: Option<String>,
}

/// The "CReq" literal of the messageType field.
#[derive(Debug, Clone, Copy, PartialEq, Eq, Hash, Structural)]
pub enum MessageType {
    CReq,
}

impl MessageType {
    /// The wire code of this value.
    pub open spec fn spec_code(self) -> Seq<char> {
        match self {
            MessageType::CReq => "CReq"@,
        }
    }

    /// The value whose wire code is `s`, if any.
    pub open spec fn spec_from_code(s: Seq<char>) -> Option<MessageType> {
        if s == "CReq"@ {
            Some(MessageType::CReq)
        } else {
            None
        }
    }

    /// The wire code of this value, as it stands in a message.
    pub fn code(self) -> (r: &'static str)
        ensures
            r@ == self.spec_code(),
    {
        match self {
            MessageType::CReq => "CReq",
        }
    }

    /// Reads a wire code; `None` when `s` is no code of this type.
    pub fn from_code(s: &str) -> (r: Option<MessageType>)
        ensures
            r == MessageType::spec_from_code(s@),
    {
        if str_eq(s, "CReq") {
            Some(MessageType::CReq)
        } else {
            None
        }
    }

    /// Reading back the wire code of a value gives the value, and a code that
    /// reads as a value is that value's code.
    pub proof fn lemma_code_roundtrip(self, s: Seq<char>)
        ensures
            MessageType::spec_from_code(self.spec_code()) == Some(self),
            MessageType::spec_from_code(s) == Some(self) ==> s == self.spec_code(),
    {
        reveal_strlit("CReq");
    }

    /// The wire code of each value, and the value that each code reads as.
    pub proof fn lemma_wire_codes()
        ensures
            MessageType::CReq.spec_code() == "CReq"@,
            MessageType::spec_from_code("CReq"@) == Some(MessageType::CReq),
    {
        MessageType::CReq.lemma_code_roundtrip("CReq"@);
    }
}
/// Whether the cardholder has completed the challenge.
#[derive(Debug, Clone, Copy, PartialEq, Eq, Hash, Structural)]
pub enum CompletionIndicator {
    Completed,
    NotCompleted,
}

impl CompletionIndicator {
    /// The wire code of this value.
    pub open spec fn spec_code(self) -> Seq<char> {
        match self {
            CompletionIndicator::Completed => "Y"@,
            CompletionIndicator::NotCompleted => "N"@,
        }
    }

    /// The value whose wire code is `s`, if any.
    pub open spec fn spec_from_code(s: Seq<char>) -> Option<CompletionIndicator> {
        if s == "Y"@ {
            Some(CompletionIndicator::Completed)
        } else if s == "N"@ {
            Some(CompletionIndicator::NotCompleted)
        } else {
            None
        }
    }

    /// The wire code of this value, as it stands in a message.
    pub fn code(self) -> (r: &'static str)
        ensures
            r@ == self.spec_code(),
    {
        match self {
            CompletionIndicator::Completed => "Y",
            CompletionIndicator::NotCompleted => "N",
        }
    }

    /// Reads a wire code; `None` when `s` is no code of this type.
    pub fn from_code(s: &str) -> (r: Option<CompletionIndicator>)
        ensures
            r == CompletionIndicator::spec_from_code(s@),
    {
        if str_eq(s, "Y") {
            Some(CompletionIndicator::Completed)
        } else if str_eq(s, "N") {
            Some(CompletionIndicator::NotCompleted)
        } else {
            None
        }
    }

    /// Reading back the wire code of a value gives the value, and a code that
    /// reads as a value is that value's code.
    pub proof fn lemma_code_roundtrip(self, s: Seq<char>)
        ensures
            CompletionIndicator::spec_from_code(self.spec_code()) == Some(self),
            CompletionIndicator::spec_from_code(s) == Some(self) ==> s == self.spec_code(),
    {
        reveal_strlit("Y");
        reveal_strlit("N");
        match self {
            CompletionIndicator::Completed => {},
            CompletionIndicator::NotCompleted => {
                assert("N"@[0] != "Y"@[0]);
            },
        }
    }

    /// The wire code of each value, and the value that each code reads as.
    pub proof fn lemma_wire_codes()
        ensures
            CompletionIndicator::Completed.spec_code() == "Y"@,
            CompletionIndicator::spec_from_code("Y"@) == Some(CompletionIndicator::Completed),
            CompletionIndicator::NotCompleted.spec_code() == "N"@,
            CompletionIndicator::spec_from_code("N"@) == Some(CompletionIndicator::NotCompleted),
    {
        CompletionIndicator::Completed.lemma_code_roundtrip("Y"@);
        CompletionIndicator::NotCompleted.lemma_code_roundtrip("N"@);
    }
}
/// Request to resend the challenge information code.
#[derive(Debug, Clone, Copy, PartialEq, Eq, Hash, Structural)]
pub enum ResendChallenge {
    Yes,
}

impl ResendChallenge {
    /// The wire code of this value.
    pub open spec fn spec_code(self) -> Seq<char> {
        match self {
            ResendChallenge::Yes => "Y"@,
        }
    }

    /// The value whose wire code is `s`, if any.
    pub open spec fn spec_from_code(s: Seq<char>) -> Option<ResendChallenge> {
        if s == "Y"@ {
            Some(ResendChallenge::Yes)
        } else {
            None
        }
    }

    /// The wire code of this value, as it stands in a message.
    pub fn code(self) -> (r: &'static str)
        ensures
            r@ == self.spec_code(),
    {
        match self {
            ResendChallenge::Yes => "Y",
        }
    }

    /// Reads a wire code; `None` when `s` is no code of this type.
    pub fn from_code(s: &str) -> (r: Option<ResendChallenge>)
        ensures
            r == ResendChallenge::spec_from_code(s@),
    {
        if str_eq(s, "Y") {
            Some(ResendChallenge::Yes)
        } else {
            None
        }
    }

    /// Reading back the wire code of a value gives the value, and a code that
    /// reads as a value is that value's code.
    pub proof fn lemma_code_roundtrip(self, s: Seq<char>)
        ensures
            ResendChallenge::spec_from_code(self.spec_code()) == Some(self),
            ResendChallenge::spec_from_code(s) == Some(self) ==> s == self.spec_code(),
    {
        reveal_strlit("Y");
    }

    /// The wire code of each value, and the value that each code reads as.
    pub proof fn lemma_wire_codes()
        ensures
            ResendChallenge::Yes.spec_code() == "Y"@,
            ResendChallenge::spec_from_code("Y"@) == Some(ResendChallenge::Yes),
    {
        ResendChallenge::Yes.lemma_code_roundtrip("Y"@);
    }
}
} // verus!
