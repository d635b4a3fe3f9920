//! Challenge Response (CRes).

use crate::text::str_eq;
use crate::types::{MessageVersion, TransStatus};
use vstd::prelude::*;

verus! {

/// EMV 3DS Challenge Response (CRes).
///
/// Sent by the ACS back to the 3DS Server (via the browser/SDK) to report
/// the outcome of the challenge. A `transStatus` of `Y` means the challenge
/// was passed; `N` means it was failed.
#[derive(Debug, Clone)]
pub struct ChallengeResponse {
    pub message_type: MessageType,
    pub message_version: MessageVersion,
    pub three_ds_server_trans_id: String,
    pub acs_trans_id: String,
    /// Final authentication outcome.
    pub trans_status: TransStatus,
    /// "Y" when the challenge is complete (final CRes).
    pub challenge_completion_ind: CompletionIndicator,
    /// Additional UI content from the ACS (HTML string, v2.2+).
    pub acs_ui: Option<String>,
    /// UI type of the ACS content.
    pub acs_ui_type: Option<AcsUiType>,
    /// ACS-rendered challenge HTML (native UI, when sdk_ui_type = 05).
    pub acs_html: Option<String>,
    /// Whitelist status after challenge (v2.2+).
    pub whitelist_status: Option<crate::message::ares::WhitelistStatus>,
}

impl ChallengeResponse {
    /// True if the cardholder successfully passed the challenge.
    pub fn is_authenticated(&self) -> (r: bool)
        ensures
            r == self.trans_status.spec_is_authenticated(),
    {
        self.trans_status.is_authenticated()
    }
}

/// The "CRes" literal of the messageType field.
#[derive(Debug, Clone, Copy, PartialEq, Eq, Hash, Structural)]
pub enum MessageType {
    CRes,
}

impl MessageType {
    /// The wire code of this value.
    pub open spec fn spec_code(self) -> Seq<char> {
        match self {
            MessageType::CRes => "CRes"@,
        }
    }

    /// The value whose wire code is `s`, if any.
    pub open spec fn spec_from_code(s: Seq<char>) -> Option<MessageType> {
        if s == "CRes"@ {
            Some(MessageType::CRes)
        } else {
            None
        }
    }

    /// The wire code of this value, as it stands in a message.
    pub fn code(self) -> (r: &'static str)
        ensures
            r@ == self.spec_code(),
    {
        match self {
            MessageType::CRes => "CRes",
        }
    }

    /// Reads a wire code; `None` when `s` is no code of this type.
    pub fn from_code(s: &str) -> (r: Option<MessageType>)
        ensures
            r == MessageType::spec_from_code(s@),
    {
        if str_eq(s, "CRes") {
            Some(MessageType::CRes)
        } else {
            None
        }
    }

    /// Reading back the wire code of a value gives the value, and a code that
    /// reads as a value is that value's code.
    pub proof fn lemma_code_roundtrip(self, s: Seq<char>)
        ensures
            MessageType::spec_from_code(self.spec_code()) == Some(self),
            MessageType::spec_from_code(s) == Some(self) ==> s == self.spec_code(),
    {
        reveal_strlit("CRes");
    }

    /// The wire code of each value, and the value that each code reads as.
    pub proof fn lemma_wire_codes()
        ensures
            MessageType::CRes.spec_code() == "CRes"@,
            MessageType::spec_from_code("CRes"@) == Some(MessageType::CRes),
    {
        MessageType::CRes.lemma_code_roundtrip("CRes"@);
    }
}
/// Whether the challenge is complete.
#[derive(Debug, Clone, Copy, PartialEq, Eq, Hash, Structural)]
pub enum CompletionIndicator {
    Complete,
    Incomplete,
}

impl CompletionIndicator {
    /// The wire code of this value.
    pub open spec fn spec_code(self) -> Seq<char> {
        match self {
            CompletionIndicator::Complete => "Y"@,
            CompletionIndicator::Incomplete => "N"@,
        }
    }

    /// The value whose wire code is `s`, if any.
    pub open spec fn spec_from_code(s: Seq<char>) -> Option<CompletionIndicator> {
        if s == "Y"@ {
            Some(CompletionIndicator::Complete)
        } else if s == "N"@ {
            Some(CompletionIndicator::Incomplete)
        } else {
            None
        }
    }

    /// The wire code of this value, as it stands in a message.
    pub fn code(self) -> (r: &'static str)
        ensures
            r@ == self.spec_code(),
    {
        match self {
            CompletionIndicator::Complete => "Y",
            CompletionIndicator::Incomplete => "N",
        }
    }

    /// Reads a wire code; `None` when `s` is no code of this type.
    pub fn from_code(s: &str) -> (r: Option<CompletionIndicator>)
        ensures
            r == CompletionIndicator::spec_from_code(s@),
    {
        if str_eq(s, "Y") {
            Some(CompletionIndicator::Complete)
        } else if str_eq(s, "N") {
            Some(CompletionIndicator::Incomplete)
        } else {
            None
        }
    }

    /// Reading back the wire code of a value gives the value, and a code that
    /// reads as a value is that value's code.
    pub proof fn lemma_code_roundtrip(self, s: Seq<char>)
        ensures
            CompletionIndicator::spec_from_code(self.spec_code()) == Some(self),
            CompletionIndicator::spec_from_code(s) == Some(self) ==> s == self.spec_code(),
    {
        reveal_strlit("Y");
        reveal_strlit("N");
        match self {
            CompletionIndicator::Complete => {},
            CompletionIndicator::Incomplete => {
                assert("N"@[0] != "Y"@[0]);
            },
        }
    }

    /// The wire code of each value, and the value that each code reads as.
    pub proof fn lemma_wire_codes()
        ensures
            CompletionIndicator::Complete.spec_code() == "Y"@,
            CompletionIndicator::spec_from_code("Y"@) == Some(CompletionIndicator::Complete),
            CompletionIndicator::Incomplete.spec_code() == "N"@,
            CompletionIndicator::spec_from_code("N"@) == Some(CompletionIndicator::Incomplete),
    {
        CompletionIndicator::Complete.lemma_code_roundtrip("Y"@);
        CompletionIndicator::Incomplete.lemma_code_roundtrip("N"@);
    }
}
/// User-interface type of the ACS challenge content.
#[derive(Debug, Clone, Copy, PartialEq, Eq, Hash, Structural)]
pub enum AcsUiType {
    Text,
    SingleSelect,
    MultiSelect,
    Oob,
    HtmlOther,
}

impl AcsUiType {
    /// The wire code of this value.
    pub open spec fn spec_code(self) -> Seq<char> {
        match self {
            AcsUiType::Text => "01"@,
            AcsUiType::SingleSelect => "02"@,
            AcsUiType::MultiSelect => "03"@,
            AcsUiType::Oob => "04"@,
            AcsUiType::HtmlOther => "05"@,
        }
    }

    /// The value whose wire code is `s`, if any.
    pub open spec fn spec_from_code(s: Seq<char>) -> Option<AcsUiType> {
        if s == "01"@ {
            Some(AcsUiType::Text)
        } else if s == "02"@ {
            Some(AcsUiType::SingleSelect)
        } else if s == "03"@ {
            Some(AcsUiType::MultiSelect)
        } else if s == "04"@ {
            Some(AcsUiType::Oob)
        } else if s == "05"@ {
            Some(AcsUiType::HtmlOther)
        } else {
            None
        }
    }

    /// The wire code of this value, as it stands in a message.
    pub fn code(self) -> (r: &'static str)
        ensures
            r@ == self.spec_code(),
    {
        match self {
            AcsUiType::Text => "01",
            AcsUiType::SingleSelect => "02",
            AcsUiType::MultiSelect => "03",
            AcsUiType::Oob => "04",
            AcsUiType::HtmlOther => "05",
        }
    }

    /// Reads a wire code; `None` when `s` is no code of this type.
    pub fn from_code(s: &str) -> (r: Option<AcsUiType>)
        ensures
            r == AcsUiType::spec_from_code(s@),
    {
        if str_eq(s, "01") {
            Some(AcsUiType::Text)
        } else if str_eq(s, "02") {
            Some(AcsUiType::SingleSelect)
        } else if str_eq(s, "03") {
            Some(AcsUiType::MultiSelect)
        } else if str_eq(s, "04") {
            Some(AcsUiType::Oob)
        } else if str_eq(s, "05") {
            Some(AcsUiType::HtmlOther)
        } else {
            None
        }
    }

    /// Reading back the wire code of a value gives the value, and a code that
    /// reads as a value is that value's code.
    pub proof fn lemma_code_roundtrip(self, s: Seq<char>)
        ensures
            AcsUiType::spec_from_code(self.spec_code()) == Some(self),
            AcsUiType::spec_from_code(s) == Some(self) ==> s == self.spec_code(),
    {
        reveal_strlit("01");
        reveal_strlit("02");
        reveal_strlit("03");
        reveal_strlit("04");
        reveal_strlit("05");
        match self {
            AcsUiType::Text => {},
            AcsUiType::SingleSelect => {
                assert("02"@[1] != "01"@[1]);
            },
            AcsUiType::MultiSelect => {
                assert("03"@[1] != "01"@[1]);
                assert("03"@[1] != "02"@[1]);
            },
            AcsUiType::Oob => {
                assert("04"@[1] != "01"@[1]);
                assert("04"@[1] != "02"@[1]);
                assert("04"@[1] != "03"@[1]);
            },
            AcsUiType::HtmlOther => {
                assert("05"@[1] != "01"@[1]);
                assert("05"@[1] != "02"@[1]);
                assert("05"@[1] != "03"@[1]);
                assert("05"@[1] != "04"@[1]);
            },
        }
    }

    /// The wire code of each value, and the value that each code reads as.
    pub proof fn lemma_wire_codes()
        ensures
            AcsUiType::Text.spec_code() == "01"@,
            AcsUiType::spec_from_code("01"@) == Some(AcsUiType::Text),
            AcsUiType::SingleSelect.spec_code() == "02"@,
            AcsUiType::spec_from_code("02"@) == Some(AcsUiType::SingleSelect),
            AcsUiType::MultiSelect.spec_code() == "03"@,
            AcsUiType::spec_from_code("03"@) == Some(AcsUiType::MultiSelect),
            AcsUiType::Oob.spec_code() == "04"@,
            AcsUiType::spec_from_code("04"@) == Some(AcsUiType::Oob),
            AcsUiType::HtmlOther.spec_code() == "05"@,
            AcsUiType::spec_from_code("05"@) == Some(AcsUiType::HtmlOther),
    {
        AcsUiType::Text.lemma_code_roundtrip("01"@);
        AcsUiType::SingleSelect.lemma_code_roundtrip("02"@);
        AcsUiType::MultiSelect.lemma_code_roundtrip("03"@);
        AcsUiType::Oob.lemma_code_roundtrip("04"@);
        AcsUiType::HtmlOther.lemma_code_roundtrip("05"@);
    }
}
} // verus!
