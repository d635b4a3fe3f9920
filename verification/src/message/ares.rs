//! Authentication Response (ARes).

use crate::text::str_eq;
use crate::types::{Eci, MessageVersion, TransStatus, TransStatusReason};
use vstd::prelude::*;

verus! {

/// EMV 3DS Authentication Response (ARes).
///
/// Returned by the Directory Server (relaying from the ACS) in response to an AReq.
/// A `transStatus` of `C` means the ACS requires a challenge; `Y` or `A` means
/// authentication succeeded frictionlessly.
#[derive(Debug, Clone)]
pub struct AuthenticationResponse {
    pub message_type: MessageType,
    pub message_version: MessageVersion,

    // ── Transaction IDs ───────────────────────────────────────────────────
    pub three_ds_server_trans_id: String,
    pub acs_trans_id: String,
    pub ds_trans_id: String,

    // ── Authentication outcome ────────────────────────────────────────────
    pub trans_status: TransStatus,
    pub trans_status_reason: Option<TransStatusReason>,
    /// Whether the ACS mandates a challenge regardless of requestor preference.
    pub acs_challenge_mandated: Option<AcsMandated>,
    /// ECI value to include in the authorization request.
    pub eci: Option<Eci>,
    /// CAVV / AAV — base64url encoded; present only on Y or A.
    pub authentication_value: Option<String>,

    // ── Challenge parameters (only when transStatus = C) ─────────────────
    /// URL of the ACS challenge page (browser channel).
    pub acs_url: Option<String>,
    /// JWS-signed content for app-based challenge.
    pub acs_signed_content: Option<String>,
    /// Decoupled authentication maximum timeout (minutes).
    pub acs_dec_con_ind: Option<String>,

    // ── DS reference info ─────────────────────────────────────────────────
    pub acs_reference_number: Option<String>,
    pub ds_reference_number: Option<String>,

    // ── Cardholder info (may be returned for informational NPA) ──────────
    pub cardholder_info: Option<String>,

    // ── Whitelisting (v2.2+) ──────────────────────────────────────────────
    pub whitelist_status: Option<WhitelistStatus>,
    pub whitelist_status_source: Option<WhitelistStatusSource>,
}

impl AuthenticationResponse {
    /// True if authentication completed without a challenge.
    pub fn is_frictionless(&self) -> (r: bool)
        ensures
            r == self.trans_status.spec_is_authenticated(),
    {
        self.trans_status.is_authenticated()
    }

    /// True if the requestor must present a challenge UI to the cardholder.
    pub fn requires_challenge(&self) -> (r: bool)
        ensures
            r == self.trans_status.spec_requires_challenge(),
    {
        self.trans_status.requires_challenge()
    }
}

/// The "ARes" literal of the messageType field.
#[derive(Debug, Clone, Copy, PartialEq, Eq, Hash, Structural)]
pub enum MessageType {
    ARes,
}

impl MessageType {
    /// The wire code of this value.
    pub open spec fn spec_code(self) -> Seq<char> {
        match self {
            MessageType::ARes => "ARes"@,
        }
    }

    /// The value whose wire code is `s`, if any.
    pub open spec fn spec_from_code(s: Seq<char>) -> Option<MessageType> {
        if s == "ARes"@ {
            Some(MessageType::ARes)
        } else {
            None
        }
    }

    /// The wire code of this value, as it stands in a message.
    pub fn code(self) -> (r: &'static str)
        ensures
            r@ == self.spec_code(),
    {
        match self {
            MessageType::ARes => "ARes",
        }
    }

    /// Reads a wire code; `None` when `s` is no code of this type.
    pub fn from_code(s: &str) -> (r: Option<MessageType>)
        ensures
            r == MessageType::spec_from_code(s@),
    {
        if str_eq(s, "ARes") {
            Some(MessageType::ARes)
        } else {
            None
        }
    }

    /// Reading back the wire code of a value gives the value, and a code that
    /// reads as a value is that value's code.
    pub proof fn lemma_code_roundtrip(self, s: Seq<char>)
        ensures
            MessageType::spec_from_code(self.spec_code()) == Some(self),
            MessageType::spec_from_code(s) == Some(self) ==> s == self.spec_code(),
    {
        reveal_strlit("ARes");
    }

    /// The wire code of each value, and the value that each code reads as.
    pub proof fn lemma_wire_codes()
        ensures
            MessageType::ARes.spec_code() == "ARes"@,
            MessageType::spec_from_code("ARes"@) == Some(MessageType::ARes),
    {
        MessageType::ARes.lemma_code_roundtrip("ARes"@);
    }
}
/// Whether the ACS mandates a challenge.
#[derive(Debug, Clone, Copy, PartialEq, Eq, Hash, Structural)]
pub enum AcsMandated {
    Yes,
    No,
}

impl AcsMandated {
    /// The wire code of this value.
    pub open spec fn spec_code(self) -> Seq<char> {
        match self {
            AcsMandated::Yes => "Y"@,
            AcsMandated::No => "N"@,
        }
    }

    /// The value whose wire code is `s`, if any.
    pub open spec fn spec_from_code(s: Seq<char>) -> Option<AcsMandated> {
        if s == "Y"@ {
            Some(AcsMandated::Yes)
        } else if s == "N"@ {
            Some(AcsMandated::No)
        } else {
            None
        }
    }

    /// The wire code of this value, as it stands in a message.
    pub fn code(self) -> (r: &'static str)
        ensures
            r@ == self.spec_code(),
    {
        match self {
            AcsMandated::Yes => "Y",
            AcsMandated::No => "N",
        }
    }

    /// Reads a wire code; `None` when `s` is no code of this type.
    pub fn from_code(s: &str) -> (r: Option<AcsMandated>)
        ensures
            r == AcsMandated::spec_from_code(s@),
    {
        if str_eq(s, "Y") {
            Some(AcsMandated::Yes)
        } else if str_eq(s, "N") {
            Some(AcsMandated::No)
        } else {
            None
        }
    }

    /// Reading back the wire code of a value gives the value, and a code that
    /// reads as a value is that value's code.
    pub proof fn lemma_code_roundtrip(self, s: Seq<char>)
        ensures
            AcsMandated::spec_from_code(self.spec_code()) == Some(self),
            AcsMandated::spec_from_code(s) == Some(self) ==> s == self.spec_code(),
    {
        reveal_strlit("Y");
        reveal_strlit("N");
        match self {
            AcsMandated::Yes => {},
            AcsMandated::No => {
                assert("N"@[0] != "Y"@[0]);
            },
        }
    }

    /// The wire code of each value, and the value that each code reads as.
    pub proof fn lemma_wire_codes()
        ensures
            AcsMandated::Yes.spec_code() == "Y"@,
            AcsMandated::spec_from_code("Y"@) == Some(AcsMandated::Yes),
            AcsMandated::No.spec_code() == "N"@,
            AcsMandated::spec_from_code("N"@) == Some(AcsMandated::No),
    {
        AcsMandated::Yes.lemma_code_roundtrip("Y"@);
        AcsMandated::No.lemma_code_roundtrip("N"@);
    }
}
/// Whitelisting status of the 3DS Requestor for the cardholder.
#[derive(Debug, Clone, Copy, PartialEq, Eq, Hash, Structural)]
pub enum WhitelistStatus {
    Whitelisted,
    NotWhitelisted,
    NotEligible,
    Pending,
    RequestedByRequestor,
    Unknown,
}

impl WhitelistStatus {
    /// The wire code of this value.
    pub open spec fn spec_code(self) -> Seq<char> {
        match self {
            WhitelistStatus::Whitelisted => "Y"@,
            WhitelistStatus::NotWhitelisted => "N"@,
            WhitelistStatus::NotEligible => "E"@,
            WhitelistStatus::Pending => "P"@,
            WhitelistStatus::RequestedByRequestor => "R"@,
            WhitelistStatus::Unknown => "U"@,
        }
    }

    /// The value whose wire code is `s`, if any.
    pub open spec fn spec_from_code(s: Seq<char>) -> Option<WhitelistStatus> {
        if s == "Y"@ {
            Some(WhitelistStatus::Whitelisted)
        } else if s == "N"@ {
            Some(WhitelistStatus::NotWhitelisted)
        } else if s == "E"@ {
            Some(WhitelistStatus::NotEligible)
        } else if s == "P"@ {
            Some(WhitelistStatus::Pending)
        } else if s == "R"@ {
            Some(WhitelistStatus::RequestedByRequestor)
        } else if s == "U"@ {
            Some(WhitelistStatus::Unknown)
        } else {
            None
        }
    }

    /// The wire code of this value, as it stands in a message.
    pub fn code(self) -> (r: &'static str)
        ensures
            r@ == self.spec_code(),
    {
        match self {
            WhitelistStatus::Whitelisted => "Y",
            WhitelistStatus::NotWhitelisted => "N",
            WhitelistStatus::NotEligible => "E",
            WhitelistStatus::Pending => "P",
            WhitelistStatus::RequestedByRequestor => "R",
            WhitelistStatus::Unknown => "U",
        }
    }

    /// Reads a wire code; `None` when `s` is no code of this type.
    pub fn from_code(s: &str) -> (r: Option<WhitelistStatus>)
        ensures
            r == WhitelistStatus::spec_from_code(s@),
    {
        if str_eq(s, "Y") {
            Some(WhitelistStatus::Whitelisted)
        } else if str_eq(s, "N") {
            Some(WhitelistStatus::NotWhitelisted)
        } else if str_eq(s, "E") {
            Some(WhitelistStatus::NotEligible)
        } else if str_eq(s, "P") {
            Some(WhitelistStatus::Pending)
        } else if str_eq(s, "R") {
            Some(WhitelistStatus::RequestedByRequestor)
        } else if str_eq(s, "U") {
            Some(WhitelistStatus::Unknown)
        } else {
            None
        }
    }

    /// Reading back the wire code of a value gives the value, and a code that
    /// reads as a value is that value's code.
    pub proof fn lemma_code_roundtrip(self, s: Seq<char>)
        ensures
            WhitelistStatus::spec_from_code(self.spec_code()) == Some(self),
            WhitelistStatus::spec_from_code(s) == Some(self) ==> s == self.spec_code(),
    {
        reveal_strlit("Y");
        reveal_strlit("N");
        reveal_strlit("E");
        reveal_strlit("P");
        reveal_strlit("R");
        reveal_strlit("U");
        match self {
            WhitelistStatus::Whitelisted => {},
            WhitelistStatus::NotWhitelisted => {
                assert("N"@[0] != "Y"@[0]);
            },
            WhitelistStatus::NotEligible => {
                assert("E"@[0] != "Y"@[0]);
                assert("E"@[0] != "N"@[0]);
            },
            WhitelistStatus::Pending => {
                assert("P"@[0] != "Y"@[0]);
                assert("P"@[0] != "N"@[0]);
                assert("P"@[0] != "E"@[0]);
            },
            WhitelistStatus::RequestedByRequestor => {
                assert("R"@[0] != "Y"@[0]);
                assert("R"@[0] != "N"@[0]);
                assert("R"@[0] != "E"@[0]);
                assert("R"@[0] != "P"@[0]);
            },
            WhitelistStatus::Unknown => {
                assert("U"@[0] != "Y"@[0]);
                assert("U"@[0] != "N"@[0]);
                assert("U"@[0] != "E"@[0]);
                assert("U"@[0] != "P"@[0]);
                assert("U"@[0] != "R"@[0]);
            },
        }
    }

    /// The wire code of each value, and the value that each code reads as.
    pub proof fn lemma_wire_codes()
        ensures
            WhitelistStatus::Whitelisted.spec_code() == "Y"@,
            WhitelistStatus::spec_from_code("Y"@) == Some(WhitelistStatus::Whitelisted),
            WhitelistStatus::NotWhitelisted.spec_code() == "N"@,
            WhitelistStatus::spec_from_code("N"@) == Some(WhitelistStatus::NotWhitelisted),
            WhitelistStatus::NotEligible.spec_code() == "E"@,
            WhitelistStatus::spec_from_code("E"@) == Some(WhitelistStatus::NotEligible),
            WhitelistStatus::Pending.spec_code() == "P"@,
            WhitelistStatus::spec_from_code("P"@) == Some(WhitelistStatus::Pending),
            WhitelistStatus::RequestedByRequestor.spec_code() == "R"@,
            WhitelistStatus::spec_from_code("R"@) == Some(WhitelistStatus::RequestedByRequestor),
            WhitelistStatus::Unknown.spec_code() == "U"@,
            WhitelistStatus::spec_from_code("U"@) == Some(WhitelistStatus::Unknown),
    {
        WhitelistStatus::Whitelisted.lemma_code_roundtrip("Y"@);
        WhitelistStatus::NotWhitelisted.lemma_code_roundtrip("N"@);
        WhitelistStatus::NotEligible.lemma_code_roundtrip("E"@);
        WhitelistStatus::Pending.lemma_code_roundtrip("P"@);
        WhitelistStatus::RequestedByRequestor.lemma_code_roundtrip("R"@);
        WhitelistStatus::Unknown.lemma_code_roundtrip("U"@);
    }
}
/// The component that set the whitelisting status.
#[derive(Debug, Clone, Copy, PartialEq, Eq, Hash, Structural)]
pub enum WhitelistStatusSource {
    ThreeDsServerCached,
    Ds,
    Acs,
}

impl WhitelistStatusSource {
    /// The wire code of this value.
    pub open spec fn spec_code(self) -> Seq<char> {
        match self {
            WhitelistStatusSource::ThreeDsServerCached => "01"@,
            WhitelistStatusSource::Ds => "02"@,
            WhitelistStatusSource::Acs => "03"@,
        }
    }

    /// The value whose wire code is `s`, if any.
    pub open spec fn spec_from_code(s: Seq<char>) -> Option<WhitelistStatusSource> {
        if s == "01"@ {
            Some(WhitelistStatusSource::ThreeDsServerCached)
        } else if s == "02"@ {
            Some(WhitelistStatusSource::Ds)
        } else if s == "03"@ {
            Some(WhitelistStatusSource::Acs)
        } else {
            None
        }
    }

    /// The wire code of this value, as it stands in a message.
    pub fn code(self) -> (r: &'static str)
        ensures
            r@ == self.spec_code(),
    {
        match self {
            WhitelistStatusSource::ThreeDsServerCached => "01",
            WhitelistStatusSource::Ds => "02",
            WhitelistStatusSource::Acs => "03",
        }
    }

    /// Reads a wire code; `None` when `s` is no code of this type.
    pub fn from_code(s: &str) -> (r: Option<WhitelistStatusSource>)
        ensures
            r == WhitelistStatusSource::spec_from_code(s@),
    {
        if str_eq(s, "01") {
            Some(WhitelistStatusSource::ThreeDsServerCached)
        } else if str_eq(s, "02") {
            Some(WhitelistStatusSource::Ds)
        } else if str_eq(s, "03") {
            Some(WhitelistStatusSource::Acs)
        } else {
            None
        }
    }

    /// Reading back the wire code of a value gives the value, and a code that
    /// reads as a value is that value's code.
    pub proof fn lemma_code_roundtrip(self, s: Seq<char>)
        ensures
            WhitelistStatusSource::spec_from_code(self.spec_code()) == Some(self),
            WhitelistStatusSource::spec_from_code(s) == Some(self) ==> s == self.spec_code(),
    {
        reveal_strlit("01");
        reveal_strlit("02");
        reveal_strlit("03");
        match self {
            WhitelistStatusSource::ThreeDsServerCached => {},
            WhitelistStatusSource::Ds => {
                assert("02"@[1] != "01"@[1]);
            },
            WhitelistStatusSource::Acs => {
                assert("03"@[1] != "01"@[1]);
                assert("03"@[1] != "02"@[1]);
            },
        }
    }

    /// The wire code of each value, and the value that each code reads as.
    pub proof fn lemma_wire_codes()
        ensures
            WhitelistStatusSource::ThreeDsServerCached.spec_code() == "01"@,
            WhitelistStatusSource::spec_from_code("01"@) == Some(WhitelistStatusSource::ThreeDsServerCached),
            WhitelistStatusSource::Ds.spec_code() == "02"@,
            WhitelistStatusSource::spec_from_code("02"@) == Some(WhitelistStatusSource::Ds),
            WhitelistStatusSource::Acs.spec_code() == "03"@,
            WhitelistStatusSource::spec_from_code("03"@) == Some(WhitelistStatusSource::Acs),
    {
        WhitelistStatusSource::ThreeDsServerCached.lemma_code_roundtrip("01"@);
        WhitelistStatusSource::Ds.lemma_code_roundtrip("02"@);
        WhitelistStatusSource::Acs.lemma_code_roundtrip("03"@);
    }
}
} // verus!
