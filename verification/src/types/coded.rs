//! Coded values of the protocol, each with its wire code.

use crate::text::str_eq;
use vstd::prelude::*;

verus! {

/// EMV 3DS specification version.
#[derive(Debug, Clone, Copy, PartialEq, Eq, Hash, Structural)]
pub enum MessageVersion {
    V210,
    V220,
    V230,
}

impl MessageVersion {
    /// The wire code of this value.
    pub open spec fn spec_code(self) -> Seq<char> {
        match self {
            MessageVersion::V210 => "2.1.0"@,
            MessageVersion::V220 => "2.2.0"@,
            MessageVersion::V230 => "2.3.0"@,
        }
    }

    /// The value whose wire code is `s`, if any.
    pub open spec fn spec_from_code(s: Seq<char>) -> Option<MessageVersion> {
        if s == "2.1.0"@ {
            Some(MessageVersion::V210)
        } else if s == "2.2.0"@ {
            Some(MessageVersion::V220)
        } else if s == "2.3.0"@ {
            Some(MessageVersion::V230)
        } else {
            None
        }
    }

    /// The wire code of this value, as it stands in a message.
    pub fn as_str(self) -> (r: &'static str)
        ensures
            r@ == self.spec_code(),
    {
        match self {
            MessageVersion::V210 => "2.1.0",
            MessageVersion::V220 => "2.2.0",
            MessageVersion::V230 => "2.3.0",
        }
    }

    /// Reads a wire code; `None` when `s` is no code of this type.
    pub fn from_code(s: &str) -> (r: Option<MessageVersion>)
        ensures
            r == MessageVersion::spec_from_code(s@),
    {
        if str_eq(s, "2.1.0") {
            Some(MessageVersion::V210)
        } else if str_eq(s, "2.2.0") {
            Some(MessageVersion::V220)
        } else if str_eq(s, "2.3.0") {
            Some(MessageVersion::V230)
        } else {
            None
        }
    }

    /// Reading back the wire code of a value gives the value, and a code that
    /// reads as a value is that value's code.
    pub proof fn lemma_code_roundtrip(self, s: Seq<char>)
        ensures
            MessageVersion::spec_from_code(self.spec_code()) == Some(self),
            MessageVersion::spec_from_code(s) == Some(self) ==> s == self.spec_code(),
    {
        reveal_strlit("2.1.0");
        reveal_strlit("2.2.0");
        reveal_strlit("2.3.0");
        match self {
            MessageVersion::V210 => {},
            MessageVersion::V220 => {
                assert("2.2.0"@[2] != "2.1.0"@[2]);
            },
            MessageVersion::V230 => {
                assert("2.3.0"@[2] != "2.1.0"@[2]);
                assert("2.3.0"@[2] != "2.2.0"@[2]);
            },
        }
    }

    /// The wire code of each value, and the value that each code reads as.
    pub proof fn lemma_wire_codes()
        ensures
            MessageVersion::V210.spec_code() == "2.1.0"@,
            MessageVersion::spec_from_code("2.1.0"@) == Some(MessageVersion::V210),
            MessageVersion::V220.spec_code() == "2.2.0"@,
            MessageVersion::spec_from_code("2.2.0"@) == Some(MessageVersion::V220),
            MessageVersion::V230.spec_code() == "2.3.0"@,
            MessageVersion::spec_from_code("2.3.0"@) == Some(MessageVersion::V230),
    {
        MessageVersion::V210.lemma_code_roundtrip("2.1.0"@);
        MessageVersion::V220.lemma_code_roundtrip("2.2.0"@);
        MessageVersion::V230.lemma_code_roundtrip("2.3.0"@);
    }

    /// The version string, as `Display` renders it.
    pub fn to_string(self) -> (r: String)
        ensures
            r@ == self.spec_code(),
    {
        String::from_str(self.as_str())
    }
}

/// Device channel through which the transaction originates.
#[derive(Debug, Clone, Copy, PartialEq, Eq, Hash, Structural)]
pub enum DeviceChannel {
    /// 01 — App-based (native SDK)
    App,
    /// 02 — Browser
    Browser,
    /// 03 — 3DS Requestor Initiated (3RI)
    ThreeDsRequestorInitiated,
}

impl DeviceChannel {
    /// The wire code of this value.
    pub open spec fn spec_code(self) -> Seq<char> {
        match self {
            DeviceChannel::App => "01"@,
            DeviceChannel::Browser => "02"@,
            DeviceChannel::ThreeDsRequestorInitiated => "03"@,
        }
    }

    /// The value whose wire code is `s`, if any.
    pub open spec fn spec_from_code(s: Seq<char>) -> Option<DeviceChannel> {
        if s == "01"@ {
            Some(DeviceChannel::App)
        } else if s == "02"@ {
            Some(DeviceChannel::Browser)
        } else if s == "03"@ {
            Some(DeviceChannel::ThreeDsRequestorInitiated)
        } else {
            None
        }
    }

    /// The wire code of this value, as it stands in a message.
    pub fn code(self) -> (r: &'static str)
        ensures
            r@ == self.spec_code(),
    {
        match self {
            DeviceChannel::App => "01",
            DeviceChannel::Browser => "02",
            DeviceChannel::ThreeDsRequestorInitiated => "03",
        }
    }

    /// Reads a wire code; `None` when `s` is no code of this type.
    pub fn from_code(s: &str) -> (r: Option<DeviceChannel>)
        ensures
            r == DeviceChannel::spec_from_code(s@),
    {
        if str_eq(s, "01") {
            Some(DeviceChannel::App)
        } else if str_eq(s, "02") {
            Some(DeviceChannel::Browser)
        } else if str_eq(s, "03") {
            Some(DeviceChannel::ThreeDsRequestorInitiated)
        } else {
            None
        }
    }

    /// Reading back the wire code of a value gives the value, and a code that
    /// reads as a value is that value's code.
    pub proof fn lemma_code_roundtrip(self, s: Seq<char>)
        ensures
            DeviceChannel::spec_from_code(self.spec_code()) == Some(self),
            DeviceChannel::spec_from_code(s) == Some(self) ==> s == self.spec_code(),
    {
        reveal_strlit("01");
        reveal_strlit("02");
        reveal_strlit("03");
        match self {
            DeviceChannel::App => {},
            DeviceChannel::Browser => {
                assert("02"@[1] != "01"@[1]);
            },
            DeviceChannel::ThreeDsRequestorInitiated => {
                assert("03"@[1] != "01"@[1]);
                assert("03"@[1] != "02"@[1]);
            },
        }
    }

    /// The wire code of each value, and the value that each code reads as.
    pub proof fn lemma_wire_codes()
        ensures
            DeviceChannel::App.spec_code() == "01"@,
            DeviceChannel::spec_from_code("01"@) == Some(DeviceChannel::App),
            DeviceChannel::Browser.spec_code() == "02"@,
            DeviceChannel::spec_from_code("02"@) == Some(DeviceChannel::Browser),
            DeviceChannel::ThreeDsRequestorInitiated.spec_code() == "03"@,
            DeviceChannel::spec_from_code("03"@) == Some(DeviceChannel::ThreeDsRequestorInitiated),
    {
        DeviceChannel::App.lemma_code_roundtrip("01"@);
        DeviceChannel::Browser.lemma_code_roundtrip("02"@);
        DeviceChannel::ThreeDsRequestorInitiated.lemma_code_roundtrip("03"@);
    }
}

/// Category of authentication being requested.
#[derive(Debug, Clone, Copy, PartialEq, Eq, Hash, Structural)]
pub enum MessageCategory {
    /// 01 — Payment Authentication
    PaymentAuthentication,
    /// 02 — Non-Payment Authentication
    NonPaymentAuthentication,
}

impl MessageCategory {
    /// The wire code of this value.
    pub open spec fn spec_code(self) -> Seq<char> {
        match self {
            MessageCategory::PaymentAuthentication => "01"@,
            MessageCategory::NonPaymentAuthentication => "02"@,
        }
    }

    /// The value whose wire code is `s`, if any.
    pub open spec fn spec_from_code(s: Seq<char>) -> Option<MessageCategory> {
        if s == "01"@ {
            Some(MessageCategory::PaymentAuthentication)
        } else if s == "02"@ {
            Some(MessageCategory::NonPaymentAuthentication)
        } else {
            None
        }
    }

    /// The wire code of this value, as it stands in a message.
    pub fn code(self) -> (r: &'static str)
        ensures
            r@ == self.spec_code(),
    {
        match self {
            MessageCategory::PaymentAuthentication => "01",
            MessageCategory::NonPaymentAuthentication => "02",
        }
    }

    /// Reads a wire code; `None` when `s` is no code of this type.
    pub fn from_code(s: &str) -> (r: Option<MessageCategory>)
        ensures
            r == MessageCategory::spec_from_code(s@),
    {
        if str_eq(s, "01") {
            Some(MessageCategory::PaymentAuthentication)
        } else if str_eq(s, "02") {
            Some(MessageCategory::NonPaymentAuthentication)
        } else {
            None
        }
    }

    /// Reading back the wire code of a value gives the value, and a code that
    /// reads as a value is that value's code.
    pub proof fn lemma_code_roundtrip(self, s: Seq<char>)
        ensures
            MessageCategory::spec_from_code(self.spec_code()) == Some(self),
            MessageCategory::spec_from_code(s) == Some(self) ==> s == self.spec_code(),
    {
        reveal_strlit("01");
        reveal_strlit("02");
        match self {
            MessageCategory::PaymentAuthentication => {},
            MessageCategory::NonPaymentAuthentication => {
                assert("02"@[1] != "01"@[1]);
            },
        }
    }

    /// The wire code of each value, and the value that each code reads as.
    pub proof fn lemma_wire_codes()
        ensures
            MessageCategory::PaymentAuthentication.spec_code() == "01"@,
            MessageCategory::spec_from_code("01"@) == Some(MessageCategory::PaymentAuthentication),
            MessageCategory::NonPaymentAuthentication.spec_code() == "02"@,
            MessageCategory::spec_from_code("02"@) == Some(MessageCategory::NonPaymentAuthentication),
    {
        MessageCategory::PaymentAuthentication.lemma_code_roundtrip("01"@);
        MessageCategory::NonPaymentAuthentication.lemma_code_roundtrip("02"@);
    }
}

/// Outcome of the authentication transaction.
#[derive(Debug, Clone, Copy, PartialEq, Eq, Hash, Structural)]
pub enum TransStatus {
    /// Y — Authentication / Account Verification Successful
    Success,
    /// N — Not Authenticated / Account Not Verified
    Failure,
    /// U — Authentication / Account Verification Could Not Be Performed
    Unable,
    /// A — Attempts Processing Performed
    Attempted,
    /// C — Challenge Required; additional authentication needed
    ChallengeRequired,
    /// D — Decoupled Authentication Confirmed
    DecoupledRequired,
    /// I — Informational Only; 3DS Requestor challenge preference acknowledged
    InformationalOnly,
    /// R — Authentication / Account Verification Rejected
    Rejected,
}

impl TransStatus {
    /// The wire code of this value.
    pub open spec fn spec_code(self) -> Seq<char> {
        match self {
            TransStatus::Success => "Y"@,
            TransStatus::Failure => "N"@,
            TransStatus::Unable => "U"@,
            TransStatus::Attempted => "A"@,
            TransStatus::ChallengeRequired => "C"@,
            TransStatus::DecoupledRequired => "D"@,
            TransStatus::InformationalOnly => "I"@,
            TransStatus::Rejected => "R"@,
        }
    }

    /// The value whose wire code is `s`, if any.
    pub open spec fn spec_from_code(s: Seq<char>) -> Option<TransStatus> {
        if s == "Y"@ {
            Some(TransStatus::Success)
        } else if s == "N"@ {
            Some(TransStatus::Failure)
        } else if s == "U"@ {
            Some(TransStatus::Unable)
        } else if s == "A"@ {
            Some(TransStatus::Attempted)
        } else if s == "C"@ {
            Some(TransStatus::ChallengeRequired)
        } else if s == "D"@ {
            Some(TransStatus::DecoupledRequired)
        } else if s == "I"@ {
            Some(TransStatus::InformationalOnly)
        } else if s == "R"@ {
            Some(TransStatus::Rejected)
        } else {
            None
        }
    }

    /// The wire code of this value, as it stands in a message.
    pub fn code(self) -> (r: &'static str)
        ensures
            r@ == self.spec_code(),
    {
        match self {
            TransStatus::Success => "Y",
            TransStatus::Failure => "N",
            TransStatus::Unable => "U",
            TransStatus::Attempted => "A",
            TransStatus::ChallengeRequired => "C",
            TransStatus::DecoupledRequired => "D",
            TransStatus::InformationalOnly => "I",
            TransStatus::Rejected => "R",
        }
    }

    /// Reads a wire code; `None` when `s` is no code of this type.
    pub fn from_code(s: &str) -> (r: Option<TransStatus>)
        ensures
            r == TransStatus::spec_from_code(s@),
    {
        if str_eq(s, "Y") {
            Some(TransStatus::Success)
        } else if str_eq(s, "N") {
            Some(TransStatus::Failure)
        } else if str_eq(s, "U") {
            Some(TransStatus::Unable)
        } else if str_eq(s, "A") {
            Some(TransStatus::Attempted)
        } else if str_eq(s, "C") {
            Some(TransStatus::ChallengeRequired)
        } else if str_eq(s, "D") {
            Some(TransStatus::DecoupledRequired)
        } else if str_eq(s, "I") {
            Some(TransStatus::InformationalOnly)
        } else if str_eq(s, "R") {
            Some(TransStatus::Rejected)
        } else {
            None
        }
    }

    /// Reading back the wire code of a value gives the value, and a code that
    /// reads as a value is that value's code.
    pub proof fn lemma_code_roundtrip(self, s: Seq<char>)
        ensures
            TransStatus::spec_from_code(self.spec_code()) == Some(self),
            TransStatus::spec_from_code(s) == Some(self) ==> s == self.spec_code(),
    {
        reveal_strlit("Y");
        reveal_strlit("N");
        reveal_strlit("U");
        reveal_strlit("A");
        reveal_strlit("C");
        reveal_strlit("D");
        reveal_strlit("I");
        reveal_strlit("R");
        match self {
            TransStatus::Success => {},
            TransStatus::Failure => {
                assert("N"@[0] != "Y"@[0]);
            },
            TransStatus::Unable => {
                assert("U"@[0] != "Y"@[0]);
                assert("U"@[0] != "N"@[0]);
            },
            TransStatus::Attempted => {
                assert("A"@[0] != "Y"@[0]);
                assert("A"@[0] != "N"@[0]);
                assert("A"@[0] != "U"@[0]);
            },
            TransStatus::ChallengeRequired => {
                assert("C"@[0] != "Y"@[0]);
                assert("C"@[0] != "N"@[0]);
                assert("C"@[0] != "U"@[0]);
                assert("C"@[0] != "A"@[0]);
            },
            TransStatus::DecoupledRequired => {
                assert("D"@[0] != "Y"@[0]);
                assert("D"@[0] != "N"@[0]);
                assert("D"@[0] != "U"@[0]);
                assert("D"@[0] != "A"@[0]);
                assert("D"@[0] != "C"@[0]);
            },
            TransStatus::InformationalOnly => {
                assert("I"@[0] != "Y"@[0]);
                assert("I"@[0] != "N"@[0]);
                assert("I"@[0] != "U"@[0]);
                assert("I"@[0] != "A"@[0]);
                assert("I"@[0] != "C"@[0]);
                assert("I"@[0] != "D"@[0]);
            },
            TransStatus::Rejected => {
                assert("R"@[0] != "Y"@[0]);
                assert("R"@[0] != "N"@[0]);
                assert("R"@[0] != "U"@[0]);
                assert("R"@[0] != "A"@[0]);
                assert("R"@[0] != "C"@[0]);
                assert("R"@[0] != "D"@[0]);
                assert("R"@[0] != "I"@[0]);
            },
        }
    }

    /// The wire code of each value, and the value that each code reads as.
    pub proof fn lemma_wire_codes()
        ensures
            TransStatus::Success.spec_code() == "Y"@,
            TransStatus::spec_from_code("Y"@) == Some(TransStatus::Success),
            TransStatus::Failure.spec_code() == "N"@,
            TransStatus::spec_from_code("N"@) == Some(TransStatus::Failure),
            TransStatus::Unable.spec_code() == "U"@,
            TransStatus::spec_from_code("U"@) == Some(TransStatus::Unable),
            TransStatus::Attempted.spec_code() == "A"@,
            TransStatus::spec_from_code("A"@) == Some(TransStatus::Attempted),
            TransStatus::ChallengeRequired.spec_code() == "C"@,
            TransStatus::spec_from_code("C"@) == Some(TransStatus::ChallengeRequired),
            TransStatus::DecoupledRequired.spec_code() == "D"@,
            TransStatus::spec_from_code("D"@) == Some(TransStatus::DecoupledRequired),
            TransStatus::InformationalOnly.spec_code() == "I"@,
            TransStatus::spec_from_code("I"@) == Some(TransStatus::InformationalOnly),
            TransStatus::Rejected.spec_code() == "R"@,
            TransStatus::spec_from_code("R"@) == Some(TransStatus::Rejected),
    {
        TransStatus::Success.lemma_code_roundtrip("Y"@);
        TransStatus::Failure.lemma_code_roundtrip("N"@);
        TransStatus::Unable.lemma_code_roundtrip("U"@);
        TransStatus::Attempted.lemma_code_roundtrip("A"@);
        TransStatus::ChallengeRequired.lemma_code_roundtrip("C"@);
        TransStatus::DecoupledRequired.lemma_code_roundtrip("D"@);
        TransStatus::InformationalOnly.lemma_code_roundtrip("I"@);
        TransStatus::Rejected.lemma_code_roundtrip("R"@);
    }

    /// Successful outcomes: frictionless `Y` or attempted `A`.
    pub open spec fn spec_is_authenticated(self) -> bool {
        self is Success || self is Attempted
    }

    /// Outcomes that need a challenge: `C`, or decoupled `D`.
    pub open spec fn spec_requires_challenge(self) -> bool {
        self is ChallengeRequired || self is DecoupledRequired
    }

    /// True if the authentication was successful (frictionless Y or attempted A).
    pub fn is_authenticated(self) -> (r: bool)
        ensures
            r == self.spec_is_authenticated(),
    {
        match self {
            TransStatus::Success | TransStatus::Attempted => true,
            _ => false,
        }
    }

    /// True if a challenge must be presented to the cardholder.
    pub fn requires_challenge(self) -> (r: bool)
        ensures
            r == self.spec_requires_challenge(),
    {
        match self {
            TransStatus::ChallengeRequired | TransStatus::DecoupledRequired => true,
            _ => false,
        }
    }

    /// `Y` and `A` are the successful outcomes; `C` and `D` are the ones that
    /// need a challenge.
    pub proof fn lemma_status_classes(self)
        ensures
            self.spec_is_authenticated() <==> (self == TransStatus::Success || self
                == TransStatus::Attempted),
            self.spec_requires_challenge() <==> (self == TransStatus::ChallengeRequired || self
                == TransStatus::DecoupledRequired),
    {
    }

    /// No outcome is both a success and a demand for a challenge.
    pub proof fn lemma_authenticated_excludes_challenge(self)
        ensures
            !(self.spec_is_authenticated() && self.spec_requires_challenge()),
    {
    }
}

/// Reason code accompanying a non-successful TransStatus.
#[derive(Debug, Clone, Copy, PartialEq, Eq, Hash, Structural)]
pub enum TransStatusReason {
    CardAuthenticationFailed,
    UnknownDevice,
    UnsupportedDevice,
    ExceedsAuthenticationFrequencyLimit,
    ExpiredCard,
    InvalidCardNumber,
    InvalidTransaction,
    NoCardRecord,
    SecurityFailure,
    StolenCard,
    SuspectedFraud,
    TransactionNotPermittedToCardholder,
    CardholderNotEnrolledInService,
    TransactionTimedOutAtAcs,
    LowConfidence,
    MediumConfidence,
    HighConfidence,
    VeryHighConfidence,
    ExceedsMaxChallengesPerTransaction,
    NonPaymentNotSupported,
    ThreeDsRequestorChallengeIndicator3NotAccepted,
}

impl TransStatusReason {
    /// The wire code of this value.
    pub open spec fn spec_code(self) -> Seq<char> {
        match self {
            TransStatusReason::CardAuthenticationFailed => "01"@,
            TransStatusReason::UnknownDevice => "02"@,
            TransStatusReason::UnsupportedDevice => "03"@,
            TransStatusReason::ExceedsAuthenticationFrequencyLimit => "04"@,
            TransStatusReason::ExpiredCard => "05"@,
            TransStatusReason::InvalidCardNumber => "06"@,
            TransStatusReason::InvalidTransaction => "07"@,
            TransStatusReason::NoCardRecord => "08"@,
            TransStatusReason::SecurityFailure => "09"@,
            TransStatusReason::StolenCard => "10"@,
            TransStatusReason::SuspectedFraud => "11"@,
            TransStatusReason::TransactionNotPermittedToCardholder => "12"@,
            TransStatusReason::CardholderNotEnrolledInService => "13"@,
            TransStatusReason::TransactionTimedOutAtAcs => "14"@,
            TransStatusReason::LowConfidence => "15"@,
            TransStatusReason::MediumConfidence => "16"@,
            TransStatusReason::HighConfidence => "17"@,
            TransStatusReason::VeryHighConfidence => "18"@,
            TransStatusReason::ExceedsMaxChallengesPerTransaction => "19"@,
            TransStatusReason::NonPaymentNotSupported => "20"@,
            TransStatusReason::ThreeDsRequestorChallengeIndicator3NotAccepted => "21"@,
        }
    }

    /// The value whose wire code is `s`, if any.
    pub open spec fn spec_from_code(s: Seq<char>) -> Option<TransStatusReason> {
        if s == "01"@ {
            Some(TransStatusReason::CardAuthenticationFailed)
        } else if s == "02"@ {
            Some(TransStatusReason::UnknownDevice)
        } else if s == "03"@ {
            Some(TransStatusReason::UnsupportedDevice)
        } else if s == "04"@ {
            Some(TransStatusReason::ExceedsAuthenticationFrequencyLimit)
        } else if s == "05"@ {
            Some(TransStatusReason::ExpiredCard)
        } else if s == "06"@ {
            Some(TransStatusReason::InvalidCardNumber)
        } else if s == "07"@ {
            Some(TransStatusReason::InvalidTransaction)
        } else if s == "08"@ {
            Some(TransStatusReason::NoCardRecord)
        } else if s == "09"@ {
            Some(TransStatusReason::SecurityFailure)
        } else if s == "10"@ {
            Some(TransStatusReason::StolenCard)
        } else if s == "11"@ {
            Some(TransStatusReason::SuspectedFraud)
        } else if s == "12"@ {
            Some(TransStatusReason::TransactionNotPermittedToCardholder)
        } else if s == "13"@ {
            Some(TransStatusReason::CardholderNotEnrolledInService)
        } else if s == "14"@ {
            Some(TransStatusReason::TransactionTimedOutAtAcs)
        } else if s == "15"@ {
            Some(TransStatusReason::LowConfidence)
        } else if s == "16"@ {
            Some(TransStatusReason::MediumConfidence)
        } else if s == "17"@ {
            Some(TransStatusReason::HighConfidence)
        } else if s == "18"@ {
            Some(TransStatusReason::VeryHighConfidence)
        } else if s == "19"@ {
            Some(TransStatusReason::ExceedsMaxChallengesPerTransaction)
        } else if s == "20"@ {
            Some(TransStatusReason::NonPaymentNotSupported)
        } else if s == "21"@ {
            Some(TransStatusReason::ThreeDsRequestorChallengeIndicator3NotAccepted)
        } else {
            None
        }
    }

    /// The wire code of this value, as it stands in a message.
    pub fn code(self) -> (r: &'static str)
        ensures
            r@ == self.spec_code(),
    {
        match self {
            TransStatusReason::CardAuthenticationFailed => "01",
            TransStatusReason::UnknownDevice => "02",
            TransStatusReason::UnsupportedDevice => "03",
            TransStatusReason::ExceedsAuthenticationFrequencyLimit => "04",
            TransStatusReason::ExpiredCard => "05",
            TransStatusReason::InvalidCardNumber => "06",
            TransStatusReason::InvalidTransaction => "07",
            TransStatusReason::NoCardRecord => "08",
            TransStatusReason::SecurityFailure => "09",
            TransStatusReason::StolenCard => "10",
            TransStatusReason::SuspectedFraud => "11",
            TransStatusReason::TransactionNotPermittedToCardholder => "12",
            TransStatusReason::CardholderNotEnrolledInService => "13",
            TransStatusReason::TransactionTimedOutAtAcs => "14",
            TransStatusReason::LowConfidence => "15",
            TransStatusReason::MediumConfidence => "16",
            TransStatusReason::HighConfidence => "17",
            TransStatusReason::VeryHighConfidence => "18",
            TransStatusReason::ExceedsMaxChallengesPerTransaction => "19",
            TransStatusReason::NonPaymentNotSupported => "20",
            TransStatusReason::ThreeDsRequestorChallengeIndicator3NotAccepted => "21",
        }
    }

    /// Reads a wire code; `None` when `s` is no code of this type.
    pub fn from_code(s: &str) -> (r: Option<TransStatusReason>)
        ensures
            r == TransStatusReason::spec_from_code(s@),
    {
        if str_eq(s, "01") {
            Some(TransStatusReason::CardAuthenticationFailed)
        } else if str_eq(s, "02") {
            Some(TransStatusReason::UnknownDevice)
        } else if str_eq(s, "03") {
            Some(TransStatusReason::UnsupportedDevice)
        } else if str_eq(s, "04") {
            Some(TransStatusReason::ExceedsAuthenticationFrequencyLimit)
        } else if str_eq(s, "05") {
            Some(TransStatusReason::ExpiredCard)
        } else if str_eq(s, "06") {
            Some(TransStatusReason::InvalidCardNumber)
        } else if str_eq(s, "07") {
            Some(TransStatusReason::InvalidTransaction)
        } else if str_eq(s, "08") {
            Some(TransStatusReason::NoCardRecord)
        } else if str_eq(s, "09") {
            Some(TransStatusReason::SecurityFailure)
        } else if str_eq(s, "10") {
            Some(TransStatusReason::StolenCard)
        } else if str_eq(s, "11") {
            Some(TransStatusReason::SuspectedFraud)
        } else if str_eq(s, "12") {
            Some(TransStatusReason::TransactionNotPermittedToCardholder)
        } else if str_eq(s, "13") {
            Some(TransStatusReason::CardholderNotEnrolledInService)
        } else if str_eq(s, "14") {
            Some(TransStatusReason::TransactionTimedOutAtAcs)
        } else if str_eq(s, "15") {
            Some(TransStatusReason::LowConfidence)
        } else if str_eq(s, "16") {
            Some(TransStatusReason::MediumConfidence)
        } else if str_eq(s, "17") {
            Some(TransStatusReason::HighConfidence)
        } else if str_eq(s, "18") {
            Some(TransStatusReason::VeryHighConfidence)
        } else if str_eq(s, "19") {
            Some(TransStatusReason::ExceedsMaxChallengesPerTransaction)
        } else if str_eq(s, "20") {
            Some(TransStatusReason::NonPaymentNotSupported)
        } else if str_eq(s, "21") {
            Some(TransStatusReason::ThreeDsRequestorChallengeIndicator3NotAccepted)
        } else {
            None
        }
    }

    /// Reading back the wire code of a value gives the value, and a code that
    /// reads as a value is that value's code.
    pub proof fn lemma_code_roundtrip(self, s: Seq<char>)
        ensures
            TransStatusReason::spec_from_code(self.spec_code()) == Some(self),
            TransStatusReason::spec_from_code(s) == Some(self) ==> s == self.spec_code(),
    {
        reveal_strlit("01");
        reveal_strlit("02");
        reveal_strlit("03");
        reveal_strlit("04");
        reveal_strlit("05");
        reveal_strlit("06");
        reveal_strlit("07");
        reveal_strlit("08");
        reveal_strlit("09");
        reveal_strlit("10");
        reveal_strlit("11");
        reveal_strlit("12");
        reveal_strlit("13");
        reveal_strlit("14");
        reveal_strlit("15");
        reveal_strlit("16");
        reveal_strlit("17");
        reveal_strlit("18");
        reveal_strlit("19");
        reveal_strlit("20");
        reveal_strlit("21");
        match self {
            TransStatusReason::CardAuthenticationFailed => {},
            TransStatusReason::UnknownDevice => {
                assert("02"@[1] != "01"@[1]);
            },
            TransStatusReason::UnsupportedDevice => {
                assert("03"@[1] != "01"@[1]);
                assert("03"@[1] != "02"@[1]);
            },
            TransStatusReason::ExceedsAuthenticationFrequencyLimit => {
                assert("04"@[1] != "01"@[1]);
                assert("04"@[1] != "02"@[1]);
                assert("04"@[1] != "03"@[1]);
            },
            TransStatusReason::ExpiredCard => {
                assert("05"@[1] != "01"@[1]);
                assert("05"@[1] != "02"@[1]);
                assert("05"@[1] != "03"@[1]);
                assert("05"@[1] != "04"@[1]);
            },
            TransStatusReason::InvalidCardNumber => {
                assert("06"@[1] != "01"@[1]);
                assert("06"@[1] != "02"@[1]);
                assert("06"@[1] != "03"@[1]);
                assert("06"@[1] != "04"@[1]);
                assert("06"@[1] != "05"@[1]);
            },
            TransStatusReason::InvalidTransaction => {
                assert("07"@[1] != "01"@[1]);
                assert("07"@[1] != "02"@[1]);
                assert("07"@[1] != "03"@[1]);
                assert("07"@[1] != "04"@[1]);
                assert("07"@[1] != "05"@[1]);
                assert("07"@[1] != "06"@[1]);
            },
            TransStatusReason::NoCardRecord => {
                assert("08"@[1] != "01"@[1]);
                assert("08"@[1] != "02"@[1]);
                assert("08"@[1] != "03"@[1]);
                assert("08"@[1] != "04"@[1]);
                assert("08"@[1] != "05"@[1]);
                assert("08"@[1] != "06"@[1]);
                assert("08"@[1] != "07"@[1]);
            },
            TransStatusReason::SecurityFailure => {
                assert("09"@[1] != "01"@[1]);
                assert("09"@[1] != "02"@[1]);
                assert("09"@[1] != "03"@[1]);
                assert("09"@[1] != "04"@[1]);
                assert("09"@[1] != "05"@[1]);
                assert("09"@[1] != "06"@[1]);
                assert("09"@[1] != "07"@[1]);
                assert("09"@[1] != "08"@[1]);
            },
            TransStatusReason::StolenCard => {
                assert("10"@[0] != "01"@[0]);
                assert("10"@[0] != "02"@[0]);
                assert("10"@[0] != "03"@[0]);
                assert("10"@[0] != "04"@[0]);
                assert("10"@[0] != "05"@[0]);
                assert("10"@[0] != "06"@[0]);
                assert("10"@[0] != "07"@[0]);
                assert("10"@[0] != "08"@[0]);
                assert("10"@[0] != "09"@[0]);
            },
            TransStatusReason::SuspectedFraud => {
                assert("11"@[0] != "01"@[0]);
                assert("11"@[0] != "02"@[0]);
                assert("11"@[0] != "03"@[0]);
                assert("11"@[0] != "04"@[0]);
                assert("11"@[0] != "05"@[0]);
                assert("11"@[0] != "06"@[0]);
                assert("11"@[0] != "07"@[0]);
                assert("11"@[0] != "08"@[0]);
                assert("11"@[0] != "09"@[0]);
                assert("11"@[1] != "10"@[1]);
            },
            TransStatusReason::TransactionNotPermittedToCardholder => {
                assert("12"@[0] != "01"@[0]);
                assert("12"@[0] != "02"@[0]);
                assert("12"@[0] != "03"@[0]);
                assert("12"@[0] != "04"@[0]);
                assert("12"@[0] != "05"@[0]);
                assert("12"@[0] != "06"@[0]);
                assert("12"@[0] != "07"@[0]);
                assert("12"@[0] != "08"@[0]);
                assert("12"@[0] != "09"@[0]);
                assert("12"@[1] != "10"@[1]);
                assert("12"@[1] != "11"@[1]);
            },
            TransStatusReason::CardholderNotEnrolledInService => {
                assert("13"@[0] != "01"@[0]);
                assert("13"@[0] != "02"@[0]);
                assert("13"@[0] != "03"@[0]);
                assert("13"@[0] != "04"@[0]);
                assert("13"@[0] != "05"@[0]);
                assert("13"@[0] != "06"@[0]);
                assert("13"@[0] != "07"@[0]);
                assert("13"@[0] != "08"@[0]);
                assert("13"@[0] != "09"@[0]);
                assert("13"@[1] != "10"@[1]);
                assert("13"@[1] != "11"@[1]);
                assert("13"@[1] != "12"@[1]);
            },
            TransStatusReason::TransactionTimedOutAtAcs => {
                assert("14"@[0] != "01"@[0]);
                assert("14"@[0] != "02"@[0]);
                assert("14"@[0] != "03"@[0]);
                assert("14"@[0] != "04"@[0]);
                assert("14"@[0] != "05"@[0]);
                assert("14"@[0] != "06"@[0]);
                assert("14"@[0] != "07"@[0]);
                assert("14"@[0] != "08"@[0]);
                assert("14"@[0] != "09"@[0]);
                assert("14"@[1] != "10"@[1]);
                assert("14"@[1] != "11"@[1]);
                assert("14"@[1] != "12"@[1]);
                assert("14"@[1] != "13"@[1]);
            },
            TransStatusReason::LowConfidence => {
                assert("15"@[0] != "01"@[0]);
                assert("15"@[0] != "02"@[0]);
                assert("15"@[0] != "03"@[0]);
                assert("15"@[0] != "04"@[0]);
                assert("15"@[0] != "05"@[0]);
                assert("15"@[0] != "06"@[0]);
                assert("15"@[0] != "07"@[0]);
                assert("15"@[0] != "08"@[0]);
                assert("15"@[0] != "09"@[0]);
                assert("15"@[1] != "10"@[1]);
                assert("15"@[1] != "11"@[1]);
                assert("15"@[1] != "12"@[1]);
                assert("15"@[1] != "13"@[1]);
                assert("15"@[1] != "14"@[1]);
            },
            TransStatusReason::MediumConfidence => {
                assert("16"@[0] != "01"@[0]);
                assert("16"@[0] != "02"@[0]);
                assert("16"@[0] != "03"@[0]);
                assert("16"@[0] != "04"@[0]);
                assert("16"@[0] != "05"@[0]);
                assert("16"@[0] != "06"@[0]);
                assert("16"@[0] != "07"@[0]);
                assert("16"@[0] != "08"@[0]);
                assert("16"@[0] != "09"@[0]);
                assert("16"@[1] != "10"@[1]);
                assert("16"@[1] != "11"@[1]);
                assert("16"@[1] != "12"@[1]);
                assert("16"@[1] != "13"@[1]);
                assert("16"@[1] != "14"@[1]);
                assert("16"@[1] != "15"@[1]);
            },
            TransStatusReason::HighConfidence => {
                assert("17"@[0] != "01"@[0]);
                assert("17"@[0] != "02"@[0]);
                assert("17"@[0] != "03"@[0]);
                assert("17"@[0] != "04"@[0]);
                assert("17"@[0] != "05"@[0]);
                assert("17"@[0] != "06"@[0]);
                assert("17"@[0] != "07"@[0]);
                assert("17"@[0] != "08"@[0]);
                assert("17"@[0] != "09"@[0]);
                assert("17"@[1] != "10"@[1]);
                assert("17"@[1] != "11"@[1]);
                assert("17"@[1] != "12"@[1]);
                assert("17"@[1] != "13"@[1]);
                assert("17"@[1] != "14"@[1]);
                assert("17"@[1] != "15"@[1]);
                assert("17"@[1] != "16"@[1]);
            },
            TransStatusReason::VeryHighConfidence => {
                assert("18"@[0] != "01"@[0]);
                assert("18"@[0] != "02"@[0]);
                assert("18"@[0] != "03"@[0]);
                assert("18"@[0] != "04"@[0]);
                assert("18"@[0] != "05"@[0]);
                assert("18"@[0] != "06"@[0]);
                assert("18"@[0] != "07"@[0]);
                assert("18"@[0] != "08"@[0]);
                assert("18"@[0] != "09"@[0]);
                assert("18"@[1] != "10"@[1]);
                assert("18"@[1] != "11"@[1]);
                assert("18"@[1] != "12"@[1]);
                assert("18"@[1] != "13"@[1]);
                assert("18"@[1] != "14"@[1]);
                assert("18"@[1] != "15"@[1]);
                assert("18"@[1] != "16"@[1]);
                assert("18"@[1] != "17"@[1]);
            },
            TransStatusReason::ExceedsMaxChallengesPerTransaction => {
                assert("19"@[0] != "01"@[0]);
                assert("19"@[0] != "02"@[0]);
                assert("19"@[0] != "03"@[0]);
                assert("19"@[0] != "04"@[0]);
                assert("19"@[0] != "05"@[0]);
                assert("19"@[0] != "06"@[0]);
                assert("19"@[0] != "07"@[0]);
                assert("19"@[0] != "08"@[0]);
                assert("19"@[0] != "09"@[0]);
                assert("19"@[1] != "10"@[1]);
                assert("19"@[1] != "11"@[1]);
                assert("19"@[1] != "12"@[1]);
                assert("19"@[1] != "13"@[1]);
                assert("19"@[1] != "14"@[1]);
                assert("19"@[1] != "15"@[1]);
                assert("19"@[1] != "16"@[1]);
                assert("19"@[1] != "17"@[1]);
                assert("19"@[1] != "18"@[1]);
            },
            TransStatusReason::NonPaymentNotSupported => {
                assert("20"@[0] != "01"@[0]);
                assert("20"@[0] != "02"@[0]);
                assert("20"@[0] != "03"@[0]);
                assert("20"@[0] != "04"@[0]);
                assert("20"@[0] != "05"@[0]);
                assert("20"@[0] != "06"@[0]);
                assert("20"@[0] != "07"@[0]);
                assert("20"@[0] != "08"@[0]);
                assert("20"@[0] != "09"@[0]);
                assert("20"@[0] != "10"@[0]);
                assert("20"@[0] != "11"@[0]);
                assert("20"@[0] != "12"@[0]);
                assert("20"@[0] != "13"@[0]);
                assert("20"@[0] != "14"@[0]);
                assert("20"@[0] != "15"@[0]);
                assert("20"@[0] != "16"@[0]);
                assert("20"@[0] != "17"@[0]);
                assert("20"@[0] != "18"@[0]);
                assert("20"@[0] != "19"@[0]);
            },
            TransStatusReason::ThreeDsRequestorChallengeIndicator3NotAccepted => {
                assert("21"@[0] != "01"@[0]);
                assert("21"@[0] != "02"@[0]);
                assert("21"@[0] != "03"@[0]);
                assert("21"@[0] != "04"@[0]);
                assert("21"@[0] != "05"@[0]);
                assert("21"@[0] != "06"@[0]);
                assert("21"@[0] != "07"@[0]);
                assert("21"@[0] != "08"@[0]);
                assert("21"@[0] != "09"@[0]);
                assert("21"@[0] != "10"@[0]);
                assert("21"@[0] != "11"@[0]);
                assert("21"@[0] != "12"@[0]);
                assert("21"@[0] != "13"@[0]);
                assert("21"@[0] != "14"@[0]);
                assert("21"@[0] != "15"@[0]);
                assert("21"@[0] != "16"@[0]);
                assert("21"@[0] != "17"@[0]);
                assert("21"@[0] != "18"@[0]);
                assert("21"@[0] != "19"@[0]);
                assert("21"@[1] != "20"@[1]);
            },
        }
    }

    /// The wire code of each value, and the value that each code reads as.
    pub proof fn lemma_wire_codes()
        ensures
            TransStatusReason::CardAuthenticationFailed.spec_code() == "01"@,
            TransStatusReason::spec_from_code("01"@) == Some(TransStatusReason::CardAuthenticationFailed),
            TransStatusReason::UnknownDevice.spec_code() == "02"@,
            TransStatusReason::spec_from_code("02"@) == Some(TransStatusReason::UnknownDevice),
            TransStatusReason::UnsupportedDevice.spec_code() == "03"@,
            TransStatusReason::spec_from_code("03"@) == Some(TransStatusReason::UnsupportedDevice),
            TransStatusReason::ExceedsAuthenticationFrequencyLimit.spec_code() == "04"@,
            TransStatusReason::spec_from_code("04"@) == Some(TransStatusReason::ExceedsAuthenticationFrequencyLimit),
            TransStatusReason::ExpiredCard.spec_code() == "05"@,
            TransStatusReason::spec_from_code("05"@) == Some(TransStatusReason::ExpiredCard),
            TransStatusReason::InvalidCardNumber.spec_code() == "06"@,
            TransStatusReason::spec_from_code("06"@) == Some(TransStatusReason::InvalidCardNumber),
            TransStatusReason::InvalidTransaction.spec_code() == "07"@,
            TransStatusReason::spec_from_code("07"@) == Some(TransStatusReason::InvalidTransaction),
            TransStatusReason::NoCardRecord.spec_code() == "08"@,
            TransStatusReason::spec_from_code("08"@) == Some(TransStatusReason::NoCardRecord),
            TransStatusReason::SecurityFailure.spec_code() == "09"@,
            TransStatusReason::spec_from_code("09"@) == Some(TransStatusReason::SecurityFailure),
            TransStatusReason::StolenCard.spec_code() == "10"@,
            TransStatusReason::spec_from_code("10"@) == Some(TransStatusReason::StolenCard),
            TransStatusReason::SuspectedFraud.spec_code() == "11"@,
            TransStatusReason::spec_from_code("11"@) == Some(TransStatusReason::SuspectedFraud),
            TransStatusReason::TransactionNotPermittedToCardholder.spec_code() == "12"@,
            TransStatusReason::spec_from_code("12"@) == Some(TransStatusReason::TransactionNotPermittedToCardholder),
            TransStatusReason::CardholderNotEnrolledInService.spec_code() == "13"@,
            TransStatusReason::spec_from_code("13"@) == Some(TransStatusReason::CardholderNotEnrolledInService),
            TransStatusReason::TransactionTimedOutAtAcs.spec_code() == "14"@,
            TransStatusReason::spec_from_code("14"@) == Some(TransStatusReason::TransactionTimedOutAtAcs),
            TransStatusReason::LowConfidence.spec_code() == "15"@,
            TransStatusReason::spec_from_code("15"@) == Some(TransStatusReason::LowConfidence),
            TransStatusReason::MediumConfidence.spec_code() == "16"@,
            TransStatusReason::spec_from_code("16"@) == Some(TransStatusReason::MediumConfidence),
            TransStatusReason::HighConfidence.spec_code() == "17"@,
            TransStatusReason::spec_from_code("17"@) == Some(TransStatusReason::HighConfidence),
            TransStatusReason::VeryHighConfidence.spec_code() == "18"@,
            TransStatusReason::spec_from_code("18"@) == Some(TransStatusReason::VeryHighConfidence),
            TransStatusReason::ExceedsMaxChallengesPerTransaction.spec_code() == "19"@,
            TransStatusReason::spec_from_code("19"@) == Some(TransStatusReason::ExceedsMaxChallengesPerTransaction),
            TransStatusReason::NonPaymentNotSupported.spec_code() == "20"@,
            TransStatusReason::spec_from_code("20"@) == Some(TransStatusReason::NonPaymentNotSupported),
            TransStatusReason::ThreeDsRequestorChallengeIndicator3NotAccepted.spec_code() == "21"@,
            TransStatusReason::spec_from_code("21"@) == Some(TransStatusReason::ThreeDsRequestorChallengeIndicator3NotAccepted),
    {
        TransStatusReason::CardAuthenticationFailed.lemma_code_roundtrip("01"@);
        TransStatusReason::UnknownDevice.lemma_code_roundtrip("02"@);
        TransStatusReason::UnsupportedDevice.lemma_code_roundtrip("03"@);
        TransStatusReason::ExceedsAuthenticationFrequencyLimit.lemma_code_roundtrip("04"@);
        TransStatusReason::ExpiredCard.lemma_code_roundtrip("05"@);
        TransStatusReason::InvalidCardNumber.lemma_code_roundtrip("06"@);
        TransStatusReason::InvalidTransaction.lemma_code_roundtrip("07"@);
        TransStatusReason::NoCardRecord.lemma_code_roundtrip("08"@);
        TransStatusReason::SecurityFailure.lemma_code_roundtrip("09"@);
        TransStatusReason::StolenCard.lemma_code_roundtrip("10"@);
        TransStatusReason::SuspectedFraud.lemma_code_roundtrip("11"@);
        TransStatusReason::TransactionNotPermittedToCardholder.lemma_code_roundtrip("12"@);
        TransStatusReason::CardholderNotEnrolledInService.lemma_code_roundtrip("13"@);
        TransStatusReason::TransactionTimedOutAtAcs.lemma_code_roundtrip("14"@);
        TransStatusReason::LowConfidence.lemma_code_roundtrip("15"@);
        TransStatusReason::MediumConfidence.lemma_code_roundtrip("16"@);
        TransStatusReason::HighConfidence.lemma_code_roundtrip("17"@);
        TransStatusReason::VeryHighConfidence.lemma_code_roundtrip("18"@);
        TransStatusReason::ExceedsMaxChallengesPerTransaction.lemma_code_roundtrip("19"@);
        TransStatusReason::NonPaymentNotSupported.lemma_code_roundtrip("20"@);
        TransStatusReason::ThreeDsRequestorChallengeIndicator3NotAccepted.lemma_code_roundtrip("21"@);
    }

    /// The name of the value, as `Debug` writes it.
    pub open spec fn spec_debug_name(self) -> Seq<char> {
        match self {
            TransStatusReason::CardAuthenticationFailed => "CardAuthenticationFailed"@,
            TransStatusReason::UnknownDevice => "UnknownDevice"@,
            TransStatusReason::UnsupportedDevice => "UnsupportedDevice"@,
            TransStatusReason::ExceedsAuthenticationFrequencyLimit => "ExceedsAuthenticationFrequencyLimit"@,
            TransStatusReason::ExpiredCard => "ExpiredCard"@,
            TransStatusReason::InvalidCardNumber => "InvalidCardNumber"@,
            TransStatusReason::InvalidTransaction => "InvalidTransaction"@,
            TransStatusReason::NoCardRecord => "NoCardRecord"@,
            TransStatusReason::SecurityFailure => "SecurityFailure"@,
            TransStatusReason::StolenCard => "StolenCard"@,
            TransStatusReason::SuspectedFraud => "SuspectedFraud"@,
            TransStatusReason::TransactionNotPermittedToCardholder => "TransactionNotPermittedToCardholder"@,
            TransStatusReason::CardholderNotEnrolledInService => "CardholderNotEnrolledInService"@,
            TransStatusReason::TransactionTimedOutAtAcs => "TransactionTimedOutAtAcs"@,
            TransStatusReason::LowConfidence => "LowConfidence"@,
            TransStatusReason::MediumConfidence => "MediumConfidence"@,
            TransStatusReason::HighConfidence => "HighConfidence"@,
            TransStatusReason::VeryHighConfidence => "VeryHighConfidence"@,
            TransStatusReason::ExceedsMaxChallengesPerTransaction => "ExceedsMaxChallengesPerTransaction"@,
            TransStatusReason::NonPaymentNotSupported => "NonPaymentNotSupported"@,
            TransStatusReason::ThreeDsRequestorChallengeIndicator3NotAccepted => "ThreeDsRequestorChallengeIndicator3NotAccepted"@,
        }
    }

    /// The name that `Debug` writes for each value.
    pub proof fn lemma_debug_names()
        ensures
            TransStatusReason::CardAuthenticationFailed.spec_debug_name() == "CardAuthenticationFailed"@,
            TransStatusReason::UnknownDevice.spec_debug_name() == "UnknownDevice"@,
            TransStatusReason::UnsupportedDevice.spec_debug_name() == "UnsupportedDevice"@,
            TransStatusReason::ExceedsAuthenticationFrequencyLimit.spec_debug_name() == "ExceedsAuthenticationFrequencyLimit"@,
            TransStatusReason::ExpiredCard.spec_debug_name() == "ExpiredCard"@,
            TransStatusReason::InvalidCardNumber.spec_debug_name() == "InvalidCardNumber"@,
            TransStatusReason::InvalidTransaction.spec_debug_name() == "InvalidTransaction"@,
            TransStatusReason::NoCardRecord.spec_debug_name() == "NoCardRecord"@,
            TransStatusReason::SecurityFailure.spec_debug_name() == "SecurityFailure"@,
            TransStatusReason::StolenCard.spec_debug_name() == "StolenCard"@,
            TransStatusReason::SuspectedFraud.spec_debug_name() == "SuspectedFraud"@,
            TransStatusReason::TransactionNotPermittedToCardholder.spec_debug_name() == "TransactionNotPermittedToCardholder"@,
            TransStatusReason::CardholderNotEnrolledInService.spec_debug_name() == "CardholderNotEnrolledInService"@,
            TransStatusReason::TransactionTimedOutAtAcs.spec_debug_name() == "TransactionTimedOutAtAcs"@,
            TransStatusReason::LowConfidence.spec_debug_name() == "LowConfidence"@,
            TransStatusReason::MediumConfidence.spec_debug_name() == "MediumConfidence"@,
            TransStatusReason::HighConfidence.spec_debug_name() == "HighConfidence"@,
            TransStatusReason::VeryHighConfidence.spec_debug_name() == "VeryHighConfidence"@,
            TransStatusReason::ExceedsMaxChallengesPerTransaction.spec_debug_name() == "ExceedsMaxChallengesPerTransaction"@,
            TransStatusReason::NonPaymentNotSupported.spec_debug_name() == "NonPaymentNotSupported"@,
            TransStatusReason::ThreeDsRequestorChallengeIndicator3NotAccepted.spec_debug_name() == "ThreeDsRequestorChallengeIndicator3NotAccepted"@,
    {
    }

    /// The name of the value, as `Debug` writes it.
    pub fn debug_name(self) -> (r: &'static str)
        ensures
            r@ == self.spec_debug_name(),
    {
        match self {
            TransStatusReason::CardAuthenticationFailed => "CardAuthenticationFailed",
            TransStatusReason::UnknownDevice => "UnknownDevice",
            TransStatusReason::UnsupportedDevice => "UnsupportedDevice",
            TransStatusReason::ExceedsAuthenticationFrequencyLimit => "ExceedsAuthenticationFrequencyLimit",
            TransStatusReason::ExpiredCard => "ExpiredCard",
            TransStatusReason::InvalidCardNumber => "InvalidCardNumber",
            TransStatusReason::InvalidTransaction => "InvalidTransaction",
            TransStatusReason::NoCardRecord => "NoCardRecord",
            TransStatusReason::SecurityFailure => "SecurityFailure",
            TransStatusReason::StolenCard => "StolenCard",
            TransStatusReason::SuspectedFraud => "SuspectedFraud",
            TransStatusReason::TransactionNotPermittedToCardholder => "TransactionNotPermittedToCardholder",
            TransStatusReason::CardholderNotEnrolledInService => "CardholderNotEnrolledInService",
            TransStatusReason::TransactionTimedOutAtAcs => "TransactionTimedOutAtAcs",
            TransStatusReason::LowConfidence => "LowConfidence",
            TransStatusReason::MediumConfidence => "MediumConfidence",
            TransStatusReason::HighConfidence => "HighConfidence",
            TransStatusReason::VeryHighConfidence => "VeryHighConfidence",
            TransStatusReason::ExceedsMaxChallengesPerTransaction => "ExceedsMaxChallengesPerTransaction",
            TransStatusReason::NonPaymentNotSupported => "NonPaymentNotSupported",
            TransStatusReason::ThreeDsRequestorChallengeIndicator3NotAccepted => "ThreeDsRequestorChallengeIndicator3NotAccepted",
        }
    }
}

/// Electronic Commerce Indicator — liability shift outcome.
#[derive(Debug, Clone, Copy, PartialEq, Eq, Hash, Structural)]
pub enum Eci {
    /// Visa: fully authenticated
    VisaFullyAuthenticated,
    /// Visa: attempted
    VisaAttempted,
    /// Visa: not authenticated / no liability shift
    VisaNotAuthenticated,
    /// Mastercard: fully authenticated
    MastercardFullyAuthenticated,
    /// Mastercard: attempted
    MastercardAttempted,
    /// Mastercard: not authenticated
    MastercardNotAuthenticated,
}

impl Eci {
    /// The wire code of this value.
    pub open spec fn spec_code(self) -> Seq<char> {
        match self {
            Eci::VisaFullyAuthenticated => "05"@,
            Eci::VisaAttempted => "06"@,
            Eci::VisaNotAuthenticated => "07"@,
            Eci::MastercardFullyAuthenticated => "02"@,
            Eci::MastercardAttempted => "01"@,
            Eci::MastercardNotAuthenticated => "00"@,
        }
    }

    /// The value whose wire code is `s`, if any.
    pub open spec fn spec_from_code(s: Seq<char>) -> Option<Eci> {
        if s == "05"@ {
            Some(Eci::VisaFullyAuthenticated)
        } else if s == "06"@ {
            Some(Eci::VisaAttempted)
        } else if s == "07"@ {
            Some(Eci::VisaNotAuthenticated)
        } else if s == "02"@ {
            Some(Eci::MastercardFullyAuthenticated)
        } else if s == "01"@ {
            Some(Eci::MastercardAttempted)
        } else if s == "00"@ {
            Some(Eci::MastercardNotAuthenticated)
        } else {
            None
        }
    }

    /// The wire code of this value, as it stands in a message.
    pub fn code(self) -> (r: &'static str)
        ensures
            r@ == self.spec_code(),
    {
        match self {
            Eci::VisaFullyAuthenticated => "05",
            Eci::VisaAttempted => "06",
            Eci::VisaNotAuthenticated => "07",
            Eci::MastercardFullyAuthenticated => "02",
            Eci::MastercardAttempted => "01",
            Eci::MastercardNotAuthenticated => "00",
        }
    }

    /// Reads a wire code; `None` when `s` is no code of this type.
    pub fn from_code(s: &str) -> (r: Option<Eci>)
        ensures
            r == Eci::spec_from_code(s@),
    {
        if str_eq(s, "05") {
            Some(Eci::VisaFullyAuthenticated)
        } else if str_eq(s, "06") {
            Some(Eci::VisaAttempted)
        } else if str_eq(s, "07") {
            Some(Eci::VisaNotAuthenticated)
        } else if str_eq(s, "02") {
            Some(Eci::MastercardFullyAuthenticated)
        } else if str_eq(s, "01") {
            Some(Eci::MastercardAttempted)
        } else if str_eq(s, "00") {
            Some(Eci::MastercardNotAuthenticated)
        } else {
            None
        }
    }

    /// Reading back the wire code of a value gives the value, and a code that
    /// reads as a value is that value's code.
    pub proof fn lemma_code_roundtrip(self, s: Seq<char>)
        ensures
            Eci::spec_from_code(self.spec_code()) == Some(self),
            Eci::spec_from_code(s) == Some(self) ==> s == self.spec_code(),
    {
        reveal_strlit("05");
        reveal_strlit("06");
        reveal_strlit("07");
        reveal_strlit("02");
        reveal_strlit("01");
        reveal_strlit("00");
        match self {
            Eci::VisaFullyAuthenticated => {},
            Eci::VisaAttempted => {
                assert("06"@[1] != "05"@[1]);
            },
            Eci::VisaNotAuthenticated => {
                assert("07"@[1] != "05"@[1]);
                assert("07"@[1] != "06"@[1]);
            },
            Eci::MastercardFullyAuthenticated => {
                assert("02"@[1] != "05"@[1]);
                assert("02"@[1] != "06"@[1]);
                assert("02"@[1] != "07"@[1]);
            },
            Eci::MastercardAttempted => {
                assert("01"@[1] != "05"@[1]);
                assert("01"@[1] != "06"@[1]);
                assert("01"@[1] != "07"@[1]);
                assert("01"@[1] != "02"@[1]);
            },
            Eci::MastercardNotAuthenticated => {
                assert("00"@[1] != "05"@[1]);
                assert("00"@[1] != "06"@[1]);
                assert("00"@[1] != "07"@[1]);
                assert("00"@[1] != "02"@[1]);
                assert("00"@[1] != "01"@[1]);
            },
        }
    }

    /// The wire code of each value, and the value that each code reads as.
    pub proof fn lemma_wire_codes()
        ensures
            Eci::VisaFullyAuthenticated.spec_code() == "05"@,
            Eci::spec_from_code("05"@) == Some(Eci::VisaFullyAuthenticated),
            Eci::VisaAttempted.spec_code() == "06"@,
            Eci::spec_from_code("06"@) == Some(Eci::VisaAttempted),
            Eci::VisaNotAuthenticated.spec_code() == "07"@,
            Eci::spec_from_code("07"@) == Some(Eci::VisaNotAuthenticated),
            Eci::MastercardFullyAuthenticated.spec_code() == "02"@,
            Eci::spec_from_code("02"@) == Some(Eci::MastercardFullyAuthenticated),
            Eci::MastercardAttempted.spec_code() == "01"@,
            Eci::spec_from_code("01"@) == Some(Eci::MastercardAttempted),
            Eci::MastercardNotAuthenticated.spec_code() == "00"@,
            Eci::spec_from_code("00"@) == Some(Eci::MastercardNotAuthenticated),
    {
        Eci::VisaFullyAuthenticated.lemma_code_roundtrip("05"@);
        Eci::VisaAttempted.lemma_code_roundtrip("06"@);
        Eci::VisaNotAuthenticated.lemma_code_roundtrip("07"@);
        Eci::MastercardFullyAuthenticated.lemma_code_roundtrip("02"@);
        Eci::MastercardAttempted.lemma_code_roundtrip("01"@);
        Eci::MastercardNotAuthenticated.lemma_code_roundtrip("00"@);
    }

    /// The values that shift liability: fully authenticated or attempted, on either network.
    pub open spec fn spec_has_liability_shift(self) -> bool {
        !(self is VisaNotAuthenticated || self is MastercardNotAuthenticated)
    }

    /// Liability shifts for the fully authenticated and attempted values of
    /// either network (`05`, `06`, `02`, `01`), and not for `07` or `00`.
    pub proof fn lemma_liability_shift(self)
        ensures
            self.spec_has_liability_shift() <==> (self == Eci::VisaFullyAuthenticated || self
                == Eci::VisaAttempted || self == Eci::MastercardFullyAuthenticated || self
                == Eci::MastercardAttempted),
    {
    }

    /// True if this ECI value represents a successful liability shift.
    pub fn has_liability_shift(self) -> (r: bool)
        ensures
            r == self.spec_has_liability_shift(),
    {
        match self {
            Eci::VisaFullyAuthenticated
            | Eci::VisaAttempted
            | Eci::MastercardFullyAuthenticated
            | Eci::MastercardAttempted => true,
            _ => false,
        }
    }
}

/// Requestor's preference for whether a challenge should be performed.
#[derive(Debug, Clone, Copy, PartialEq, Eq, Hash, Structural)]
pub enum ChallengeIndicator {
    /// 01 — No preference
    NoPreference,
    /// 02 — No challenge requested
    NoChallengeRequested,
    /// 03 — Challenge requested (requestor preference)
    ChallengeRequested,
    /// 04 — Challenge requested (mandate)
    ChallengeRequestedMandate,
    /// 05 — No challenge (transactional risk analysis already performed)
    NoChallengeRiskAnalysisPerformed,
    /// 06 — No challenge (Data Share Only)
    NoChallengeDataShareOnly,
    /// 07 — No challenge (SCA already performed)
    NoChallengeSCAAlreadyPerformed,
    /// 08 — No challenge (whitelisted)
    NoChallengeWhitelisted,
    /// 09 — Challenge requested (whitelisting prompt requested)
    ChallengeRequestedWhitelistPrompt,
}

impl ChallengeIndicator {
    /// The wire code of this value.
    pub open spec fn spec_code(self) -> Seq<char> {
        match self {
            ChallengeIndicator::NoPreference => "01"@,
            ChallengeIndicator::NoChallengeRequested => "02"@,
            ChallengeIndicator::ChallengeRequested => "03"@,
            ChallengeIndicator::ChallengeRequestedMandate => "04"@,
            ChallengeIndicator::NoChallengeRiskAnalysisPerformed => "05"@,
            ChallengeIndicator::NoChallengeDataShareOnly => "06"@,
            ChallengeIndicator::NoChallengeSCAAlreadyPerformed => "07"@,
            ChallengeIndicator::NoChallengeWhitelisted => "08"@,
            ChallengeIndicator::ChallengeRequestedWhitelistPrompt => "09"@,
        }
    }

    /// The value whose wire code is `s`, if any.
    pub open spec fn spec_from_code(s: Seq<char>) -> Option<ChallengeIndicator> {
        if s == "01"@ {
            Some(ChallengeIndicator::NoPreference)
        } else if s == "02"@ {
            Some(ChallengeIndicator::NoChallengeRequested)
        } else if s == "03"@ {
            Some(ChallengeIndicator::ChallengeRequested)
        } else if s == "04"@ {
            Some(ChallengeIndicator::ChallengeRequestedMandate)
        } else if s == "05"@ {
            Some(ChallengeIndicator::NoChallengeRiskAnalysisPerformed)
        } else if s == "06"@ {
            Some(ChallengeIndicator::NoChallengeDataShareOnly)
        } else if s == "07"@ {
            Some(ChallengeIndicator::NoChallengeSCAAlreadyPerformed)
        } else if s == "08"@ {
            Some(ChallengeIndicator::NoChallengeWhitelisted)
        } else if s == "09"@ {
            Some(ChallengeIndicator::ChallengeRequestedWhitelistPrompt)
        } else {
            None
        }
    }

    /// The wire code of this value, as it stands in a message.
    pub fn code(self) -> (r: &'static str)
        ensures
            r@ == self.spec_code(),
    {
        match self {
            ChallengeIndicator::NoPreference => "01",
            ChallengeIndicator::NoChallengeRequested => "02",
            ChallengeIndicator::ChallengeRequested => "03",
            ChallengeIndicator::ChallengeRequestedMandate => "04",
            ChallengeIndicator::NoChallengeRiskAnalysisPerformed => "05",
            ChallengeIndicator::NoChallengeDataShareOnly => "06",
            ChallengeIndicator::NoChallengeSCAAlreadyPerformed => "07",
            ChallengeIndicator::NoChallengeWhitelisted => "08",
            ChallengeIndicator::ChallengeRequestedWhitelistPrompt => "09",
        }
    }

    /// Reads a wire code; `None` when `s` is no code of this type.
    pub fn from_code(s: &str) -> (r: Option<ChallengeIndicator>)
        ensures
            r == ChallengeIndicator::spec_from_code(s@),
    {
        if str_eq(s, "01") {
            Some(ChallengeIndicator::NoPreference)
        } else if str_eq(s, "02") {
            Some(ChallengeIndicator::NoChallengeRequested)
        } else if str_eq(s, "03") {
            Some(ChallengeIndicator::ChallengeRequested)
        } else if str_eq(s, "04") {
            Some(ChallengeIndicator::ChallengeRequestedMandate)
        } else if str_eq(s, "05") {
            Some(ChallengeIndicator::NoChallengeRiskAnalysisPerformed)
        } else if str_eq(s, "06") {
            Some(ChallengeIndicator::NoChallengeDataShareOnly)
        } else if str_eq(s, "07") {
            Some(ChallengeIndicator::NoChallengeSCAAlreadyPerformed)
        } else if str_eq(s, "08") {
            Some(ChallengeIndicator::NoChallengeWhitelisted)
        } else if str_eq(s, "09") {
            Some(ChallengeIndicator::ChallengeRequestedWhitelistPrompt)
        } else {
            None
        }
    }

    /// Reading back the wire code of a value gives the value, and a code that
    /// reads as a value is that value's code.
    pub proof fn lemma_code_roundtrip(self, s: Seq<char>)
        ensures
            ChallengeIndicator::spec_from_code(self.spec_code()) == Some(self),
            ChallengeIndicator::spec_from_code(s) == Some(self) ==> s == self.spec_code(),
    {
        reveal_strlit("01");
        reveal_strlit("02");
        reveal_strlit("03");
        reveal_strlit("04");
        reveal_strlit("05");
        reveal_strlit("06");
        reveal_strlit("07");
        reveal_strlit("08");
        reveal_strlit("09");
        match self {
            ChallengeIndicator::NoPreference => {},
            ChallengeIndicator::NoChallengeRequested => {
                assert("02"@[1] != "01"@[1]);
            },
            ChallengeIndicator::ChallengeRequested => {
                assert("03"@[1] != "01"@[1]);
                assert("03"@[1] != "02"@[1]);
            },
            ChallengeIndicator::ChallengeRequestedMandate => {
                assert("04"@[1] != "01"@[1]);
                assert("04"@[1] != "02"@[1]);
                assert("04"@[1] != "03"@[1]);
            },
            ChallengeIndicator::NoChallengeRiskAnalysisPerformed => {
                assert("05"@[1] != "01"@[1]);
                assert("05"@[1] != "02"@[1]);
                assert("05"@[1] != "03"@[1]);
                assert("05"@[1] != "04"@[1]);
            },
            ChallengeIndicator::NoChallengeDataShareOnly => {
                assert("06"@[1] != "01"@[1]);
                assert("06"@[1] != "02"@[1]);
                assert("06"@[1] != "03"@[1]);
                assert("06"@[1] != "04"@[1]);
                assert("06"@[1] != "05"@[1]);
            },
            ChallengeIndicator::NoChallengeSCAAlreadyPerformed => {
                assert("07"@[1] != "01"@[1]);
                assert("07"@[1] != "02"@[1]);
                assert("07"@[1] != "03"@[1]);
                assert("07"@[1] != "04"@[1]);
                assert("07"@[1] != "05"@[1]);
                assert("07"@[1] != "06"@[1]);
            },
            ChallengeIndicator::NoChallengeWhitelisted => {
                assert("08"@[1] != "01"@[1]);
                assert("08"@[1] != "02"@[1]);
                assert("08"@[1] != "03"@[1]);
                assert("08"@[1] != "04"@[1]);
                assert("08"@[1] != "05"@[1]);
                assert("08"@[1] != "06"@[1]);
                assert("08"@[1] != "07"@[1]);
            },
            ChallengeIndicator::ChallengeRequestedWhitelistPrompt => {
                assert("09"@[1] != "01"@[1]);
                assert("09"@[1] != "02"@[1]);
                assert("09"@[1] != "03"@[1]);
                assert("09"@[1] != "04"@[1]);
                assert("09"@[1] != "05"@[1]);
                assert("09"@[1] != "06"@[1]);
                assert("09"@[1] != "07"@[1]);
                assert("09"@[1] != "08"@[1]);
            },
        }
    }

    /// The wire code of each value, and the value that each code reads as.
    pub proof fn lemma_wire_codes()
        ensures
            ChallengeIndicator::NoPreference.spec_code() == "01"@,
            ChallengeIndicator::spec_from_code("01"@) == Some(ChallengeIndicator::NoPreference),
            ChallengeIndicator::NoChallengeRequested.spec_code() == "02"@,
            ChallengeIndicator::spec_from_code("02"@) == Some(ChallengeIndicator::NoChallengeRequested),
            ChallengeIndicator::ChallengeRequested.spec_code() == "03"@,
            ChallengeIndicator::spec_from_code("03"@) == Some(ChallengeIndicator::ChallengeRequested),
            ChallengeIndicator::ChallengeRequestedMandate.spec_code() == "04"@,
            ChallengeIndicator::spec_from_code("04"@) == Some(ChallengeIndicator::ChallengeRequestedMandate),
            ChallengeIndicator::NoChallengeRiskAnalysisPerformed.spec_code() == "05"@,
            ChallengeIndicator::spec_from_code("05"@) == Some(ChallengeIndicator::NoChallengeRiskAnalysisPerformed),
            ChallengeIndicator::NoChallengeDataShareOnly.spec_code() == "06"@,
            ChallengeIndicator::spec_from_code("06"@) == Some(ChallengeIndicator::NoChallengeDataShareOnly),
            ChallengeIndicator::NoChallengeSCAAlreadyPerformed.spec_code() == "07"@,
            ChallengeIndicator::spec_from_code("07"@) == Some(ChallengeIndicator::NoChallengeSCAAlreadyPerformed),
            ChallengeIndicator::NoChallengeWhitelisted.spec_code() == "08"@,
            ChallengeIndicator::spec_from_code("08"@) == Some(ChallengeIndicator::NoChallengeWhitelisted),
            ChallengeIndicator::ChallengeRequestedWhitelistPrompt.spec_code() == "09"@,
            ChallengeIndicator::spec_from_code("09"@) == Some(ChallengeIndicator::ChallengeRequestedWhitelistPrompt),
    {
        ChallengeIndicator::NoPreference.lemma_code_roundtrip("01"@);
        ChallengeIndicator::NoChallengeRequested.lemma_code_roundtrip("02"@);
        ChallengeIndicator::ChallengeRequested.lemma_code_roundtrip("03"@);
        ChallengeIndicator::ChallengeRequestedMandate.lemma_code_roundtrip("04"@);
        ChallengeIndicator::NoChallengeRiskAnalysisPerformed.lemma_code_roundtrip("05"@);
        ChallengeIndicator::NoChallengeDataShareOnly.lemma_code_roundtrip("06"@);
        ChallengeIndicator::NoChallengeSCAAlreadyPerformed.lemma_code_roundtrip("07"@);
        ChallengeIndicator::NoChallengeWhitelisted.lemma_code_roundtrip("08"@);
        ChallengeIndicator::ChallengeRequestedWhitelistPrompt.lemma_code_roundtrip("09"@);
    }
}

/// Dimensions of the challenge window presented in the browser.
#[derive(Debug, Clone, Copy, PartialEq, Eq, Hash, Structural)]
pub enum ChallengeWindowSize {
    W250x400,
    W390x400,
    W500x600,
    W600x400,
    FullScreen,
}

impl ChallengeWindowSize {
    /// The wire code of this value.
    pub open spec fn spec_code(self) -> Seq<char> {
        match self {
            ChallengeWindowSize::W250x400 => "01"@,
            ChallengeWindowSize::W390x400 => "02"@,
            ChallengeWindowSize::W500x600 => "03"@,
            ChallengeWindowSize::W600x400 => "04"@,
            ChallengeWindowSize::FullScreen => "05"@,
        }
    }

    /// The value whose wire code is `s`, if any.
    pub open spec fn spec_from_code(s: Seq<char>) -> Option<ChallengeWindowSize> {
        if s == "01"@ {
            Some(ChallengeWindowSize::W250x400)
        } else if s == "02"@ {
            Some(ChallengeWindowSize::W390x400)
        } else if s == "03"@ {
            Some(ChallengeWindowSize::W500x600)
        } else if s == "04"@ {
            Some(ChallengeWindowSize::W600x400)
        } else if s == "05"@ {
            Some(ChallengeWindowSize::FullScreen)
        } else {
            None
        }
    }

    /// The wire code of this value, as it stands in a message.
    pub fn code(self) -> (r: &'static str)
        ensures
            r@ == self.spec_code(),
    {
        match self {
            ChallengeWindowSize::W250x400 => "01",
            ChallengeWindowSize::W390x400 => "02",
            ChallengeWindowSize::W500x600 => "03",
            ChallengeWindowSize::W600x400 => "04",
            ChallengeWindowSize::FullScreen => "05",
        }
    }

    /// Reads a wire code; `None` when `s` is no code of this type.
    pub fn from_code(s: &str) -> (r: Option<ChallengeWindowSize>)
        ensures
            r == ChallengeWindowSize::spec_from_code(s@),
    {
        if str_eq(s, "01") {
            Some(ChallengeWindowSize::W250x400)
        } else if str_eq(s, "02") {
            Some(ChallengeWindowSize::W390x400)
        } else if str_eq(s, "03") {
            Some(ChallengeWindowSize::W500x600)
        } else if str_eq(s, "04") {
            Some(ChallengeWindowSize::W600x400)
        } else if str_eq(s, "05") {
            Some(ChallengeWindowSize::FullScreen)
        } else {
            None
        }
    }

    /// Reading back the wire code of a value gives the value, and a code that
    /// reads as a value is that value's code.
    pub proof fn lemma_code_roundtrip(self, s: Seq<char>)
        ensures
            ChallengeWindowSize::spec_from_code(self.spec_code()) == Some(self),
            ChallengeWindowSize::spec_from_code(s) == Some(self) ==> s == self.spec_code(),
    {
        reveal_strlit("01");
        reveal_strlit("02");
        reveal_strlit("03");
        reveal_strlit("04");
        reveal_strlit("05");
        match self {
            ChallengeWindowSize::W250x400 => {},
            ChallengeWindowSize::W390x400 => {
                assert("02"@[1] != "01"@[1]);
            },
            ChallengeWindowSize::W500x600 => {
                assert("03"@[1] != "01"@[1]);
                assert("03"@[1] != "02"@[1]);
            },
            ChallengeWindowSize::W600x400 => {
                assert("04"@[1] != "01"@[1]);
                assert("04"@[1] != "02"@[1]);
                assert("04"@[1] != "03"@[1]);
            },
            ChallengeWindowSize::FullScreen => {
                assert("05"@[1] != "01"@[1]);
                assert("05"@[1] != "02"@[1]);
                assert("05"@[1] != "03"@[1]);
                assert("05"@[1] != "04"@[1]);
            },
        }
    }

    /// The wire code of each value, and the value that each code reads as.
    pub proof fn lemma_wire_codes()
        ensures
            ChallengeWindowSize::W250x400.spec_code() == "01"@,
            ChallengeWindowSize::spec_from_code("01"@) == Some(ChallengeWindowSize::W250x400),
            ChallengeWindowSize::W390x400.spec_code() == "02"@,
            ChallengeWindowSize::spec_from_code("02"@) == Some(ChallengeWindowSize::W390x400),
            ChallengeWindowSize::W500x600.spec_code() == "03"@,
            ChallengeWindowSize::spec_from_code("03"@) == Some(ChallengeWindowSize::W500x600),
            ChallengeWindowSize::W600x400.spec_code() == "04"@,
            ChallengeWindowSize::spec_from_code("04"@) == Some(ChallengeWindowSize::W600x400),
            ChallengeWindowSize::FullScreen.spec_code() == "05"@,
            ChallengeWindowSize::spec_from_code("05"@) == Some(ChallengeWindowSize::FullScreen),
    {
        ChallengeWindowSize::W250x400.lemma_code_roundtrip("01"@);
        ChallengeWindowSize::W390x400.lemma_code_roundtrip("02"@);
        ChallengeWindowSize::W500x600.lemma_code_roundtrip("03"@);
        ChallengeWindowSize::W600x400.lemma_code_roundtrip("04"@);
        ChallengeWindowSize::FullScreen.lemma_code_roundtrip("05"@);
    }
}

/// How the 3DS Method was used to collect device fingerprint data.
#[derive(Debug, Clone, Copy, PartialEq, Eq, Hash, Structural)]
pub enum ThreeDsMethod {
    /// 00 — 3DS Method Not Available / Requestor chose not to use
    NotAvailableOrNotUsed,
    /// 01 — 3DS Method URL was present and successfully invoked
    Successful,
    /// 02 — 3DS Method URL was present but failed or timed out
    Failed,
}

impl ThreeDsMethod {
    /// The wire code of this value.
    pub open spec fn spec_code(self) -> Seq<char> {
        match self {
            ThreeDsMethod::NotAvailableOrNotUsed => "00"@,
            ThreeDsMethod::Successful => "01"@,
            ThreeDsMethod::Failed => "02"@,
        }
    }

    /// The value whose wire code is `s`, if any.
    pub open spec fn spec_from_code(s: Seq<char>) -> Option<ThreeDsMethod> {
        if s == "00"@ {
            Some(ThreeDsMethod::NotAvailableOrNotUsed)
        } else if s == "01"@ {
            Some(ThreeDsMethod::Successful)
        } else if s == "02"@ {
            Some(ThreeDsMethod::Failed)
        } else {
            None
        }
    }

    /// The wire code of this value, as it stands in a message.
    pub fn code(self) -> (r: &'static str)
        ensures
            r@ == self.spec_code(),
    {
        match self {
            ThreeDsMethod::NotAvailableOrNotUsed => "00",
            ThreeDsMethod::Successful => "01",
            ThreeDsMethod::Failed => "02",
        }
    }

    /// Reads a wire code; `None` when `s` is no code of this type.
    pub fn from_code(s: &str) -> (r: Option<ThreeDsMethod>)
        ensures
            r == ThreeDsMethod::spec_from_code(s@),
    {
        if str_eq(s, "00") {
            Some(ThreeDsMethod::NotAvailableOrNotUsed)
        } else if str_eq(s, "01") {
            Some(ThreeDsMethod::Successful)
        } else if str_eq(s, "02") {
            Some(ThreeDsMethod::Failed)
        } else {
            None
        }
    }

    /// Reading back the wire code of a value gives the value, and a code that
    /// reads as a value is that value's code.
    pub proof fn lemma_code_roundtrip(self, s: Seq<char>)
        ensures
            ThreeDsMethod::spec_from_code(self.spec_code()) == Some(self),
            ThreeDsMethod::spec_from_code(s) == Some(self) ==> s == self.spec_code(),
    {
        reveal_strlit("00");
        reveal_strlit("01");
        reveal_strlit("02");
        match self {
            ThreeDsMethod::NotAvailableOrNotUsed => {},
            ThreeDsMethod::Successful => {
                assert("01"@[1] != "00"@[1]);
            },
            ThreeDsMethod::Failed => {
                assert("02"@[1] != "00"@[1]);
                assert("02"@[1] != "01"@[1]);
            },
        }
    }

    /// The wire code of each value, and the value that each code reads as.
    pub proof fn lemma_wire_codes()
        ensures
            ThreeDsMethod::NotAvailableOrNotUsed.spec_code() == "00"@,
            ThreeDsMethod::spec_from_code("00"@) == Some(ThreeDsMethod::NotAvailableOrNotUsed),
            ThreeDsMethod::Successful.spec_code() == "01"@,
            ThreeDsMethod::spec_from_code("01"@) == Some(ThreeDsMethod::Successful),
            ThreeDsMethod::Failed.spec_code() == "02"@,
            ThreeDsMethod::spec_from_code("02"@) == Some(ThreeDsMethod::Failed),
    {
        ThreeDsMethod::NotAvailableOrNotUsed.lemma_code_roundtrip("00"@);
        ThreeDsMethod::Successful.lemma_code_roundtrip("01"@);
        ThreeDsMethod::Failed.lemma_code_roundtrip("02"@);
    }
}

/// How the cardholder authenticates to the 3DS Requestor.
#[derive(Debug, Clone, Copy, PartialEq, Eq, Hash, Structural)]
pub enum AuthenticationMethod {
    NoThreeDsRequestorAuthentication,
    LoginToRequestorAccount,
    FederatedId,
    IssuerCredentials,
    ThirdPartyAuthentication,
    FidoAuthenticator,
}

impl AuthenticationMethod {
    /// The wire code of this value.
    pub open spec fn spec_code(self) -> Seq<char> {
        match self {
            AuthenticationMethod::NoThreeDsRequestorAuthentication => "01"@,
            AuthenticationMethod::LoginToRequestorAccount => "02"@,
            AuthenticationMethod::FederatedId => "03"@,
            AuthenticationMethod::IssuerCredentials => "04"@,
            AuthenticationMethod::ThirdPartyAuthentication => "05"@,
            AuthenticationMethod::FidoAuthenticator => "06"@,
        }
    }

    /// The value whose wire code is `s`, if any.
    pub open spec fn spec_from_code(s: Seq<char>) -> Option<AuthenticationMethod> {
        if s == "01"@ {
            Some(AuthenticationMethod::NoThreeDsRequestorAuthentication)
        } else if s == "02"@ {
            Some(AuthenticationMethod::LoginToRequestorAccount)
        } else if s == "03"@ {
            Some(AuthenticationMethod::FederatedId)
        } else if s == "04"@ {
            Some(AuthenticationMethod::IssuerCredentials)
        } else if s == "05"@ {
            Some(AuthenticationMethod::ThirdPartyAuthentication)
        } else if s == "06"@ {
            Some(AuthenticationMethod::FidoAuthenticator)
        } else {
            None
        }
    }

    /// The wire code of this value, as it stands in a message.
    pub fn code(self) -> (r: &'static str)
        ensures
            r@ == self.spec_code(),
    {
        match self {
            AuthenticationMethod::NoThreeDsRequestorAuthentication => "01",
            AuthenticationMethod::LoginToRequestorAccount => "02",
            AuthenticationMethod::FederatedId => "03",
            AuthenticationMethod::IssuerCredentials => "04",
            AuthenticationMethod::ThirdPartyAuthentication => "05",
            AuthenticationMethod::FidoAuthenticator => "06",
        }
    }

    /// Reads a wire code; `None` when `s` is no code of this type.
    pub fn from_code(s: &str) -> (r: Option<AuthenticationMethod>)
        ensures
            r == AuthenticationMethod::spec_from_code(s@),
    {
        if str_eq(s, "01") {
            Some(AuthenticationMethod::NoThreeDsRequestorAuthentication)
        } else if str_eq(s, "02") {
            Some(AuthenticationMethod::LoginToRequestorAccount)
        } else if str_eq(s, "03") {
            Some(AuthenticationMethod::FederatedId)
        } else if str_eq(s, "04") {
            Some(AuthenticationMethod::IssuerCredentials)
        } else if str_eq(s, "05") {
            Some(AuthenticationMethod::ThirdPartyAuthentication)
        } else if str_eq(s, "06") {
            Some(AuthenticationMethod::FidoAuthenticator)
        } else {
            None
        }
    }

    /// Reading back the wire code of a value gives the value, and a code that
    /// reads as a value is that value's code.
    pub proof fn lemma_code_roundtrip(self, s: Seq<char>)
        ensures
            AuthenticationMethod::spec_from_code(self.spec_code()) == Some(self),
            AuthenticationMethod::spec_from_code(s) == Some(self) ==> s == self.spec_code(),
    {
        reveal_strlit("01");
        reveal_strlit("02");
        reveal_strlit("03");
        reveal_strlit("04");
        reveal_strlit("05");
        reveal_strlit("06");
        match self {
            AuthenticationMethod::NoThreeDsRequestorAuthentication => {},
            AuthenticationMethod::LoginToRequestorAccount => {
                assert("02"@[1] != "01"@[1]);
            },
            AuthenticationMethod::FederatedId => {
                assert("03"@[1] != "01"@[1]);
                assert("03"@[1] != "02"@[1]);
            },
            AuthenticationMethod::IssuerCredentials => {
                assert("04"@[1] != "01"@[1]);
                assert("04"@[1] != "02"@[1]);
                assert("04"@[1] != "03"@[1]);
            },
            AuthenticationMethod::ThirdPartyAuthentication => {
                assert("05"@[1] != "01"@[1]);
                assert("05"@[1] != "02"@[1]);
                assert("05"@[1] != "03"@[1]);
                assert("05"@[1] != "04"@[1]);
            },
            AuthenticationMethod::FidoAuthenticator => {
                assert("06"@[1] != "01"@[1]);
                assert("06"@[1] != "02"@[1]);
                assert("06"@[1] != "03"@[1]);
                assert("06"@[1] != "04"@[1]);
                assert("06"@[1] != "05"@[1]);
            },
        }
    }

    /// The wire code of each value, and the value that each code reads as.
    pub proof fn lemma_wire_codes()
        ensures
            AuthenticationMethod::NoThreeDsRequestorAuthentication.spec_code() == "01"@,
            AuthenticationMethod::spec_from_code("01"@) == Some(AuthenticationMethod::NoThreeDsRequestorAuthentication),
            AuthenticationMethod::LoginToRequestorAccount.spec_code() == "02"@,
            AuthenticationMethod::spec_from_code("02"@) == Some(AuthenticationMethod::LoginToRequestorAccount),
            AuthenticationMethod::FederatedId.spec_code() == "03"@,
            AuthenticationMethod::spec_from_code("03"@) == Some(AuthenticationMethod::FederatedId),
            AuthenticationMethod::IssuerCredentials.spec_code() == "04"@,
            AuthenticationMethod::spec_from_code("04"@) == Some(AuthenticationMethod::IssuerCredentials),
            AuthenticationMethod::ThirdPartyAuthentication.spec_code() == "05"@,
            AuthenticationMethod::spec_from_code("05"@) == Some(AuthenticationMethod::ThirdPartyAuthentication),
            AuthenticationMethod::FidoAuthenticator.spec_code() == "06"@,
            AuthenticationMethod::spec_from_code("06"@) == Some(AuthenticationMethod::FidoAuthenticator),
    {
        AuthenticationMethod::NoThreeDsRequestorAuthentication.lemma_code_roundtrip("01"@);
        AuthenticationMethod::LoginToRequestorAccount.lemma_code_roundtrip("02"@);
        AuthenticationMethod::FederatedId.lemma_code_roundtrip("03"@);
        AuthenticationMethod::IssuerCredentials.lemma_code_roundtrip("04"@);
        AuthenticationMethod::ThirdPartyAuthentication.lemma_code_roundtrip("05"@);
        AuthenticationMethod::FidoAuthenticator.lemma_code_roundtrip("06"@);
    }
}

/// Merchandise delivery timeframe.
#[derive(Debug, Clone, Copy, PartialEq, Eq, Hash, Structural)]
pub enum DeliveryTimeframe {
    ElectronicDelivery,
    SameDayShipping,
    OvernightShipping,
    TwoDayOrMoreShipping,
}

impl DeliveryTimeframe {
    /// The wire code of this value.
    pub open spec fn spec_code(self) -> Seq<char> {
        match self {
            DeliveryTimeframe::ElectronicDelivery => "01"@,
            DeliveryTimeframe::SameDayShipping => "02"@,
            DeliveryTimeframe::OvernightShipping => "03"@,
            DeliveryTimeframe::TwoDayOrMoreShipping => "04"@,
        }
    }

    /// The value whose wire code is `s`, if any.
    pub open spec fn spec_from_code(s: Seq<char>) -> Option<DeliveryTimeframe> {
        if s == "01"@ {
            Some(DeliveryTimeframe::ElectronicDelivery)
        } else if s == "02"@ {
            Some(DeliveryTimeframe::SameDayShipping)
        } else if s == "03"@ {
            Some(DeliveryTimeframe::OvernightShipping)
        } else if s == "04"@ {
            Some(DeliveryTimeframe::TwoDayOrMoreShipping)
        } else {
            None
        }
    }

    /// The wire code of this value, as it stands in a message.
    pub fn code(self) -> (r: &'static str)
        ensures
            r@ == self.spec_code(),
    {
        match self {
            DeliveryTimeframe::ElectronicDelivery => "01",
            DeliveryTimeframe::SameDayShipping => "02",
            DeliveryTimeframe::OvernightShipping => "03",
            DeliveryTimeframe::TwoDayOrMoreShipping => "04",
        }
    }

    /// Reads a wire code; `None` when `s` is no code of this type.
    pub fn from_code(s: &str) -> (r: Option<DeliveryTimeframe>)
        ensures
            r == DeliveryTimeframe::spec_from_code(s@),
    {
        if str_eq(s, "01") {
            Some(DeliveryTimeframe::ElectronicDelivery)
        } else if str_eq(s, "02") {
            Some(DeliveryTimeframe::SameDayShipping)
        } else if str_eq(s, "03") {
            Some(DeliveryTimeframe::OvernightShipping)
        } else if str_eq(s, "04") {
            Some(DeliveryTimeframe::TwoDayOrMoreShipping)
        } else {
            None
        }
    }

    /// Reading back the wire code of a value gives the value, and a code that
    /// reads as a value is that value's code.
    pub proof fn lemma_code_roundtrip(self, s: Seq<char>)
        ensures
            DeliveryTimeframe::spec_from_code(self.spec_code()) == Some(self),
            DeliveryTimeframe::spec_from_code(s) == Some(self) ==> s == self.spec_code(),
    {
        reveal_strlit("01");
        reveal_strlit("02");
        reveal_strlit("03");
        reveal_strlit("04");
        match self {
            DeliveryTimeframe::ElectronicDelivery => {},
            DeliveryTimeframe::SameDayShipping => {
                assert("02"@[1] != "01"@[1]);
            },
            DeliveryTimeframe::OvernightShipping => {
                assert("03"@[1] != "01"@[1]);
                assert("03"@[1] != "02"@[1]);
            },
            DeliveryTimeframe::TwoDayOrMoreShipping => {
                assert("04"@[1] != "01"@[1]);
                assert("04"@[1] != "02"@[1]);
                assert("04"@[1] != "03"@[1]);
            },
        }
    }

    /// The wire code of each value, and the value that each code reads as.
    pub proof fn lemma_wire_codes()
        ensures
            DeliveryTimeframe::ElectronicDelivery.spec_code() == "01"@,
            DeliveryTimeframe::spec_from_code("01"@) == Some(DeliveryTimeframe::ElectronicDelivery),
            DeliveryTimeframe::SameDayShipping.spec_code() == "02"@,
            DeliveryTimeframe::spec_from_code("02"@) == Some(DeliveryTimeframe::SameDayShipping),
            DeliveryTimeframe::OvernightShipping.spec_code() == "03"@,
            DeliveryTimeframe::spec_from_code("03"@) == Some(DeliveryTimeframe::OvernightShipping),
            DeliveryTimeframe::TwoDayOrMoreShipping.spec_code() == "04"@,
            DeliveryTimeframe::spec_from_code("04"@) == Some(DeliveryTimeframe::TwoDayOrMoreShipping),
    {
        DeliveryTimeframe::ElectronicDelivery.lemma_code_roundtrip("01"@);
        DeliveryTimeframe::SameDayShipping.lemma_code_roundtrip("02"@);
        DeliveryTimeframe::OvernightShipping.lemma_code_roundtrip("03"@);
        DeliveryTimeframe::TwoDayOrMoreShipping.lemma_code_roundtrip("04"@);
    }
}

/// Shipping method chosen for the transaction.
#[derive(Debug, Clone, Copy, PartialEq, Eq, Hash, Structural)]
pub enum ShipIndicator {
    ShipToCardholdersBillingAddress,
    ShipToAnotherVerifiedAddress,
    ShipToDifferentAddress,
    ShipToStore,
    DigitalGoods,
    NotShipped,
    Other,
}

impl ShipIndicator {
    /// The wire code of this value.
    pub open spec fn spec_code(self) -> Seq<char> {
        match self {
            ShipIndicator::ShipToCardholdersBillingAddress => "01"@,
            ShipIndicator::ShipToAnotherVerifiedAddress => "02"@,
            ShipIndicator::ShipToDifferentAddress => "03"@,
            ShipIndicator::ShipToStore => "04"@,
            ShipIndicator::DigitalGoods => "05"@,
            ShipIndicator::NotShipped => "06"@,
            ShipIndicator::Other => "07"@,
        }
    }

    /// The value whose wire code is `s`, if any.
    pub open spec fn spec_from_code(s: Seq<char>) -> Option<ShipIndicator> {
        if s == "01"@ {
            Some(ShipIndicator::ShipToCardholdersBillingAddress)
        } else if s == "02"@ {
            Some(ShipIndicator::ShipToAnotherVerifiedAddress)
        } else if s == "03"@ {
            Some(ShipIndicator::ShipToDifferentAddress)
        } else if s == "04"@ {
            Some(ShipIndicator::ShipToStore)
        } else if s == "05"@ {
            Some(ShipIndicator::DigitalGoods)
        } else if s == "06"@ {
            Some(ShipIndicator::NotShipped)
        } else if s == "07"@ {
            Some(ShipIndicator::Other)
        } else {
            None
        }
    }

    /// The wire code of this value, as it stands in a message.
    pub fn code(self) -> (r: &'static str)
        ensures
            r@ == self.spec_code(),
    {
        match self {
            ShipIndicator::ShipToCardholdersBillingAddress => "01",
            ShipIndicator::ShipToAnotherVerifiedAddress => "02",
            ShipIndicator::ShipToDifferentAddress => "03",
            ShipIndicator::ShipToStore => "04",
            ShipIndicator::DigitalGoods => "05",
            ShipIndicator::NotShipped => "06",
            ShipIndicator::Other => "07",
        }
    }

    /// Reads a wire code; `None` when `s` is no code of this type.
    pub fn from_code(s: &str) -> (r: Option<ShipIndicator>)
        ensures
            r == ShipIndicator::spec_from_code(s@),
    {
        if str_eq(s, "01") {
            Some(ShipIndicator::ShipToCardholdersBillingAddress)
        } else if str_eq(s, "02") {
            Some(ShipIndicator::ShipToAnotherVerifiedAddress)
        } else if str_eq(s, "03") {
            Some(ShipIndicator::ShipToDifferentAddress)
        } else if str_eq(s, "04") {
            Some(ShipIndicator::ShipToStore)
        } else if str_eq(s, "05") {
            Some(ShipIndicator::DigitalGoods)
        } else if str_eq(s, "06") {
            Some(ShipIndicator::NotShipped)
        } else if str_eq(s, "07") {
            Some(ShipIndicator::Other)
        } else {
            None
        }
    }

    /// Reading back the wire code of a value gives the value, and a code that
    /// reads as a value is that value's code.
    pub proof fn lemma_code_roundtrip(self, s: Seq<char>)
        ensures
            ShipIndicator::spec_from_code(self.spec_code()) == Some(self),
            ShipIndicator::spec_from_code(s) == Some(self) ==> s == self.spec_code(),
    {
        reveal_strlit("01");
        reveal_strlit("02");
        reveal_strlit("03");
        reveal_strlit("04");
        reveal_strlit("05");
        reveal_strlit("06");
        reveal_strlit("07");
        match self {
            ShipIndicator::ShipToCardholdersBillingAddress => {},
            ShipIndicator::ShipToAnotherVerifiedAddress => {
                assert("02"@[1] != "01"@[1]);
            },
            ShipIndicator::ShipToDifferentAddress => {
                assert("03"@[1] != "01"@[1]);
                assert("03"@[1] != "02"@[1]);
            },
            ShipIndicator::ShipToStore => {
                assert("04"@[1] != "01"@[1]);
                assert("04"@[1] != "02"@[1]);
                assert("04"@[1] != "03"@[1]);
            },
            ShipIndicator::DigitalGoods => {
                assert("05"@[1] != "01"@[1]);
                assert("05"@[1] != "02"@[1]);
                assert("05"@[1] != "03"@[1]);
                assert("05"@[1] != "04"@[1]);
            },
            ShipIndicator::NotShipped => {
                assert("06"@[1] != "01"@[1]);
                assert("06"@[1] != "02"@[1]);
                assert("06"@[1] != "03"@[1]);
                assert("06"@[1] != "04"@[1]);
                assert("06"@[1] != "05"@[1]);
            },
            ShipIndicator::Other => {
                assert("07"@[1] != "01"@[1]);
                assert("07"@[1] != "02"@[1]);
                assert("07"@[1] != "03"@[1]);
                assert("07"@[1] != "04"@[1]);
                assert("07"@[1] != "05"@[1]);
                assert("07"@[1] != "06"@[1]);
            },
        }
    }

    /// The wire code of each value, and the value that each code reads as.
    pub proof fn lemma_wire_codes()
        ensures
            ShipIndicator::ShipToCardholdersBillingAddress.spec_code() == "01"@,
            ShipIndicator::spec_from_code("01"@) == Some(ShipIndicator::ShipToCardholdersBillingAddress),
            ShipIndicator::ShipToAnotherVerifiedAddress.spec_code() == "02"@,
            ShipIndicator::spec_from_code("02"@) == Some(ShipIndicator::ShipToAnotherVerifiedAddress),
            ShipIndicator::ShipToDifferentAddress.spec_code() == "03"@,
            ShipIndicator::spec_from_code("03"@) == Some(ShipIndicator::ShipToDifferentAddress),
            ShipIndicator::ShipToStore.spec_code() == "04"@,
            ShipIndicator::spec_from_code("04"@) == Some(ShipIndicator::ShipToStore),
            ShipIndicator::DigitalGoods.spec_code() == "05"@,
            ShipIndicator::spec_from_code("05"@) == Some(ShipIndicator::DigitalGoods),
            ShipIndicator::NotShipped.spec_code() == "06"@,
            ShipIndicator::spec_from_code("06"@) == Some(ShipIndicator::NotShipped),
            ShipIndicator::Other.spec_code() == "07"@,
            ShipIndicator::spec_from_code("07"@) == Some(ShipIndicator::Other),
    {
        ShipIndicator::ShipToCardholdersBillingAddress.lemma_code_roundtrip("01"@);
        ShipIndicator::ShipToAnotherVerifiedAddress.lemma_code_roundtrip("02"@);
        ShipIndicator::ShipToDifferentAddress.lemma_code_roundtrip("03"@);
        ShipIndicator::ShipToStore.lemma_code_roundtrip("04"@);
        ShipIndicator::DigitalGoods.lemma_code_roundtrip("05"@);
        ShipIndicator::NotShipped.lemma_code_roundtrip("06"@);
        ShipIndicator::Other.lemma_code_roundtrip("07"@);
    }
}

/// Whether the cardholder is reordering previously purchased merchandise.
#[derive(Debug, Clone, Copy, PartialEq, Eq, Hash, Structural)]
pub enum ReorderItemsIndicator {
    FirstTimeOrdered,
    Reordered,
}

impl ReorderItemsIndicator {
    /// The wire code of this value.
    pub open spec fn spec_code(self) -> Seq<char> {
        match self {
            ReorderItemsIndicator::FirstTimeOrdered => "01"@,
            ReorderItemsIndicator::Reordered => "02"@,
        }
    }

    /// The value whose wire code is `s`, if any.
    pub open spec fn spec_from_code(s: Seq<char>) -> Option<ReorderItemsIndicator> {
        if s == "01"@ {
            Some(ReorderItemsIndicator::FirstTimeOrdered)
        } else if s == "02"@ {
            Some(ReorderItemsIndicator::Reordered)
        } else {
            None
        }
    }

    /// The wire code of this value, as it stands in a message.
    pub fn code(self) -> (r: &'static str)
        ensures
            r@ == self.spec_code(),
    {
        match self {
            ReorderItemsIndicator::FirstTimeOrdered => "01",
            ReorderItemsIndicator::Reordered => "02",
        }
    }

    /// Reads a wire code; `None` when `s` is no code of this type.
    pub fn from_code(s: &str) -> (r: Option<ReorderItemsIndicator>)
        ensures
            r == ReorderItemsIndicator::spec_from_code(s@),
    {
        if str_eq(s, "01") {
            Some(ReorderItemsIndicator::FirstTimeOrdered)
        } else if str_eq(s, "02") {
            Some(ReorderItemsIndicator::Reordered)
        } else {
            None
        }
    }

    /// Reading back the wire code of a value gives the value, and a code that
    /// reads as a value is that value's code.
    pub proof fn lemma_code_roundtrip(self, s: Seq<char>)
        ensures
            ReorderItemsIndicator::spec_from_code(self.spec_code()) == Some(self),
            ReorderItemsIndicator::spec_from_code(s) == Some(self) ==> s == self.spec_code(),
    {
        reveal_strlit("01");
        reveal_strlit("02");
        match self {
            ReorderItemsIndicator::FirstTimeOrdered => {},
            ReorderItemsIndicator::Reordered => {
                assert("02"@[1] != "01"@[1]);
            },
        }
    }

    /// The wire code of each value, and the value that each code reads as.
    pub proof fn lemma_wire_codes()
        ensures
            ReorderItemsIndicator::FirstTimeOrdered.spec_code() == "01"@,
            ReorderItemsIndicator::spec_from_code("01"@) == Some(ReorderItemsIndicator::FirstTimeOrdered),
            ReorderItemsIndicator::Reordered.spec_code() == "02"@,
            ReorderItemsIndicator::spec_from_code("02"@) == Some(ReorderItemsIndicator::Reordered),
    {
        ReorderItemsIndicator::FirstTimeOrdered.lemma_code_roundtrip("01"@);
        ReorderItemsIndicator::Reordered.lemma_code_roundtrip("02"@);
    }
}

/// Whether the cardholder is placing an order for merchandise with a future availability.
#[derive(Debug, Clone, Copy, PartialEq, Eq, Hash, Structural)]
pub enum PreOrderPurchaseIndicator {
    MerchandiseAvailable,
    FutureAvailability,
}

impl PreOrderPurchaseIndicator {
    /// The wire code of this value.
    pub open spec fn spec_code(self) -> Seq<char> {
        match self {
            PreOrderPurchaseIndicator::MerchandiseAvailable => "01"@,
            PreOrderPurchaseIndicator::FutureAvailability => "02"@,
        }
    }

    /// The value whose wire code is `s`, if any.
    pub open spec fn spec_from_code(s: Seq<char>) -> Option<PreOrderPurchaseIndicator> {
        if s == "01"@ {
            Some(PreOrderPurchaseIndicator::MerchandiseAvailable)
        } else if s == "02"@ {
            Some(PreOrderPurchaseIndicator::FutureAvailability)
        } else {
            None
        }
    }

    /// The wire code of this value, as it stands in a message.
    pub fn code(self) -> (r: &'static str)
        ensures
            r@ == self.spec_code(),
    {
        match self {
            PreOrderPurchaseIndicator::MerchandiseAvailable => "01",
            PreOrderPurchaseIndicator::FutureAvailability => "02",
        }
    }

    /// Reads a wire code; `None` when `s` is no code of this type.
    pub fn from_code(s: &str) -> (r: Option<PreOrderPurchaseIndicator>)
        ensures
            r == PreOrderPurchaseIndicator::spec_from_code(s@),
    {
        if str_eq(s, "01") {
            Some(PreOrderPurchaseIndicator::MerchandiseAvailable)
        } else if str_eq(s, "02") {
            Some(PreOrderPurchaseIndicator::FutureAvailability)
        } else {
            None
        }
    }

    /// Reading back the wire code of a value gives the value, and a code that
    /// reads as a value is that value's code.
    pub proof fn lemma_code_roundtrip(self, s: Seq<char>)
        ensures
            PreOrderPurchaseIndicator::spec_from_code(self.spec_code()) == Some(self),
            PreOrderPurchaseIndicator::spec_from_code(s) == Some(self) ==> s == self.spec_code(),
    {
        reveal_strlit("01");
        reveal_strlit("02");
        match self {
            PreOrderPurchaseIndicator::MerchandiseAvailable => {},
            PreOrderPurchaseIndicator::FutureAvailability => {
                assert("02"@[1] != "01"@[1]);
            },
        }
    }

    /// The wire code of each value, and the value that each code reads as.
    pub proof fn lemma_wire_codes()
        ensures
            PreOrderPurchaseIndicator::MerchandiseAvailable.spec_code() == "01"@,
            PreOrderPurchaseIndicator::spec_from_code("01"@) == Some(PreOrderPurchaseIndicator::MerchandiseAvailable),
            PreOrderPurchaseIndicator::FutureAvailability.spec_code() == "02"@,
            PreOrderPurchaseIndicator::spec_from_code("02"@) == Some(PreOrderPurchaseIndicator::FutureAvailability),
    {
        PreOrderPurchaseIndicator::MerchandiseAvailable.lemma_code_roundtrip("01"@);
        PreOrderPurchaseIndicator::FutureAvailability.lemma_code_roundtrip("02"@);
    }
}

/// Whether the 3DS Requestor has seen suspicious activity on the account.
#[derive(Debug, Clone, Copy, PartialEq, Eq, Hash, Structural)]
pub enum SuspiciousAccActivity {
    NoSuspiciousActivity,
    SuspiciousActivityObserved,
}

impl SuspiciousAccActivity {
    /// The wire code of this value.
    pub open spec fn spec_code(self) -> Seq<char> {
        match self {
            SuspiciousAccActivity::NoSuspiciousActivity => "01"@,
            SuspiciousAccActivity::SuspiciousActivityObserved => "02"@,
        }
    }

    /// The value whose wire code is `s`, if any.
    pub open spec fn spec_from_code(s: Seq<char>) -> Option<SuspiciousAccActivity> {
        if s == "01"@ {
            Some(SuspiciousAccActivity::NoSuspiciousActivity)
        } else if s == "02"@ {
            Some(SuspiciousAccActivity::SuspiciousActivityObserved)
        } else {
            None
        }
    }

    /// The wire code of this value, as it stands in a message.
    pub fn code(self) -> (r: &'static str)
        ensures
            r@ == self.spec_code(),
    {
        match self {
            SuspiciousAccActivity::NoSuspiciousActivity => "01",
            SuspiciousAccActivity::SuspiciousActivityObserved => "02",
        }
    }

    /// Reads a wire code; `None` when `s` is no code of this type.
    pub fn from_code(s: &str) -> (r: Option<SuspiciousAccActivity>)
        ensures
            r == SuspiciousAccActivity::spec_from_code(s@),
    {
        if str_eq(s, "01") {
            Some(SuspiciousAccActivity::NoSuspiciousActivity)
        } else if str_eq(s, "02") {
            Some(SuspiciousAccActivity::SuspiciousActivityObserved)
        } else {
            None
        }
    }

    /// Reading back the wire code of a value gives the value, and a code that
    /// reads as a value is that value's code.
    pub proof fn lemma_code_roundtrip(self, s: Seq<char>)
        ensures
            SuspiciousAccActivity::spec_from_code(self.spec_code()) == Some(self),
            SuspiciousAccActivity::spec_from_code(s) == Some(self) ==> s == self.spec_code(),
    {
        reveal_strlit("01");
        reveal_strlit("02");
        match self {
            SuspiciousAccActivity::NoSuspiciousActivity => {},
            SuspiciousAccActivity::SuspiciousActivityObserved => {
                assert("02"@[1] != "01"@[1]);
            },
        }
    }

    /// The wire code of each value, and the value that each code reads as.
    pub proof fn lemma_wire_codes()
        ensures
            SuspiciousAccActivity::NoSuspiciousActivity.spec_code() == "01"@,
            SuspiciousAccActivity::spec_from_code("01"@) == Some(SuspiciousAccActivity::NoSuspiciousActivity),
            SuspiciousAccActivity::SuspiciousActivityObserved.spec_code() == "02"@,
            SuspiciousAccActivity::spec_from_code("02"@) == Some(SuspiciousAccActivity::SuspiciousActivityObserved),
    {
        SuspiciousAccActivity::NoSuspiciousActivity.lemma_code_roundtrip("01"@);
        SuspiciousAccActivity::SuspiciousActivityObserved.lemma_code_roundtrip("02"@);
    }
}

/// Action to take on a card range returned in a PRes.
#[derive(Debug, Clone, Copy, PartialEq, Eq, Hash, Structural)]
pub enum ActionIndicator {
    /// A — Add the card range
    Add,
    /// M — Modify the card range
    Modify,
    /// D — Delete the card range
    Delete,
}

impl ActionIndicator {
    /// The wire code of this value.
    pub open spec fn spec_code(self) -> Seq<char> {
        match self {
            ActionIndicator::Add => "A"@,
            ActionIndicator::Modify => "M"@,
            ActionIndicator::Delete => "D"@,
        }
    }

    /// The value whose wire code is `s`, if any.
    pub open spec fn spec_from_code(s: Seq<char>) -> Option<ActionIndicator> {
        if s == "A"@ {
            Some(ActionIndicator::Add)
        } else if s == "M"@ {
            Some(ActionIndicator::Modify)
        } else if s == "D"@ {
            Some(ActionIndicator::Delete)
        } else {
            None
        }
    }

    /// The wire code of this value, as it stands in a message.
    pub fn code(self) -> (r: &'static str)
        ensures
            r@ == self.spec_code(),
    {
        match self {
            ActionIndicator::Add => "A",
            ActionIndicator::Modify => "M",
            ActionIndicator::Delete => "D",
        }
    }

    /// Reads a wire code; `None` when `s` is no code of this type.
    pub fn from_code(s: &str) -> (r: Option<ActionIndicator>)
        ensures
            r == ActionIndicator::spec_from_code(s@),
    {
        if str_eq(s, "A") {
            Some(ActionIndicator::Add)
        } else if str_eq(s, "M") {
            Some(ActionIndicator::Modify)
        } else if str_eq(s, "D") {
            Some(ActionIndicator::Delete)
        } else {
            None
        }
    }

    /// Reading back the wire code of a value gives the value, and a code that
    /// reads as a value is that value's code.
    pub proof fn lemma_code_roundtrip(self, s: Seq<char>)
        ensures
            ActionIndicator::spec_from_code(self.spec_code()) == Some(self),
            ActionIndicator::spec_from_code(s) == Some(self) ==> s == self.spec_code(),
    {
        reveal_strlit("A");
        reveal_strlit("M");
        reveal_strlit("D");
        match self {
            ActionIndicator::Add => {},
            ActionIndicator::Modify => {
                assert("M"@[0] != "A"@[0]);
            },
            ActionIndicator::Delete => {
                assert("D"@[0] != "A"@[0]);
                assert("D"@[0] != "M"@[0]);
            },
        }
    }

    /// The wire code of each value, and the value that each code reads as.
    pub proof fn lemma_wire_codes()
        ensures
            ActionIndicator::Add.spec_code() == "A"@,
            ActionIndicator::spec_from_code("A"@) == Some(ActionIndicator::Add),
            ActionIndicator::Modify.spec_code() == "M"@,
            ActionIndicator::spec_from_code("M"@) == Some(ActionIndicator::Modify),
            ActionIndicator::Delete.spec_code() == "D"@,
            ActionIndicator::spec_from_code("D"@) == Some(ActionIndicator::Delete),
    {
        ActionIndicator::Add.lemma_code_roundtrip("A"@);
        ActionIndicator::Modify.lemma_code_roundtrip("M"@);
        ActionIndicator::Delete.lemma_code_roundtrip("D"@);
    }
}

/// Status of the RReq as acknowledged in an RRes.
#[derive(Debug, Clone, Copy, PartialEq, Eq, Hash, Structural)]
pub enum ResultsStatus {
    /// 01 — RReq received for further processing
    Received,
    /// 02 — Challenge/Decoupled result out of sync with the 3DS Server
    OutOfSync,
}

impl ResultsStatus {
    /// The wire code of this value.
    pub open spec fn spec_code(self) -> Seq<char> {
        match self {
            ResultsStatus::Received => "01"@,
            ResultsStatus::OutOfSync => "02"@,
        }
    }

    /// The value whose wire code is `s`, if any.
    pub open spec fn spec_from_code(s: Seq<char>) -> Option<ResultsStatus> {
        if s == "01"@ {
            Some(ResultsStatus::Received)
        } else if s == "02"@ {
            Some(ResultsStatus::OutOfSync)
        } else {
            None
        }
    }

    /// The wire code of this value, as it stands in a message.
    pub fn code(self) -> (r: &'static str)
        ensures
            r@ == self.spec_code(),
    {
        match self {
            ResultsStatus::Received => "01",
            ResultsStatus::OutOfSync => "02",
        }
    }

    /// Reads a wire code; `None` when `s` is no code of this type.
    pub fn from_code(s: &str) -> (r: Option<ResultsStatus>)
        ensures
            r == ResultsStatus::spec_from_code(s@),
    {
        if str_eq(s, "01") {
            Some(ResultsStatus::Received)
        } else if str_eq(s, "02") {
            Some(ResultsStatus::OutOfSync)
        } else {
            None
        }
    }

    /// Reading back the wire code of a value gives the value, and a code that
    /// reads as a value is that value's code.
    pub proof fn lemma_code_roundtrip(self, s: Seq<char>)
        ensures
            ResultsStatus::spec_from_code(self.spec_code()) == Some(self),
            ResultsStatus::spec_from_code(s) == Some(self) ==> s == self.spec_code(),
    {
        reveal_strlit("01");
        reveal_strlit("02");
        match self {
            ResultsStatus::Received => {},
            ResultsStatus::OutOfSync => {
                assert("02"@[1] != "01"@[1]);
            },
        }
    }

    /// The wire code of each value, and the value that each code reads as.
    pub proof fn lemma_wire_codes()
        ensures
            ResultsStatus::Received.spec_code() == "01"@,
            ResultsStatus::spec_from_code("01"@) == Some(ResultsStatus::Received),
            ResultsStatus::OutOfSync.spec_code() == "02"@,
            ResultsStatus::spec_from_code("02"@) == Some(ResultsStatus::OutOfSync),
    {
        ResultsStatus::Received.lemma_code_roundtrip("01"@);
        ResultsStatus::OutOfSync.lemma_code_roundtrip("02"@);
    }
}

/// Authentication method the ACS used with the cardholder.
#[derive(Debug, Clone, Copy, PartialEq, Eq, Hash, Structural)]
pub enum AcsAuthMethod {
    StaticPasscode,
    SmsOtp,
    KeyFobOrEmvCardReaderOtp,
    AppOtp,
    OtpOther,
    Kba,
    OobBiometrics,
    OobLogin,
    OobOther,
    Other,
    PushConfirmation,
}

impl AcsAuthMethod {
    /// The wire code of this value.
    pub open spec fn spec_code(self) -> Seq<char> {
        match self {
            AcsAuthMethod::StaticPasscode => "01"@,
            AcsAuthMethod::SmsOtp => "02"@,
            AcsAuthMethod::KeyFobOrEmvCardReaderOtp => "03"@,
            AcsAuthMethod::AppOtp => "04"@,
            AcsAuthMethod::OtpOther => "05"@,
            AcsAuthMethod::Kba => "06"@,
            AcsAuthMethod::OobBiometrics => "07"@,
            AcsAuthMethod::OobLogin => "08"@,
            AcsAuthMethod::OobOther => "09"@,
            AcsAuthMethod::Other => "10"@,
            AcsAuthMethod::PushConfirmation => "11"@,
        }
    }

    /// The value whose wire code is `s`, if any.
    pub open spec fn spec_from_code(s: Seq<char>) -> Option<AcsAuthMethod> {
        if s == "01"@ {
            Some(AcsAuthMethod::StaticPasscode)
        } else if s == "02"@ {
            Some(AcsAuthMethod::SmsOtp)
        } else if s == "03"@ {
            Some(AcsAuthMethod::KeyFobOrEmvCardReaderOtp)
        } else if s == "04"@ {
            Some(AcsAuthMethod::AppOtp)
        } else if s == "05"@ {
            Some(AcsAuthMethod::OtpOther)
        } else if s == "06"@ {
            Some(AcsAuthMethod::Kba)
        } else if s == "07"@ {
            Some(AcsAuthMethod::OobBiometrics)
        } else if s == "08"@ {
            Some(AcsAuthMethod::OobLogin)
        } else if s == "09"@ {
            Some(AcsAuthMethod::OobOther)
        } else if s == "10"@ {
            Some(AcsAuthMethod::Other)
        } else if s == "11"@ {
            Some(AcsAuthMethod::PushConfirmation)
        } else {
            None
        }
    }

    /// The wire code of this value, as it stands in a message.
    pub fn code(self) -> (r: &'static str)
        ensures
            r@ == self.spec_code(),
    {
        match self {
            AcsAuthMethod::StaticPasscode => "01",
            AcsAuthMethod::SmsOtp => "02",
            AcsAuthMethod::KeyFobOrEmvCardReaderOtp => "03",
            AcsAuthMethod::AppOtp => "04",
            AcsAuthMethod::OtpOther => "05",
            AcsAuthMethod::Kba => "06",
            AcsAuthMethod::OobBiometrics => "07",
            AcsAuthMethod::OobLogin => "08",
            AcsAuthMethod::OobOther => "09",
            AcsAuthMethod::Other => "10",
            AcsAuthMethod::PushConfirmation => "11",
        }
    }

    /// Reads a wire code; `None` when `s` is no code of this type.
    pub fn from_code(s: &str) -> (r: Option<AcsAuthMethod>)
        ensures
            r == AcsAuthMethod::spec_from_code(s@),
    {
        if str_eq(s, "01") {
            Some(AcsAuthMethod::StaticPasscode)
        } else if str_eq(s, "02") {
            Some(AcsAuthMethod::SmsOtp)
        } else if str_eq(s, "03") {
            Some(AcsAuthMethod::KeyFobOrEmvCardReaderOtp)
        } else if str_eq(s, "04") {
            Some(AcsAuthMethod::AppOtp)
        } else if str_eq(s, "05") {
            Some(AcsAuthMethod::OtpOther)
        } else if str_eq(s, "06") {
            Some(AcsAuthMethod::Kba)
        } else if str_eq(s, "07") {
            Some(AcsAuthMethod::OobBiometrics)
        } else if str_eq(s, "08") {
            Some(AcsAuthMethod::OobLogin)
        } else if str_eq(s, "09") {
            Some(AcsAuthMethod::OobOther)
        } else if str_eq(s, "10") {
            Some(AcsAuthMethod::Other)
        } else if str_eq(s, "11") {
            Some(AcsAuthMethod::PushConfirmation)
        } else {
            None
        }
    }

    /// Reading back the wire code of a value gives the value, and a code that
    /// reads as a value is that value's code.
    pub proof fn lemma_code_roundtrip(self, s: Seq<char>)
        ensures
            AcsAuthMethod::spec_from_code(self.spec_code()) == Some(self),
            AcsAuthMethod::spec_from_code(s) == Some(self) ==> s == self.spec_code(),
    {
        reveal_strlit("01");
        reveal_strlit("02");
        reveal_strlit("03");
        reveal_strlit("04");
        reveal_strlit("05");
        reveal_strlit("06");
        reveal_strlit("07");
        reveal_strlit("08");
        reveal_strlit("09");
        reveal_strlit("10");
        reveal_strlit("11");
        match self {
            AcsAuthMethod::StaticPasscode => {},
            AcsAuthMethod::SmsOtp => {
                assert("02"@[1] != "01"@[1]);
            },
            AcsAuthMethod::KeyFobOrEmvCardReaderOtp => {
                assert("03"@[1] != "01"@[1]);
                assert("03"@[1] != "02"@[1]);
            },
            AcsAuthMethod::AppOtp => {
                assert("04"@[1] != "01"@[1]);
                assert("04"@[1] != "02"@[1]);
                assert("04"@[1] != "03"@[1]);
            },
            AcsAuthMethod::OtpOther => {
                assert("05"@[1] != "01"@[1]);
                assert("05"@[1] != "02"@[1]);
                assert("05"@[1] != "03"@[1]);
                assert("05"@[1] != "04"@[1]);
            },
            AcsAuthMethod::Kba => {
                assert("06"@[1] != "01"@[1]);
                assert("06"@[1] != "02"@[1]);
                assert("06"@[1] != "03"@[1]);
                assert("06"@[1] != "04"@[1]);
                assert("06"@[1] != "05"@[1]);
            },
            AcsAuthMethod::OobBiometrics => {
                assert("07"@[1] != "01"@[1]);
                assert("07"@[1] != "02"@[1]);
                assert("07"@[1] != "03"@[1]);
                assert("07"@[1] != "04"@[1]);
                assert("07"@[1] != "05"@[1]);
                assert("07"@[1] != "06"@[1]);
            },
            AcsAuthMethod::OobLogin => {
                assert("08"@[1] != "01"@[1]);
                assert("08"@[1] != "02"@[1]);
                assert("08"@[1] != "03"@[1]);
                assert("08"@[1] != "04"@[1]);
                assert("08"@[1] != "05"@[1]);
                assert("08"@[1] != "06"@[1]);
                assert("08"@[1] != "07"@[1]);
            },
            AcsAuthMethod::OobOther => {
                assert("09"@[1] != "01"@[1]);
                assert("09"@[1] != "02"@[1]);
                assert("09"@[1] != "03"@[1]);
                assert("09"@[1] != "04"@[1]);
                assert("09"@[1] != "05"@[1]);
                assert("09"@[1] != "06"@[1]);
                assert("09"@[1] != "07"@[1]);
                assert("09"@[1] != "08"@[1]);
            },
            AcsAuthMethod::Other => {
                assert("10"@[0] != "01"@[0]);
                assert("10"@[0] != "02"@[0]);
                assert("10"@[0] != "03"@[0]);
                assert("10"@[0] != "04"@[0]);
                assert("10"@[0] != "05"@[0]);
                assert("10"@[0] != "06"@[0]);
                assert("10"@[0] != "07"@[0]);
                assert("10"@[0] != "08"@[0]);
                assert("10"@[0] != "09"@[0]);
            },
            AcsAuthMethod::PushConfirmation => {
                assert("11"@[0] != "01"@[0]);
                assert("11"@[0] != "02"@[0]);
                assert("11"@[0] != "03"@[0]);
                assert("11"@[0] != "04"@[0]);
                assert("11"@[0] != "05"@[0]);
                assert("11"@[0] != "06"@[0]);
                assert("11"@[0] != "07"@[0]);
                assert("11"@[0] != "08"@[0]);
                assert("11"@[0] != "09"@[0]);
                assert("11"@[1] != "10"@[1]);
            },
        }
    }

    /// The wire code of each value, and the value that each code reads as.
    pub proof fn lemma_wire_codes()
        ensures
            AcsAuthMethod::StaticPasscode.spec_code() == "01"@,
            AcsAuthMethod::spec_from_code("01"@) == Some(AcsAuthMethod::StaticPasscode),
            AcsAuthMethod::SmsOtp.spec_code() == "02"@,
            AcsAuthMethod::spec_from_code("02"@) == Some(AcsAuthMethod::SmsOtp),
            AcsAuthMethod::KeyFobOrEmvCardReaderOtp.spec_code() == "03"@,
            AcsAuthMethod::spec_from_code("03"@) == Some(AcsAuthMethod::KeyFobOrEmvCardReaderOtp),
            AcsAuthMethod::AppOtp.spec_code() == "04"@,
            AcsAuthMethod::spec_from_code("04"@) == Some(AcsAuthMethod::AppOtp),
            AcsAuthMethod::OtpOther.spec_code() == "05"@,
            AcsAuthMethod::spec_from_code("05"@) == Some(AcsAuthMethod::OtpOther),
            AcsAuthMethod::Kba.spec_code() == "06"@,
            AcsAuthMethod::spec_from_code("06"@) == Some(AcsAuthMethod::Kba),
            AcsAuthMethod::OobBiometrics.spec_code() == "07"@,
            AcsAuthMethod::spec_from_code("07"@) == Some(AcsAuthMethod::OobBiometrics),
            AcsAuthMethod::OobLogin.spec_code() == "08"@,
            AcsAuthMethod::spec_from_code("08"@) == Some(AcsAuthMethod::OobLogin),
            AcsAuthMethod::OobOther.spec_code() == "09"@,
            AcsAuthMethod::spec_from_code("09"@) == Some(AcsAuthMethod::OobOther),
            AcsAuthMethod::Other.spec_code() == "10"@,
            AcsAuthMethod::spec_from_code("10"@) == Some(AcsAuthMethod::Other),
            AcsAuthMethod::PushConfirmation.spec_code() == "11"@,
            AcsAuthMethod::spec_from_code("11"@) == Some(AcsAuthMethod::PushConfirmation),
    {
        AcsAuthMethod::StaticPasscode.lemma_code_roundtrip("01"@);
        AcsAuthMethod::SmsOtp.lemma_code_roundtrip("02"@);
        AcsAuthMethod::KeyFobOrEmvCardReaderOtp.lemma_code_roundtrip("03"@);
        AcsAuthMethod::AppOtp.lemma_code_roundtrip("04"@);
        AcsAuthMethod::OtpOther.lemma_code_roundtrip("05"@);
        AcsAuthMethod::Kba.lemma_code_roundtrip("06"@);
        AcsAuthMethod::OobBiometrics.lemma_code_roundtrip("07"@);
        AcsAuthMethod::OobLogin.lemma_code_roundtrip("08"@);
        AcsAuthMethod::OobOther.lemma_code_roundtrip("09"@);
        AcsAuthMethod::Other.lemma_code_roundtrip("10"@);
        AcsAuthMethod::PushConfirmation.lemma_code_roundtrip("11"@);
    }
}

/// Type of authentication the ACS used to challenge the cardholder.
#[derive(Debug, Clone, Copy, PartialEq, Eq, Hash, Structural)]
pub enum AuthenticationType {
    Static,
    Dynamic,
    Oob,
    Decoupled,
}

impl AuthenticationType {
    /// The wire code of this value.
    pub open spec fn spec_code(self) -> Seq<char> {
        match self {
            AuthenticationType::Static => "01"@,
            AuthenticationType::Dynamic => "02"@,
            AuthenticationType::Oob => "03"@,
            AuthenticationType::Decoupled => "04"@,
        }
    }

    /// The value whose wire code is `s`, if any.
    pub open spec fn spec_from_code(s: Seq<char>) -> Option<AuthenticationType> {
        if s == "01"@ {
            Some(AuthenticationType::Static)
        } else if s == "02"@ {
            Some(AuthenticationType::Dynamic)
        } else if s == "03"@ {
            Some(AuthenticationType::Oob)
        } else if s == "04"@ {
            Some(AuthenticationType::Decoupled)
        } else {
            None
        }
    }

    /// The wire code of this value, as it stands in a message.
    pub fn code(self) -> (r: &'static str)
        ensures
            r@ == self.spec_code(),
    {
        match self {
            AuthenticationType::Static => "01",
            AuthenticationType::Dynamic => "02",
            AuthenticationType::Oob => "03",
            AuthenticationType::Decoupled => "04",
        }
    }

    /// Reads a wire code; `None` when `s` is no code of this type.
    pub fn from_code(s: &str) -> (r: Option<AuthenticationType>)
        ensures
            r == AuthenticationType::spec_from_code(s@),
    {
        if str_eq(s, "01") {
            Some(AuthenticationType::Static)
        } else if str_eq(s, "02") {
            Some(AuthenticationType::Dynamic)
        } else if str_eq(s, "03") {
            Some(AuthenticationType::Oob)
        } else if str_eq(s, "04") {
            Some(AuthenticationType::Decoupled)
        } else {
            None
        }
    }

    /// Reading back the wire code of a value gives the value, and a code that
    /// reads as a value is that value's code.
    pub proof fn lemma_code_roundtrip(self, s: Seq<char>)
        ensures
            AuthenticationType::spec_from_code(self.spec_code()) == Some(self),
            AuthenticationType::spec_from_code(s) == Some(self) ==> s == self.spec_code(),
    {
        reveal_strlit("01");
        reveal_strlit("02");
        reveal_strlit("03");
        reveal_strlit("04");
        match self {
            AuthenticationType::Static => {},
            AuthenticationType::Dynamic => {
                assert("02"@[1] != "01"@[1]);
            },
            AuthenticationType::Oob => {
                assert("03"@[1] != "01"@[1]);
                assert("03"@[1] != "02"@[1]);
            },
            AuthenticationType::Decoupled => {
                assert("04"@[1] != "01"@[1]);
                assert("04"@[1] != "02"@[1]);
                assert("04"@[1] != "03"@[1]);
            },
        }
    }

    /// The wire code of each value, and the value that each code reads as.
    pub proof fn lemma_wire_codes()
        ensures
            AuthenticationType::Static.spec_code() == "01"@,
            AuthenticationType::spec_from_code("01"@) == Some(AuthenticationType::Static),
            AuthenticationType::Dynamic.spec_code() == "02"@,
            AuthenticationType::spec_from_code("02"@) == Some(AuthenticationType::Dynamic),
            AuthenticationType::Oob.spec_code() == "03"@,
            AuthenticationType::spec_from_code("03"@) == Some(AuthenticationType::Oob),
            AuthenticationType::Decoupled.spec_code() == "04"@,
            AuthenticationType::spec_from_code("04"@) == Some(AuthenticationType::Decoupled),
    {
        AuthenticationType::Static.lemma_code_roundtrip("01"@);
        AuthenticationType::Dynamic.lemma_code_roundtrip("02"@);
        AuthenticationType::Oob.lemma_code_roundtrip("03"@);
        AuthenticationType::Decoupled.lemma_code_roundtrip("04"@);
    }
}
} // verus!
