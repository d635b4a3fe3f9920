//! The protocol messages, and the dispatch of a JSON message by its `messageType`.

pub mod areq;
pub mod ares;
pub mod creq;
pub mod cres;
pub mod error_msg;
pub mod preq;
pub mod pres;
pub mod rreq;
pub mod rres;

pub use areq::AuthenticationRequest;
pub use ares::AuthenticationResponse;
pub use creq::ChallengeRequest;
pub use cres::ChallengeResponse;
pub use error_msg::ErrorMessage;
pub use preq::PreparationRequest;
pub use pres::{CardRangeData, PreparationResponse};
pub use rreq::{MessageExtension, ResultsRequest};
pub use rres::ResultsResponse;

use crate::error::{Error, ErrorView, Result};
use crate::text::{opt_view, str_eq};
use serde_json::Error as JsonError;
use vstd::prelude::*;

verus! {

/// A type-erased EMV 3DS message, dispatched by the `messageType` field.
#[derive(Debug, Clone)]
pub enum Message {
    AReq(Box<AuthenticationRequest>),
    ARes(AuthenticationResponse),
    CReq(ChallengeRequest),
    CRes(ChallengeResponse),
    Erro(ErrorMessage),
    PReq(Box<PreparationRequest>),
    PRes(PreparationResponse),
    RReq(ResultsRequest),
    RRes(ResultsResponse),
}

/// The kind of a message: the value of its `messageType` field.
#[derive(Debug, Clone, Copy, PartialEq, Eq, Hash, Structural)]
pub enum MessageKind {
    AReq,
    ARes,
    CReq,
    CRes,
    Erro,
    PReq,
    PRes,
    RReq,
    RRes,
}

impl MessageKind {
    /// The wire code of this value.
    pub open spec fn spec_code(self) -> Seq<char> {
        match self {
            MessageKind::AReq => "AReq"@,
            MessageKind::ARes => "ARes"@,
            MessageKind::CReq => "CReq"@,
            MessageKind::CRes => "CRes"@,
            MessageKind::Erro => "Erro"@,
            MessageKind::PReq => "PReq"@,
            MessageKind::PRes => "PRes"@,
            MessageKind::RReq => "RReq"@,
            MessageKind::RRes => "RRes"@,
        }
    }

    /// The value whose wire code is `s`, if any.
    pub open spec fn spec_from_code(s: Seq<char>) -> Option<MessageKind> {
        if s == "AReq"@ {
            Some(MessageKind::AReq)
        } else if s == "ARes"@ {
            Some(MessageKind::ARes)
        } else if s == "CReq"@ {
            Some(MessageKind::CReq)
        } else if s == "CRes"@ {
            Some(MessageKind::CRes)
        } else if s == "Erro"@ {
            Some(MessageKind::Erro)
        } else if s == "PReq"@ {
            Some(MessageKind::PReq)
        } else if s == "PRes"@ {
            Some(MessageKind::PRes)
        } else if s == "RReq"@ {
            Some(MessageKind::RReq)
        } else if s == "RRes"@ {
            Some(MessageKind::RRes)
        } else {
            None
        }
    }

    /// The wire code of this value, as it stands in a message.
    pub fn code(self) -> (r: &'static str)
        ensures
            r@ == self.spec_code(),
    {
        match self {
            MessageKind::AReq => "AReq",
            MessageKind::ARes => "ARes",
            MessageKind::CReq => "CReq",
            MessageKind::CRes => "CRes",
            MessageKind::Erro => "Erro",
            MessageKind::PReq => "PReq",
            MessageKind::PRes => "PRes",
            MessageKind::RReq => "RReq",
            MessageKind::RRes => "RRes",
        }
    }

    /// Reads a wire code; `None` when `s` is no code of this type.
    pub fn from_code(s: &str) -> (r: Option<MessageKind>)
        ensures
            r == MessageKind::spec_from_code(s@),
    {
        if str_eq(s, "AReq") {
            Some(MessageKind::AReq)
        } else if str_eq(s, "ARes") {
            Some(MessageKind::ARes)
        } else if str_eq(s, "CReq") {
            Some(MessageKind::CReq)
        } else if str_eq(s, "CRes") {
            Some(MessageKind::CRes)
        } else if str_eq(s, "Erro") {
            Some(MessageKind::Erro)
        } else if str_eq(s, "PReq") {
            Some(MessageKind::PReq)
        } else if str_eq(s, "PRes") {
            Some(MessageKind::PRes)
        } else if str_eq(s, "RReq") {
            Some(MessageKind::RReq)
        } else if str_eq(s, "RRes") {
            Some(MessageKind::RRes)
        } else {
            None
        }
    }

    /// Reading back the wire code of a value gives the value, and a code that
    /// reads as a value is that value's code.
    pub proof fn lemma_code_roundtrip(self, s: Seq<char>)
        ensures
            MessageKind::spec_from_code(self.spec_code()) == Some(self),
            MessageKind::spec_from_code(s) == Some(self) ==> s == self.spec_code(),
    {
        reveal_strlit("AReq");
        reveal_strlit("ARes");
        reveal_strlit("CReq");
        reveal_strlit("CRes");
        reveal_strlit("Erro");
        reveal_strlit("PReq");
        reveal_strlit("PRes");
        reveal_strlit("RReq");
        reveal_strlit("RRes");
        match self {
            MessageKind::AReq => {},
            MessageKind::ARes => {
                assert("ARes"@[3] != "AReq"@[3]);
            },
            MessageKind::CReq => {
                assert("CReq"@[0] != "AReq"@[0]);
                assert("CReq"@[0] != "ARes"@[0]);
            },
            MessageKind::CRes => {
                assert("CRes"@[0] != "AReq"@[0]);
                assert("CRes"@[0] != "ARes"@[0]);
                assert("CRes"@[3] != "CReq"@[3]);
            },
            MessageKind::Erro => {
                assert("Erro"@[0] != "AReq"@[0]);
                assert("Erro"@[0] != "ARes"@[0]);
                assert("Erro"@[0] != "CReq"@[0]);
                assert("Erro"@[0] != "CRes"@[0]);
            },
            MessageKind::PReq => {
                assert("PReq"@[0] != "AReq"@[0]);
                assert("PReq"@[0] != "ARes"@[0]);
                assert("PReq"@[0] != "CReq"@[0]);
                assert("PReq"@[0] != "CRes"@[0]);
                assert("PReq"@[0] != "Erro"@[0]);
            },
            MessageKind::PRes => {
                assert("PRes"@[0] != "AReq"@[0]);
                assert("PRes"@[0] != "ARes"@[0]);
                assert("PRes"@[0] != "CReq"@[0]);
                assert("PRes"@[0] != "CRes"@[0]);
                assert("PRes"@[0] != "Erro"@[0]);
                assert("PRes"@[3] != "PReq"@[3]);
            },
            MessageKind::RReq => {
                assert("RReq"@[0] != "AReq"@[0]);
                assert("RReq"@[0] != "ARes"@[0]);
                assert("RReq"@[0] != "CReq"@[0]);
                assert("RReq"@[0] != "CRes"@[0]);
                assert("RReq"@[0] != "Erro"@[0]);
                assert("RReq"@[0] != "PReq"@[0]);
                assert("RReq"@[0] != "PRes"@[0]);
            },
            MessageKind::RRes => {
                assert("RRes"@[0] != "AReq"@[0]);
                assert("RRes"@[0] != "ARes"@[0]);
                assert("RRes"@[0] != "CReq"@[0]);
                assert("RRes"@[0] != "CRes"@[0]);
                assert("RRes"@[0] != "Erro"@[0]);
                assert("RRes"@[0] != "PReq"@[0]);
                assert("RRes"@[0] != "PRes"@[0]);
                assert("RRes"@[3] != "RReq"@[3]);
            },
        }
    }

    /// The wire code of each value, and the value that each code reads as.
    pub proof fn lemma_wire_codes()
        ensures
            MessageKind::AReq.spec_code() == "AReq"@,
            MessageKind::spec_from_code("AReq"@) == Some(MessageKind::AReq),
            MessageKind::ARes.spec_code() == "ARes"@,
            MessageKind::spec_from_code("ARes"@) == Some(MessageKind::ARes),
            MessageKind::CReq.spec_code() == "CReq"@,
            MessageKind::spec_from_code("CReq"@) == Some(MessageKind::CReq),
            MessageKind::CRes.spec_code() == "CRes"@,
            MessageKind::spec_from_code("CRes"@) == Some(MessageKind::CRes),
            MessageKind::Erro.spec_code() == "Erro"@,
            MessageKind::spec_from_code("Erro"@) == Some(MessageKind::Erro),
            MessageKind::PReq.spec_code() == "PReq"@,
            MessageKind::spec_from_code("PReq"@) == Some(MessageKind::PReq),
            MessageKind::PRes.spec_code() == "PRes"@,
            MessageKind::spec_from_code("PRes"@) == Some(MessageKind::PRes),
            MessageKind::RReq.spec_code() == "RReq"@,
            MessageKind::spec_from_code("RReq"@) == Some(MessageKind::RReq),
            MessageKind::RRes.spec_code() == "RRes"@,
            MessageKind::spec_from_code("RRes"@) == Some(MessageKind::RRes),
    {
        MessageKind::AReq.lemma_code_roundtrip("AReq"@);
        MessageKind::ARes.lemma_code_roundtrip("ARes"@);
        MessageKind::CReq.lemma_code_roundtrip("CReq"@);
        MessageKind::CRes.lemma_code_roundtrip("CRes"@);
        MessageKind::Erro.lemma_code_roundtrip("Erro"@);
        MessageKind::PReq.lemma_code_roundtrip("PReq"@);
        MessageKind::PRes.lemma_code_roundtrip("PRes"@);
        MessageKind::RReq.lemma_code_roundtrip("RReq"@);
        MessageKind::RRes.lemma_code_roundtrip("RRes"@);
    }
}

/// What `serde_json` reads from the JSON text `json` as the string member `key` of
/// its top-level value: `None` when the text is no JSON document, `Some(None)`
/// when the value has no such member or the member is no string.
pub uninterp spec fn json_str_member(json: Seq<char>, key: Seq<char>) -> Option<Option<Seq<char>>>;

/// Parses `json` with `serde_json::from_str::<serde_json::Value>` and takes the
/// string member `key` of the value (`Value::get`, then `Value::as_str`).
/// Its result is named by [`json_str_member`]; what `serde_json` accepts as JSON
/// is not restated here, nor anything of the error value beyond its presence.
#[verifier::external_body]
fn json_string_member(json: &str, key: &str) -> (r: std::result::Result<Option<String>, JsonError>)
    ensures
        r is Ok <==> json_str_member(json@, key@) is Some,
        r matches Ok(o) ==> opt_view(o) == json_str_member(json@, key@)->0,
{
    let value: serde_json::Value = serde_json::from_str(json)?;
    Ok(value.get(key).and_then(serde_json::Value::as_str).map(String::from))
}

/// The outcome of dispatching on the `messageType` value `tag`.
pub open spec fn spec_kind_of_tag(tag: Seq<char>) -> std::result::Result<MessageKind, ErrorView> {
    match MessageKind::spec_from_code(tag) {
        Some(k) => Ok(k),
        None => Err(ErrorView::Protocol { code: "405"@, description: "unknown messageType: "@ + tag }),
    }
}

/// The outcome of dispatching on the JSON text `json`, given what `serde_json`
/// reads as its `messageType`; `None` stands for a text that is no JSON document.
pub open spec fn spec_kind_of_json(member: Option<Option<Seq<char>>>) -> Option<std::result::Result<MessageKind, ErrorView>> {
    match member {
        None => None,
        Some(None) => Some(Err(ErrorView::MissingField("messageType"@))),
        Some(Some(tag)) => Some(spec_kind_of_tag(tag)),
    }
}

/// The mathematical value of a dispatch result.
pub open spec fn kind_result_view(r: Result<MessageKind>) -> std::result::Result<MessageKind, ErrorView> {
    match r {
        Ok(k) => Ok(k),
        Err(e) => Err(e@),
    }
}

impl MessageKind {
    /// The kind named by the `messageType` value `tag`; an unknown tag is the
    /// protocol error 405.
    pub fn from_tag(tag: &str) -> (r: Result<MessageKind>)
        ensures
            kind_result_view(r) == spec_kind_of_tag(tag@),
    {
        match MessageKind::from_code(tag) {
            Some(k) => Ok(k),
            None => {
                let description = String::from_str("unknown messageType: ").concat(tag);
                Err(Error::Protocol { code: String::from_str("405"), description })
            },
        }
    }

    /// The kind of the JSON message `json`, read from its `messageType` member:
    /// a text that is no JSON document is a serialization error, a missing or
    /// non-string `messageType` is a missing field, and an unknown one is the
    /// protocol error 405.
    pub fn from_json(json: &str) -> (r: Result<MessageKind>)
        ensures
            match spec_kind_of_json(json_str_member(json@, "messageType"@)) {
                None => r matches Err(Error::Serialization(_)),
                Some(outcome) => kind_result_view(r) == outcome,
            },
    {
        match json_string_member(json, "messageType") {
            Err(e) => Err(Error::Serialization(e)),
            Ok(None) => Err(Error::MissingField("messageType")),
            Ok(Some(tag)) => MessageKind::from_tag(tag.as_str()),
        }
    }
}

/// Dispatch reads the `messageType` member: a string member `tag` gives the kind
/// whose wire code is `tag`, and protocol error 405 naming `tag` when there is
/// none; a document without a string `messageType` is a missing field.
pub proof fn lemma_dispatch_by_message_type(tag: Seq<char>, k: MessageKind)
    ensures
        spec_kind_of_json(Some(Some(tag))) == Some(spec_kind_of_tag(tag)),
        spec_kind_of_tag(tag) == Ok::<MessageKind, ErrorView>(k) <==> k.spec_code() == tag,
        (forall|k2: MessageKind| k2.spec_code() != tag) ==> spec_kind_of_tag(tag) == Err::<MessageKind, _>(
            ErrorView::Protocol { code: "405"@, description: "unknown messageType: "@ + tag },
        ),
        spec_kind_of_json(Some(None)) == Some(
            Err::<MessageKind, _>(ErrorView::MissingField("messageType"@)),
        ),
{
    k.lemma_code_roundtrip(tag);
    if spec_kind_of_tag(tag) is Ok {
        let k1 = spec_kind_of_tag(tag)->Ok_0;
        k1.lemma_code_roundtrip(tag);
    } else {
        assert forall|k2: MessageKind| #[trigger] k2.spec_code() != tag by {
            k2.lemma_code_roundtrip(tag);
        }
    }
}

} // verus!
