use emv_3ds::text::{str_eq, str_le};
use emv_3ds::types::{Amount, Currency};
use emv_3ds::message::{error_msg, MessageKind};
use emv_3ds::types::{Eci, MessageVersion};

// ── MessageVersion display ────────────────────────────────────────────────────

#[test]
fn message_version_display() {
    assert_eq!(MessageVersion::V210.to_string(), "2.1.0");
    assert_eq!(MessageVersion::V220.to_string(), "2.2.0");
    assert_eq!(MessageVersion::V230.to_string(), "2.3.0");
}

// ── ECI liability shift ───────────────────────────────────────────────────────

#[test]
fn eci_liability_shift() {
    assert!(Eci::VisaFullyAuthenticated.has_liability_shift());
    assert!(Eci::VisaAttempted.has_liability_shift());
    assert!(!Eci::VisaNotAuthenticated.has_liability_shift());
    assert!(Eci::MastercardFullyAuthenticated.has_liability_shift());
    assert!(!Eci::MastercardNotAuthenticated.has_liability_shift());
}

// ── Amount helpers ────────────────────────────────────────────────────────────

#[test]
fn messages_amount_spec_fields() {
    let amount = Amount::from_major(50, Currency::GBP());
    assert_eq!(amount.spec_amount(), "5000");
    assert_eq!(amount.spec_currency(), "826");
    assert_eq!(amount.spec_exponent(), "2");
}

// ── Message dispatch by messageType ───────────────────────────────────────────

#[test]
fn message_kind_from_json_reads_message_type() {
    let json = r#"{
        "messageType": "ARes",
        "messageVersion": "2.2.0",
        "threeDSServerTransID": "txn-1",
        "transStatus": "Y"
    }"#;
    assert_eq!(MessageKind::from_json(json).unwrap(), MessageKind::ARes);
    assert_eq!(
        MessageKind::from_json(r#"{"messageType":"RRes"}"#).unwrap(),
        MessageKind::RRes
    );
}

#[test]
fn message_kind_unknown_type_is_protocol_405() {
    match MessageKind::from_json(r#"{"messageType":"XReq"}"#) {
        Err(emv_3ds::Error::Protocol { code, description }) => {
            assert_eq!(code, "405");
            assert_eq!(description, "unknown messageType: XReq");
        }
        other => panic!("expected Protocol, got {other:?}"),
    }
}

#[test]
fn message_kind_missing_or_non_string_type_is_missing_field() {
    for json in [r#"{"messageVersion":"2.2.0"}"#, r#"{"messageType":5}"#, "[1, 2]"] {
        match MessageKind::from_json(json) {
            Err(emv_3ds::Error::MissingField(field)) => assert_eq!(field, "messageType"),
            other => panic!("expected MissingField, got {other:?}"),
        }
    }
}

#[test]
fn message_kind_of_broken_json_is_serialization_error() {
    assert!(matches!(
        MessageKind::from_json("{\"messageType\": "),
        Err(emv_3ds::Error::Serialization(_))
    ));
}

#[test]
fn message_kind_from_tag_covers_every_kind() {
    for (tag, kind) in [
        ("AReq", MessageKind::AReq),
        ("ARes", MessageKind::ARes),
        ("CReq", MessageKind::CReq),
        ("CRes", MessageKind::CRes),
        ("Erro", MessageKind::Erro),
        ("PReq", MessageKind::PReq),
        ("PRes", MessageKind::PRes),
        ("RReq", MessageKind::RReq),
        ("RRes", MessageKind::RRes),
    ] {
        assert_eq!(MessageKind::from_tag(tag).unwrap(), kind);
        assert_eq!(kind.code(), tag);
    }
    assert!(MessageKind::from_tag("areq").is_err());
}

#[test]
fn error_codes_are_the_emvco_codes() {
    assert_eq!(error_msg::error_codes::CRITICAL_ELEMENT_MISSING, "202");
    assert_eq!(error_msg::error_codes::UNKNOWN_PROTOCOL_ELEMENT, "405");
    assert_eq!(error_msg::error_codes::SYSTEM_ERROR, "500");
}

#[test]
fn decimal_rendering_matches_std() {
    for n in [0u64, 9, 10, 99, 100, 4_294_967_296, u64::MAX] {
        assert_eq!(emv_3ds::text::decimal_string(n), n.to_string());
    }
}

#[test]
fn string_order_is_byte_order() {
    assert!(str_le("", "a"));
    assert!(str_le("abc", "abd"));
    assert!(str_le("ab", "abc"));
    assert!(!str_le("abd", "abc"));
    assert!(str_le("Z", "a"));
    assert!(str_le("é", "ê"));
    assert!(str_eq("ARes", "ARes"));
    assert!(!str_eq("ARes", "AReq"));
    assert!(!str_eq("ARes", "ARes "));
}
