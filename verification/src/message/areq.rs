//! Authentication Request (AReq).

use crate::text::str_eq;
use crate::types::device::{BrowserInfo, DeviceRenderOptions, SdkInfo};
use crate::types::{
    AccountInfo, AccountType, AuthenticationMethod, ChallengeIndicator, DeliveryTimeframe,
    DeviceChannel, MessageCategory, MessageVersion, PreOrderPurchaseIndicator,
    ReorderItemsIndicator, ShipIndicator, ThreeDsMethod,
};
use vstd::prelude::*;

verus! {

/// EMV 3DS Authentication Request (AReq).
///
/// Sent by the 3DS Server to the Directory Server to initiate authentication.
/// Fields marked `Option` are conditional or optional per the EMVCo spec.
#[derive(Debug, Clone)]
pub struct AuthenticationRequest {
    // ── Message envelope ──────────────────────────────────────────────────
    pub message_type: MessageType,
    pub message_version: MessageVersion,
    /// UUIDv4 assigned by the 3DS Server for this transaction.
    pub three_ds_server_trans_id: String,
    pub device_channel: DeviceChannel,
    pub message_category: MessageCategory,

    // ── Requestor identity ────────────────────────────────────────────────
    pub three_ds_requestor_id: String,
    pub three_ds_requestor_name: String,
    pub three_ds_requestor_url: String,
    pub three_ds_requestor_authentication_ind: Option<String>,
    pub three_ds_requestor_authentication_info: Option<AuthenticationInfo>,
    pub three_ds_requestor_challenge_ind: Option<ChallengeIndicator>,
    pub three_ds_requestor_prior_authentication_info: Option<PriorAuthenticationInfo>,

    // ── Card / account ────────────────────────────────────────────────────
    /// PAN — must be encrypted when transmitted outside the 3DS Server.
    pub acct_number: String,
    /// YYMM
    pub card_expiry_date: String,
    pub acct_type: Option<AccountType>,
    pub acct_info: Option<AccountInfo>,
    pub acct_id: Option<String>,

    // ── Purchase ──────────────────────────────────────────────────────────
    /// Minor-unit purchase amount as a numeric string.
    pub purchase_amount: Option<String>,
    /// ISO 4217 numeric currency code, zero-padded to 3 digits.
    pub purchase_currency: Option<String>,
    /// Decimal exponent (e.g. "2" for cents).
    pub purchase_exponent: Option<String>,
    /// UTC datetime, format: YYYYMMDDHHMMSS.
    pub purchase_date: Option<String>,
    /// Type of transaction: "01" goods/service, "03" cash-advance, etc.
    pub trans_type: Option<String>,
    /// Recurring/instalment expiry date (YYYYMMDD).
    pub recurring_expiry: Option<String>,
    /// Days between recurring charges.
    pub recurring_frequency: Option<String>,
    /// Instalments count.
    pub purchase_instal_data: Option<String>,

    // ── Merchant ──────────────────────────────────────────────────────────
    pub merchant_id: Option<String>,
    pub mcc: Option<String>,
    pub merchant_name: Option<String>,
    pub merchant_country_code: Option<String>,
    pub merchant_risk_indicator: Option<MerchantRiskIndicator>,

    // ── Cardholder ────────────────────────────────────────────────────────
    pub cardholder_name: Option<String>,
    pub email: Option<String>,
    pub home_phone: Option<PhoneNumber>,
    pub mobile_phone: Option<PhoneNumber>,
    pub work_phone: Option<PhoneNumber>,
    pub bill_addr_city: Option<String>,
    pub bill_addr_country: Option<String>,
    pub bill_addr_line1: Option<String>,
    pub bill_addr_line2: Option<String>,
    pub bill_addr_line3: Option<String>,
    pub bill_addr_post_code: Option<String>,
    pub bill_addr_state: Option<String>,
    pub ship_addr_city: Option<String>,
    pub ship_addr_country: Option<String>,
    pub ship_addr_line1: Option<String>,
    pub ship_addr_line2: Option<String>,
    pub ship_addr_line3: Option<String>,
    pub ship_addr_post_code: Option<String>,
    pub ship_addr_state: Option<String>,
    pub addr_match: Option<AddrMatch>,

    // ── 3DS Method ────────────────────────────────────────────────────────
    pub three_ds_comp_ind: Option<ThreeDsMethod>,
    /// Notification URL where the ACS posts the CRes (browser channel).
    pub notification_url: Option<String>,

    // ── Browser channel ───────────────────────────────────────────────────
    pub browser_info: Option<BrowserInfo>,

    // ── App channel ───────────────────────────────────────────────────────
    pub sdk_info: Option<SdkInfo>,
    pub device_render_options: Option<DeviceRenderOptions>,
}

impl AuthenticationRequest {
    /// The `messageType` of an AReq.
    pub fn message_type_value() -> (r: &'static str)
        ensures
            r@ == MessageType::AReq.spec_code(),
    {
        "AReq"
    }
}

/// Constant "AReq" literal for the messageType field.
#[derive(Debug, Default, Clone, Copy, PartialEq, Eq, Hash, Structural)]
pub enum MessageType {
    #[default]
    AReq,
}

impl MessageType {
    /// The wire code of this value.
    pub open spec fn spec_code(self) -> Seq<char> {
        match self {
            MessageType::AReq => "AReq"@,
        }
    }

    /// The value whose wire code is `s`, if any.
    pub open spec fn spec_from_code(s: Seq<char>) -> Option<MessageType> {
        if s == "AReq"@ {
            Some(MessageType::AReq)
        } else {
            None
        }
    }

    /// The wire code of this value, as it stands in a message.
    pub fn code(self) -> (r: &'static str)
        ensures
            r@ == self.spec_code(),
    {
        match self {
            MessageType::AReq => "AReq",
        }
    }

    /// Reads a wire code; `None` when `s` is no code of this type.
    pub fn from_code(s: &str) -> (r: Option<MessageType>)
        ensures
            r == MessageType::spec_from_code(s@),
    {
        if str_eq(s, "AReq") {
            Some(MessageType::AReq)
        } else {
            None
        }
    }

    /// Reading back the wire code of a value gives the value, and a code that
    /// reads as a value is that value's code.
    pub proof fn lemma_code_roundtrip(self, s: Seq<char>)
        ensures
            MessageType::spec_from_code(self.spec_code()) == Some(self),
            MessageType::spec_from_code(s) == Some(self) ==> s == self.spec_code(),
    {
        reveal_strlit("AReq");
    }

    /// The wire code of each value, and the value that each code reads as.
    pub proof fn lemma_wire_codes()
        ensures
            MessageType::AReq.spec_code() == "AReq"@,
            MessageType::spec_from_code("AReq"@) == Some(MessageType::AReq),
    {
        MessageType::AReq.lemma_code_roundtrip("AReq"@);
    }
}
#[derive(Debug, Clone)]
pub struct AuthenticationInfo {
    pub three_ds_req_auth_method: AuthenticationMethod,
    pub three_ds_req_auth_timestamp: String,
    pub three_ds_req_auth_data: Option<String>,
}

#[derive(Debug, Clone)]
pub struct PriorAuthenticationInfo {
    pub three_ds_req_prior_ref: String,
    pub three_ds_req_prior_auth_method: String,
    pub three_ds_req_prior_auth_timestamp: String,
    pub three_ds_req_prior_auth_data: Option<String>,
}

#[derive(Debug, Clone)]
pub struct MerchantRiskIndicator {
    pub delivery_email_address: Option<String>,
    pub delivery_timeframe: Option<DeliveryTimeframe>,
    pub gift_card_amount: Option<String>,
    pub gift_card_count: Option<String>,
    pub gift_card_curr: Option<String>,
    pub pre_order_date: Option<String>,
    pub pre_order_purchase_ind: Option<PreOrderPurchaseIndicator>,
    pub reorder_items_ind: Option<ReorderItemsIndicator>,
    pub ship_indicator: Option<ShipIndicator>,
}

#[derive(Debug, Clone)]
pub struct PhoneNumber {
    pub cc: String,
    pub subscriber: String,
}

/// Whether the shipping address matches the billing address.
#[derive(Debug, Clone, Copy, PartialEq, Eq, Hash, Structural)]
pub enum AddrMatch {
    Match,
    NoMatch,
}

impl AddrMatch {
    /// The wire code of this value.
    pub open spec fn spec_code(self) -> Seq<char> {
        match self {
            AddrMatch::Match => "Y"@,
            AddrMatch::NoMatch => "N"@,
        }
    }

    /// The value whose wire code is `s`, if any.
    pub open spec fn spec_from_code(s: Seq<char>) -> Option<AddrMatch> {
        if s == "Y"@ {
            Some(AddrMatch::Match)
        } else if s == "N"@ {
            Some(AddrMatch::NoMatch)
        } else {
            None
        }
    }

    /// The wire code of this value, as it stands in a message.
    pub fn code(self) -> (r: &'static str)
        ensures
            r@ == self.spec_code(),
    {
        match self {
            AddrMatch::Match => "Y",
            AddrMatch::NoMatch => "N",
        }
    }

    /// Reads a wire code; `None` when `s` is no code of this type.
    pub fn from_code(s: &str) -> (r: Option<AddrMatch>)
        ensures
            r == AddrMatch::spec_from_code(s@),
    {
        if str_eq(s, "Y") {
            Some(AddrMatch::Match)
        } else if str_eq(s, "N") {
            Some(AddrMatch::NoMatch)
        } else {
            None
        }
    }

    /// Reading back the wire code of a value gives the value, and a code that
    /// reads as a value is that value's code.
    pub proof fn lemma_code_roundtrip(self, s: Seq<char>)
        ensures
            AddrMatch::spec_from_code(self.spec_code()) == Some(self),
            AddrMatch::spec_from_code(s) == Some(self) ==> s == self.spec_code(),
    {
        reveal_strlit("Y");
        reveal_strlit("N");
        match self {
            AddrMatch::Match => {},
            AddrMatch::NoMatch => {
                assert("N"@[0] != "Y"@[0]);
            },
        }
    }

    /// The wire code of each value, and the value that each code reads as.
    pub proof fn lemma_wire_codes()
        ensures
            AddrMatch::Match.spec_code() == "Y"@,
            AddrMatch::spec_from_code("Y"@) == Some(AddrMatch::Match),
            AddrMatch::NoMatch.spec_code() == "N"@,
            AddrMatch::spec_from_code("N"@) == Some(AddrMatch::NoMatch),
    {
        AddrMatch::Match.lemma_code_roundtrip("Y"@);
        AddrMatch::NoMatch.lemma_code_roundtrip("N"@);
    }
}
} // verus!
