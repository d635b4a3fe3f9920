//! Device data of an authentication request: browser, SDK and rendering options.

use crate::text::str_eq;
use vstd::prelude::*;

verus! {

/// Browser data collected by the 3DS Requestor (browser channel).
#[derive(Debug, Clone)]
pub struct BrowserInfo {
    pub browser_accept_header: String,
    pub browser_ip: Option<String>,
    pub browser_java_enabled: Option<bool>,
    pub browser_javascript_enabled: Option<bool>,
    pub browser_language: Option<String>,
    pub browser_color_depth: Option<String>,
    pub browser_screen_height: Option<String>,
    pub browser_screen_width: Option<String>,
    pub browser_tz: Option<String>,
    pub browser_user_agent: String,
}

/// Data provided by the 3DS SDK (app channel).
#[derive(Debug, Clone)]
pub struct SdkInfo {
    pub sdk_app_id: String,
    pub sdk_enc_data: String,
    pub sdk_ephem_pub_key: String,
    pub sdk_max_timeout: String,
    pub sdk_reference_number: String,
    pub sdk_trans_id: String,
}

/// Rendering options that the SDK supports (app channel).
#[derive(Debug, Clone)]
pub struct DeviceRenderOptions {
    pub sdk_interface: String,
    pub sdk_ui_type: Vec<UiType>,
}

/// Challenge user-interface type that the SDK supports.
#[derive(Debug, Clone, Copy, PartialEq, Eq, Hash, Structural)]
pub enum UiType {
    /// 01 — Text
    Text,
    /// 02 — Single Select
    SingleSelect,
    /// 03 — Multi Select
    MultiSelect,
    /// 04 — Out of Band
    Oob,
    /// 05 — HTML Other
    HtmlOther,
}

impl UiType {
    /// The wire code of this value.
    pub open spec fn spec_code(self) -> Seq<char> {
        match self {
            UiType::Text => "01"@,
            UiType::SingleSelect => "02"@,
            UiType::MultiSelect => "03"@,
            UiType::Oob => "04"@,
            UiType::HtmlOther => "05"@,
        }
    }

    /// The value whose wire code is `s`, if any.
    pub open spec fn spec_from_code(s: Seq<char>) -> Option<UiType> {
        if s == "01"@ {
            Some(UiType::Text)
        } else if s == "02"@ {
            Some(UiType::SingleSelect)
        } else if s == "03"@ {
            Some(UiType::MultiSelect)
        } else if s == "04"@ {
            Some(UiType::Oob)
        } else if s == "05"@ {
            Some(UiType::HtmlOther)
        } else {
            None
        }
    }

    /// The wire code of this value, as it stands in a message.
    pub fn code(self) -> (r: &'static str)
        ensures
            r@ == self.spec_code(),
    {
        match self {
            UiType::Text => "01",
            UiType::SingleSelect => "02",
            UiType::MultiSelect => "03",
            UiType::Oob => "04",
            UiType::HtmlOther => "05",
        }
    }

    /// Reads a wire code; `None` when `s` is no code of this type.
    pub fn from_code(s: &str) -> (r: Option<UiType>)
        ensures
            r == UiType::spec_from_code(s@),
    {
        if str_eq(s, "01") {
            Some(UiType::Text)
        } else if str_eq(s, "02") {
            Some(UiType::SingleSelect)
        } else if str_eq(s, "03") {
            Some(UiType::MultiSelect)
        } else if str_eq(s, "04") {
            Some(UiType::Oob)
        } else if str_eq(s, "05") {
            Some(UiType::HtmlOther)
        } else {
            None
        }
    }

    /// Reading back the wire code of a value gives the value, and a code that
    /// reads as a value is that value's code.
    pub proof fn lemma_code_roundtrip(self, s: Seq<char>)
        ensures
            UiType::spec_from_code(self.spec_code()) == Some(self),
            UiType::spec_from_code(s) == Some(self) ==> s == self.spec_code(),
    {
        reveal_strlit("01");
        reveal_strlit("02");
        reveal_strlit("03");
        reveal_strlit("04");
        reveal_strlit("05");
        match self {
            UiType::Text => {},
            UiType::SingleSelect => {
                assert("02"@[1] != "01"@[1]);
            },
            UiType::MultiSelect => {
                assert("03"@[1] != "01"@[1]);
                assert("03"@[1] != "02"@[1]);
            },
            UiType::Oob => {
                assert("04"@[1] != "01"@[1]);
                assert("04"@[1] != "02"@[1]);
                assert("04"@[1] != "03"@[1]);
            },
            UiType::HtmlOther => {
                assert("05"@[1] != "01"@[1]);
                assert("05"@[1] != "02"@[1]);
                assert("05"@[1] != "03"@[1]);
                assert("05"@[1] != "04"@[1]);
            },
        }
    }

    /// The wire code of each value, and the value that each code reads as.
    pub proof fn lemma_wire_codes()
        ensures
            UiType::Text.spec_code() == "01"@,
            UiType::spec_from_code("01"@) == Some(UiType::Text),
            UiType::SingleSelect.spec_code() == "02"@,
            UiType::spec_from_code("02"@) == Some(UiType::SingleSelect),
            UiType::MultiSelect.spec_code() == "03"@,
            UiType::spec_from_code("03"@) == Some(UiType::MultiSelect),
            UiType::Oob.spec_code() == "04"@,
            UiType::spec_from_code("04"@) == Some(UiType::Oob),
            UiType::HtmlOther.spec_code() == "05"@,
            UiType::spec_from_code("05"@) == Some(UiType::HtmlOther),
    {
        UiType::Text.lemma_code_roundtrip("01"@);
        UiType::SingleSelect.lemma_code_roundtrip("02"@);
        UiType::MultiSelect.lemma_code_roundtrip("03"@);
        UiType::Oob.lemma_code_roundtrip("04"@);
        UiType::HtmlOther.lemma_code_roundtrip("05"@);
    }
}
} // verus!
