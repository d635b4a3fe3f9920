//! Card and account data of an authentication request.

use crate::text::str_eq;
use crate::types::coded::SuspiciousAccActivity;
use vstd::prelude::*;

verus! {

/// Type of account being used for the transaction.
#[derive(Debug, Clone, Copy, PartialEq, Eq, Hash, Structural)]
pub enum AccountType {
    NotApplicable,
    Credit,
    Debit,
}

impl AccountType {
    /// The wire code of this value.
    pub open spec fn spec_code(self) -> Seq<char> {
        match self {
            AccountType::NotApplicable => "01"@,
            AccountType::Credit => "02"@,
            AccountType::Debit => "03"@,
        }
    }

    /// The value whose wire code is `s`, if any.
    pub open spec fn spec_from_code(s: Seq<char>) -> Option<AccountType> {
        if s == "01"@ {
            Some(AccountType::NotApplicable)
        } else if s == "02"@ {
            Some(AccountType::Credit)
        } else if s == "03"@ {
            Some(AccountType::Debit)
        } else {
            None
        }
    }

    /// The wire code of this value, as it stands in a message.
    pub fn code(self) -> (r: &'static str)
        ensures
            r@ == self.spec_code(),
    {
        match self {
            AccountType::NotApplicable => "01",
            AccountType::Credit => "02",
            AccountType::Debit => "03",
        }
    }

    /// Reads a wire code; `None` when `s` is no code of this type.
    pub fn from_code(s: &str) -> (r: Option<AccountType>)
        ensures
            r == AccountType::spec_from_code(s@),
    {
        if str_eq(s, "01") {
            Some(AccountType::NotApplicable)
        } else if str_eq(s, "02") {
            Some(AccountType::Credit)
        } else if str_eq(s, "03") {
            Some(AccountType::Debit)
        } else {
            None
        }
    }

    /// Reading back the wire code of a value gives the value, and a code that
    /// reads as a value is that value's code.
    pub proof fn lemma_code_roundtrip(self, s: Seq<char>)
        ensures
            AccountType::spec_from_code(self.spec_code()) == Some(self),
            AccountType::spec_from_code(s) == Some(self) ==> s == self.spec_code(),
    {
        reveal_strlit("01");
        reveal_strlit("02");
        reveal_strlit("03");
        match self {
            AccountType::NotApplicable => {},
            AccountType::Credit => {
                assert("02"@[1] != "01"@[1]);
            },
            AccountType::Debit => {
                assert("03"@[1] != "01"@[1]);
                assert("03"@[1] != "02"@[1]);
            },
        }
    }

    /// The wire code of each value, and the value that each code reads as.
    pub proof fn lemma_wire_codes()
        ensures
            AccountType::NotApplicable.spec_code() == "01"@,
            AccountType::spec_from_code("01"@) == Some(AccountType::NotApplicable),
            AccountType::Credit.spec_code() == "02"@,
            AccountType::spec_from_code("02"@) == Some(AccountType::Credit),
            AccountType::Debit.spec_code() == "03"@,
            AccountType::spec_from_code("03"@) == Some(AccountType::Debit),
    {
        AccountType::NotApplicable.lemma_code_roundtrip("01"@);
        AccountType::Credit.lemma_code_roundtrip("02"@);
        AccountType::Debit.lemma_code_roundtrip("03"@);
    }
}

/// Cardholder account information used for risk assessment.
#[derive(Debug, Clone, Default)]
pub struct AccountInfo {
    /// Length of time that the cardholder has had the account (01–04).
    pub ch_acc_age_ind: Option<String>,
    /// Date that the cardholder opened the account (YYYYMMDD).
    pub ch_acc_date: Option<String>,
    /// Length of time since the last change to the account (01–04).
    pub ch_acc_change_ind: Option<String>,
    /// Date the last account change occurred (YYYYMMDD).
    pub ch_acc_change: Option<String>,
    /// Length of time since the password last changed (01–04).
    pub ch_acc_pw_change_ind: Option<String>,
    /// Number of transactions in the past 24 hours.
    pub nb_purchase_account: Option<String>,
    /// Number of add-card attempts in the past 24 hours.
    pub provision_attempts_day: Option<String>,
    /// Number of transactions in the past year.
    pub txn_activity_year: Option<String>,
    /// Number of transactions in the previous 6 months.
    pub txn_activity_day: Option<String>,
    /// Date that the shipping address was first used (YYYYMMDD).
    pub ship_address_usage: Option<String>,
    /// Indicator for when the shipping address was first used (01–04).
    pub ship_address_usage_ind: Option<ShippingAddressUsage>,
    /// Name on account vs shipping name match indicator.
    pub ship_name_indicator: Option<String>,
    pub suspicious_acc_activity: Option<SuspiciousAccActivity>,
}

/// BIN range for card identification.
#[derive(Debug, Clone, PartialEq, Eq)]
pub struct CardRange {
    pub start_acct_range: String,
    pub end_acct_range: String,
}

/// When the shipping address used for this transaction was first used.
#[derive(Debug, Clone, Copy, PartialEq, Eq, Hash, Structural)]
pub enum ShippingAddressUsage {
    ThisTransaction,
    LessThan30Days,
    ThirtyTo60Days,
    MoreThan60Days,
}

impl ShippingAddressUsage {
    /// The wire code of this value.
    pub open spec fn spec_code(self) -> Seq<char> {
        match self {
            ShippingAddressUsage::ThisTransaction => "01"@,
            ShippingAddressUsage::LessThan30Days => "02"@,
            ShippingAddressUsage::ThirtyTo60Days => "03"@,
            ShippingAddressUsage::MoreThan60Days => "04"@,
        }
    }

    /// The value whose wire code is `s`, if any.
    pub open spec fn spec_from_code(s: Seq<char>) -> Option<ShippingAddressUsage> {
        if s == "01"@ {
            Some(ShippingAddressUsage::ThisTransaction)
        } else if s == "02"@ {
            Some(ShippingAddressUsage::LessThan30Days)
        } else if s == "03"@ {
            Some(ShippingAddressUsage::ThirtyTo60Days)
        } else if s == "04"@ {
            Some(ShippingAddressUsage::MoreThan60Days)
        } else {
            None
        }
    }

    /// The wire code of this value, as it stands in a message.
    pub fn code(self) -> (r: &'static str)
        ensures
            r@ == self.spec_code(),
    {
        match self {
            ShippingAddressUsage::ThisTransaction => "01",
            ShippingAddressUsage::LessThan30Days => "02",
            ShippingAddressUsage::ThirtyTo60Days => "03",
            ShippingAddressUsage::MoreThan60Days => "04",
        }
    }

    /// Reads a wire code; `None` when `s` is no code of this type.
    pub fn from_code(s: &str) -> (r: Option<ShippingAddressUsage>)
        ensures
            r == ShippingAddressUsage::spec_from_code(s@),
    {
        if str_eq(s, "01") {
            Some(ShippingAddressUsage::ThisTransaction)
        } else if str_eq(s, "02") {
            Some(ShippingAddressUsage::LessThan30Days)
        } else if str_eq(s, "03") {
            Some(ShippingAddressUsage::ThirtyTo60Days)
        } else if str_eq(s, "04") {
            Some(ShippingAddressUsage::MoreThan60Days)
        } else {
            None
        }
    }

    /// Reading back the wire code of a value gives the value, and a code that
    /// reads as a value is that value's code.
    pub proof fn lemma_code_roundtrip(self, s: Seq<char>)
        ensures
            ShippingAddressUsage::spec_from_code(self.spec_code()) == Some(self),
            ShippingAddressUsage::spec_from_code(s) == Some(self) ==> s == self.spec_code(),
    {
        reveal_strlit("01");
        reveal_strlit("02");
        reveal_strlit("03");
        reveal_strlit("04");
        match self {
            ShippingAddressUsage::ThisTransaction => {},
            ShippingAddressUsage::LessThan30Days => {
                assert("02"@[1] != "01"@[1]);
            },
            ShippingAddressUsage::ThirtyTo60Days => {
                assert("03"@[1] != "01"@[1]);
                assert("03"@[1] != "02"@[1]);
            },
            ShippingAddressUsage::MoreThan60Days => {
                assert("04"@[1] != "01"@[1]);
                assert("04"@[1] != "02"@[1]);
                assert("04"@[1] != "03"@[1]);
            },
        }
    }

    /// The wire code of each value, and the value that each code reads as.
    pub proof fn lemma_wire_codes()
        ensures
            ShippingAddressUsage::ThisTransaction.spec_code() == "01"@,
            ShippingAddressUsage::spec_from_code("01"@) == Some(ShippingAddressUsage::ThisTransaction),
            ShippingAddressUsage::LessThan30Days.spec_code() == "02"@,
            ShippingAddressUsage::spec_from_code("02"@) == Some(ShippingAddressUsage::LessThan30Days),
            ShippingAddressUsage::ThirtyTo60Days.spec_code() == "03"@,
            ShippingAddressUsage::spec_from_code("03"@) == Some(ShippingAddressUsage::ThirtyTo60Days),
            ShippingAddressUsage::MoreThan60Days.spec_code() == "04"@,
            ShippingAddressUsage::spec_from_code("04"@) == Some(ShippingAddressUsage::MoreThan60Days),
    {
        ShippingAddressUsage::ThisTransaction.lemma_code_roundtrip("01"@);
        ShippingAddressUsage::LessThan30Days.lemma_code_roundtrip("02"@);
        ShippingAddressUsage::ThirtyTo60Days.lemma_code_roundtrip("03"@);
        ShippingAddressUsage::MoreThan60Days.lemma_code_roundtrip("04"@);
    }
}
} // verus!
