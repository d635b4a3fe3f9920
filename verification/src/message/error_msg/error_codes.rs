//! Well-known EMVCo error codes.

use vstd::prelude::*;

verus! {

pub const INVALID_FORMAT: &'static str = "101";
pub const INVALID_FORMAT_CRITICAL: &'static str = "102";
pub const REQUIRED_ELEMENT_MISSING: &'static str = "201";
pub const CRITICAL_ELEMENT_MISSING: &'static str = "202";
pub const FORMAT_VIOLATION: &'static str = "203";
pub const DUPLICATE_ELEMENT: &'static str = "301";
pub const TRANSACTION_TIMED_OUT: &'static str = "402";
pub const TRANSACTION_TIMED_OUT_DECOUPLED: &'static str = "403";
pub const ACCESS_DENIED: &'static str = "404";
pub const UNKNOWN_PROTOCOL_ELEMENT: &'static str = "405";
pub const SYSTEM_ERROR: &'static str = "500";

} // verus!
