//! Preparation Response (PRes).

use crate::text::{bytes_le, str_eq, str_le};
use crate::types::{ActionIndicator, MessageVersion};
use vstd::prelude::*;
use vstd::utf8::encode_utf8;

verus! {

/// EMV 3DS Preparation Response (PRes).
///
/// Returned by the Directory Server with card range data and supported protocol
/// versions. The 3DS Server uses `cardRangeData` to look up the ACS URL and
/// the protocol version range for a given PAN.
#[derive(Debug, Clone)]
pub struct PreparationResponse {
    pub message_type: MessageType,
    pub message_version: MessageVersion,
    pub three_ds_server_trans_id: String,
    pub ds_trans_id: Option<String>,
    pub serial_num: Option<String>,
    pub ds_reference_number: Option<String>,
    pub ds_start_protocol_version: String,
    pub ds_end_protocol_version: String,
    pub card_range_data: Vec<CardRangeData>,
}

/// `pan` lies in the card range `r`: `startRange <= pan <= endRange`, in the
/// order of Rust strings (by their UTF-8 bytes).
pub open spec fn pan_in_range(pan: Seq<char>, r: CardRangeData) -> bool {
    bytes_le(encode_utf8(r.start_range@), encode_utf8(pan))
        && bytes_le(encode_utf8(pan), encode_utf8(r.end_range@))
}

/// A PAN lies in a card range when it is at least the range's start and at most
/// its end, both bounds included, comparing UTF-8 bytes lexicographically.
pub proof fn lemma_pan_in_range(pan: Seq<char>, r: CardRangeData)
    ensures
        pan_in_range(pan, r) <==> (bytes_le(encode_utf8(r.start_range@), encode_utf8(pan))
            && bytes_le(encode_utf8(pan), encode_utf8(r.end_range@))),
{
}

impl PreparationResponse {
    /// Return the card range entry that covers `pan`, if any: the first one in
    /// `card_range_data`.
    pub fn range_for_pan(&self, pan: &str) -> (r: Option<&CardRangeData>)
        ensures
            match r {
                Some(found) => exists|i: int|
                    0 <= i < self.card_range_data@.len()
                        && *found == self.card_range_data@[i]
                        && pan_in_range(pan@, self.card_range_data@[i])
                        && forall|j: int| 0 <= j < i ==> !pan_in_range(pan@, #[trigger] self.card_range_data@[j]),
                None => forall|j: int|
                    0 <= j < self.card_range_data@.len() ==> !pan_in_range(pan@, #[trigger] self.card_range_data@[j]),
            },
    {
        let n = self.card_range_data.len();
        let mut i: usize = 0;
        while i < n
            invariant
                n == self.card_range_data@.len(),
                i <= n,
                forall|j: int| 0 <= j < i ==> !pan_in_range(pan@, #[trigger] self.card_range_data@[j]),
            decreases n - i,
        {
            let r = &self.card_range_data[i];
            if str_le(r.start_range.as_str(), pan) && str_le(pan, r.end_range.as_str()) {
                return Some(r);
            }
            i = i + 1;
        }
        None
    }
}

/// A single BIN-range entry returned in a PRes payload.
#[derive(Debug, Clone)]
pub struct CardRangeData {
    pub start_range: String,
    pub end_range: String,
    pub action_ind: ActionIndicator,
    pub acs_start_protocol_version: String,
    pub acs_end_protocol_version: String,
    pub three_ds_method_url: Option<String>,
    pub ds_start_protocol_version: Option<String>,
    pub ds_end_protocol_version: Option<String>,
    pub ds_trans_id: Option<String>,
    pub acs_info_ind: Option<Vec<String>>,
}

/// The "PRes" literal of the messageType field.
#[derive(Debug, Clone, Copy, PartialEq, Eq, Hash, Structural)]
pub enum MessageType {
    PRes,
}

impl MessageType {
    /// The wire code of this value.
    pub open spec fn spec_code(self) -> Seq<char> {
        match self {
            MessageType::PRes => "PRes"@,
        }
    }

    /// The value whose wire code is `s`, if any.
    pub open spec fn spec_from_code(s: Seq<char>) -> Option<MessageType> {
        if s == "PRes"@ {
            Some(MessageType::PRes)
        } else {
            None
        }
    }

    /// The wire code of this value, as it stands in a message.
    pub fn code(self) -> (r: &'static str)
        ensures
            r@ == self.spec_code(),
    {
        match self {
            MessageType::PRes => "PRes",
        }
    }

    /// Reads a wire code; `None` when `s` is no code of this type.
    pub fn from_code(s: &str) -> (r: Option<MessageType>)
        ensures
            r == MessageType::spec_from_code(s@),
    {
        if str_eq(s, "PRes") {
            Some(MessageType::PRes)
        } else {
            None
        }
    }

    /// Reading back the wire code of a value gives the value, and a code that
    /// reads as a value is that value's code.
    pub proof fn lemma_code_roundtrip(self, s: Seq<char>)
        ensures
            MessageType::spec_from_code(self.spec_code()) == Some(self),
            MessageType::spec_from_code(s) == Some(self) ==> s == self.spec_code(),
    {
        reveal_strlit("PRes");
    }

    /// The wire code of each value, and the value that each code reads as.
    pub proof fn lemma_wire_codes()
        ensures
            MessageType::PRes.spec_code() == "PRes"@,
            MessageType::spec_from_code("PRes"@) == Some(MessageType::PRes),
    {
        MessageType::PRes.lemma_code_roundtrip("PRes"@);
    }
}
} // verus!
