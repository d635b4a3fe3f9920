//! EMV 3-D Secure 2.x: message model, coded protocol values and the
//! transaction state machine of the 3DS Server role.
//!
//! Covers versions 2.1.0, 2.2.0, and 2.3.0 of the EMVCo specification.
//! This crate models the **3DS Server** side: constructing AReqs, reading
//! ARes/CRes/RReq responses, and driving the transaction state machine.

pub mod error;
pub mod message;
pub mod text;
pub mod transaction;
pub mod types;

pub use error::{Error, Result};
