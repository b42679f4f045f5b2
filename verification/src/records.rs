//! The records that the operations of the codec take and return.

use vstd::prelude::*;

verus! {

/// What to encode as a shutdown communication.
#[derive(Debug, PartialEq, Eq)]
pub struct EncodeRequest {
    /// The text of the communication.
    pub message: String,
    /// The Cease subcode: Administrative Shutdown or Administrative Reset.
    pub subcode: u8,
}

/// An encoded notification.
#[derive(Debug, PartialEq, Eq)]
pub struct EncodeResponse {
    /// The whole message as hex text.
    pub hex: String,
    /// The number of bytes in the whole message.
    pub total_bytes: usize,
    /// The number of bytes that the text or the data take.
    pub message_bytes: usize,
}

/// A decoded shutdown communication.
#[derive(Debug, PartialEq, Eq)]
pub struct DecodeResponse {
    /// The name of the Cease subcode.
    pub subcode: String,
    /// The Cease subcode.
    pub subcode_value: u8,
    /// The text of the communication.
    pub message: String,
}

/// What to encode as a notification of any kind.
#[derive(Debug, PartialEq, Eq)]
pub struct UniversalEncodeRequest {
    pub error_code: u8,
    pub subcode: u8,
    /// The data, which are taken as they are.
    pub data: Vec<u8>,
}

/// A decoded notification of any kind.
#[derive(Debug, PartialEq, Eq)]
pub struct UniversalDecodeResponse {
    pub error_code: u8,
    /// The name of the error code.
    pub error_name: String,
    pub subcode: u8,
    /// The name of the subcode under its error code.
    pub subcode_name: String,
    /// The number of bytes of data.
    pub data_length: usize,
    /// The data as hex text.
    pub data_hex: String,
    /// What the data mean, as a line of text.
    pub interpretation: String,
}

} // verus!
