//! Encoding and decoding of BGP NOTIFICATION messages (RFC 4271), with the
//! shutdown communication of RFC 9003.
//!
//! A notification is written and read as hex text. [`shutdown`] handles the
//! Cease notification that carries a shutdown communication, [`universal`]
//! notifications of any kind, and [`payload`] builds the data of a
//! notification from what a user typed. [`laws`] states what holds of
//! encoding and decoding together.

pub mod catalog;
pub mod decimal;
pub mod error;
pub mod hex;
pub mod laws;
pub mod payload;
pub mod records;
pub mod shutdown;
pub mod strings;
pub mod universal;
pub mod wire;

pub use catalog::{
    error_name, get_error_names, get_subcodes, interpret_data, subcode_name, BgpCeaseSubcode,
};
pub use decimal::{parse_u16_bounded, parse_u8_bounded};
pub use error::NotificationError;
pub use hex::{is_hex, parse_hex_bounded, to_hex};
pub use payload::build_payload;
pub use records::{
    DecodeResponse, EncodeRequest, EncodeResponse, UniversalDecodeResponse,
    UniversalEncodeRequest,
};
pub use shutdown::{decode_shutdown_message, encode_shutdown_message};
pub use universal::{
    create_notification_with_data, decode_universal_notification, encode_universal_notification,
};
pub use wire::validate_bgp_message;
