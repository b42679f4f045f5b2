//! Building the data of a notification from text that a user typed.

use crate::decimal::{parse_u16_bounded, parse_u8_bounded, parsed_bounded};
use crate::error::{ErrorModel, NotificationError};
use crate::hex::{parse_hex_bounded, parsed_hex};
use crate::shutdown::shutdown_data;
use crate::strings::same_text;
use crate::wire::{extend_with, MAX_DATA_LEN, MAX_SHUTDOWN_MSG_LEN};
use vstd::prelude::*;
use vstd::string::*;
use vstd::utf8::*;

verus! {

/// A number as the two bytes of a field, the high one first.
pub open spec fn two_byte_field(number: Result<nat, ErrorModel>) -> Result<Seq<u8>, ErrorModel> {
    match number {
        Ok(n) => Ok(seq![(n / 256) as u8, (n % 256) as u8]),
        Err(e) => Err(e),
    }
}

/// A number as the one byte of a field.
pub open spec fn one_byte_field(number: Result<nat, ErrorModel>) -> Result<Seq<u8>, ErrorModel> {
    match number {
        Ok(n) => Ok(seq![n as u8]),
        Err(e) => Err(e),
    }
}

/// The data that `value` stands for under an error code and subcode, where
/// `data_kind` says how to read it:
///
/// - `length` under a bad message length: a number up to 65535, in two bytes;
/// - `type` under a bad message type: a number up to 255, in one byte;
/// - `version` under an unsupported version: a number from 1 to 255, in two bytes;
/// - `attribute` under a missing well-known attribute: a number from 1 to
///   255, in one byte;
/// - `message_type` under an unexpected message in one of the three
///   states: a number from 1 to 5, in one byte;
/// - `message` under an administrative shutdown or reset: a text of at most
///   255 bytes, after a byte that gives its length;
/// - `hex` under any error: the bytes that the hex text stands for.
///
/// Anything else has no data: an empty value gives none, any other value
/// is refused.
pub open spec fn payload(error_code: u8, subcode: u8, data_kind: Seq<char>, value: Seq<char>)
    -> Result<Seq<u8>, ErrorModel> {
    if error_code == 1 && subcode == 2 && data_kind == "length"@ {
        two_byte_field(parsed_bounded(value, 0, 65535, "length"@))
    } else if error_code == 1 && subcode == 3 && data_kind == "type"@ {
        one_byte_field(parsed_bounded(value, 0, 255, "message type"@))
    } else if error_code == 2 && subcode == 1 && data_kind == "version"@ {
        two_byte_field(parsed_bounded(value, 1, 255, "BGP version"@))
    } else if error_code == 3 && subcode == 3 && data_kind == "attribute"@ {
        one_byte_field(parsed_bounded(value, 1, 255, "attribute type"@))
    } else if error_code == 5 && 1 <= subcode <= 3 && data_kind == "message_type"@ {
        one_byte_field(parsed_bounded(value, 1, 5, "message type"@))
    } else if error_code == 6 && (subcode == 2 || subcode == 4) && data_kind == "message"@ {
        if encode_utf8(value).len() > MAX_SHUTDOWN_MSG_LEN {
            Err(ErrorModel::MessageTooLong { bytes: encode_utf8(value).len() })
        } else {
            Ok(shutdown_data(value))
        }
    } else if data_kind == "hex"@ {
        parsed_hex(value, MAX_DATA_LEN as nat)
    } else if value.len() == 0 {
        Ok(Seq::empty())
    } else {
        Err(ErrorModel::UnsupportedDataKind)
    }
}

/// The data never outgrow one notification.
pub proof fn lemma_payload_fits(
    error_code: u8,
    subcode: u8,
    data_kind: Seq<char>,
    value: Seq<char>,
)
    ensures
        payload(error_code, subcode, data_kind, value) matches Ok(data) ==> data.len()
            <= MAX_DATA_LEN,
{
}

fn two_bytes(number: Result<u16, NotificationError>) -> (r: Result<Vec<u8>, NotificationError>)
    ensures
        match number {
            Ok(n) => r matches Ok(data) && data@ == seq![(n / 256) as u8, (n % 256) as u8],
            Err(e) => r matches Err(x) && x@ == e@,
        },
{
    match number {
        Ok(n) => {
            let mut data: Vec<u8> = Vec::with_capacity(2);
            data.push((n / 256) as u8);
            data.push((n % 256) as u8);
            Ok(data)
        },
        Err(e) => Err(e),
    }
}

fn one_byte(number: Result<u8, NotificationError>) -> (r: Result<Vec<u8>, NotificationError>)
    ensures
        match number {
            Ok(n) => r matches Ok(data) && data@ == seq![n],
            Err(e) => r matches Err(x) && x@ == e@,
        },
{
    match number {
        Ok(n) => {
            let mut data: Vec<u8> = Vec::with_capacity(1);
            data.push(n);
            Ok(data)
        },
        Err(e) => Err(e),
    }
}

/// Builds the data of a notification from a value given as text.
///
/// `data_type` says how to read `data_value` under the error code and
/// subcode. A number that is malformed or out of its range, a text or hex
/// text that is too long, and a value where no data are expected are all
/// refused.
pub fn build_payload(error_code: u8, subcode: u8, data_type: &str, data_value: &str) -> (r: Result<
    Vec<u8>,
    NotificationError,
>)
    ensures
        match payload(error_code, subcode, data_type@, data_value@) {
            Ok(data) => r matches Ok(v) && v@ == data,
            Err(e) => r matches Err(x) && x@ == e,
        },
{
    if error_code == 1 && subcode == 2 && same_text(data_type, "length") {
        two_bytes(parse_u16_bounded(data_value, 0, 65535, "length"))
    } else if error_code == 1 && subcode == 3 && same_text(data_type, "type") {
        one_byte(parse_u8_bounded(data_value, 0, 255, "message type"))
    } else if error_code == 2 && subcode == 1 && same_text(data_type, "version") {
        two_bytes(parse_u16_bounded(data_value, 1, 255, "BGP version"))
    } else if error_code == 3 && subcode == 3 && same_text(data_type, "attribute") {
        one_byte(parse_u8_bounded(data_value, 1, 255, "attribute type"))
    } else if error_code == 5 && 1 <= subcode && subcode <= 3 && same_text(
        data_type,
        "message_type",
    ) {
        one_byte(parse_u8_bounded(data_value, 1, 5, "message type"))
    } else if error_code == 6 && (subcode == 2 || subcode == 4) && same_text(
        data_type,
        "message",
    ) {
        let utf8_bytes = data_value.as_bytes();
        if utf8_bytes.len() > MAX_SHUTDOWN_MSG_LEN {
            return Err(NotificationError::MessageTooLong { bytes: utf8_bytes.len() });
        }
        let mut data: Vec<u8> = Vec::with_capacity(utf8_bytes.len() + 1);
        data.push(utf8_bytes.len() as u8);
        extend_with(&mut data, utf8_bytes);
        Ok(data)
    } else if same_text(data_type, "hex") {
        parse_hex_bounded(data_value, MAX_DATA_LEN)
    } else if data_value.is_empty() {
        Ok(Vec::new())
    } else {
        Err(NotificationError::UnsupportedDataKind)
    }
}

} // verus!
