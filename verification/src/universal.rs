//! Notifications of any kind: an error code, a subcode, and data that are
//! taken as they are.

use crate::catalog::{
    error_name_text, get_error_names, interpret_data, interpretation, subcode_name_text,
};
use crate::error::{ErrorModel, NotificationError};
use crate::hex::{hex_text, parse_hex_bounded, parsed_hex, to_hex};
use crate::payload::{build_payload, payload};
use crate::records::{EncodeResponse, UniversalDecodeResponse, UniversalEncodeRequest};
use crate::wire::{
    extend_with, header_fault, notification_frame, start_notification, validate_bgp_message,
    BGP_HEADER_LEN, MAX_BGP_MESSAGE_LEN, MAX_DATA_LEN, MIN_NOTIFICATION_LEN,
};
use vstd::prelude::*;
use vstd::slice::slice_subrange;

verus! {

/// An error code that RFC 4271 defines.
pub open spec fn is_error_code(error_code: u8) -> bool {
    1 <= error_code <= 6
}

/// What encoding a notification gives: the bytes of the message, or the
/// reason why there is none.
///
/// Data of at most [`MAX_DATA_LEN`] bytes always fit into a message, so
/// nothing else can go wrong.
pub open spec fn notification_encoding(error_code: u8, subcode: u8, data: Seq<u8>) -> Result<
    Seq<u8>,
    ErrorModel,
> {
    if !is_error_code(error_code) {
        Err(ErrorModel::InvalidErrorCode { error_code })
    } else if data.len() > MAX_DATA_LEN {
        Err(ErrorModel::DataTooLarge { bytes: data.len() })
    } else {
        Ok(notification_frame(error_code, subcode, data))
    }
}

/// The error code, the subcode and the data that the bytes of a message
/// carry, or what is wrong with their framing.
pub open spec fn notification_of_frame(bytes: Seq<u8>) -> Result<(u8, u8, Seq<u8>), ErrorModel> {
    match header_fault(bytes) {
        Some(e) => Err(e),
        None => Ok(
            (bytes[19], bytes[20], bytes.subrange(MIN_NOTIFICATION_LEN as int, bytes.len() as int)),
        ),
    }
}

/// What decoding hex text as a notification gives.
pub open spec fn notification_decoding(text: Seq<char>) -> Result<(u8, u8, Seq<u8>), ErrorModel> {
    match parsed_hex(text, MAX_BGP_MESSAGE_LEN as nat) {
        Err(e) => Err(e),
        Ok(bytes) => notification_of_frame(bytes),
    }
}

/// What building data from text and encoding them in a notification gives.
/// The error code is checked before the data are built.
pub open spec fn built_notification(
    error_code: u8,
    subcode: u8,
    data_kind: Seq<char>,
    value: Seq<char>,
) -> Result<Seq<u8>, ErrorModel> {
    if !is_error_code(error_code) {
        Err(ErrorModel::InvalidErrorCode { error_code })
    } else {
        match payload(error_code, subcode, data_kind, value) {
            Err(e) => Err(e),
            Ok(data) => notification_encoding(error_code, subcode, data),
        }
    }
}

/// Encodes a notification.
///
/// The error code must be one of those that RFC 4271 defines, and the data
/// must fit into one message. Any subcode is taken.
pub fn encode_universal_notification(request: UniversalEncodeRequest) -> (r: Result<
    EncodeResponse,
    NotificationError,
>)
    ensures
        match notification_encoding(request.error_code, request.subcode, request.data@) {
            Ok(frame) => r matches Ok(response) && response.hex@ == hex_text(frame)
                && response.total_bytes == frame.len() && response.message_bytes
                == request.data@.len(),
            Err(e) => r matches Err(x) && x@ == e,
        },
{
    if request.error_code == 0 || request.error_code > 6 {
        return Err(NotificationError::InvalidErrorCode { error_code: request.error_code });
    }
    if request.data.len() > MAX_DATA_LEN {
        return Err(NotificationError::DataTooLarge { bytes: request.data.len() });
    }
    let total_len: usize = match BGP_HEADER_LEN.checked_add(2) {
        Some(fixed) => match fixed.checked_add(request.data.len()) {
            Some(total) => total,
            None => {
                return Err(NotificationError::MessageTooLarge);
            },
        },
        None => {
            return Err(NotificationError::MessageTooLarge);
        },
    };
    if total_len > MAX_BGP_MESSAGE_LEN {
        return Err(NotificationError::MessageTooLarge);
    }
    let mut notification = start_notification(total_len, request.error_code, request.subcode);
    extend_with(&mut notification, request.data.as_slice());
    Ok(
        EncodeResponse {
            hex: to_hex(notification.as_slice()),
            total_bytes: notification.len(),
            message_bytes: request.data.len(),
        },
    )
}

/// Decodes hex text as a notification.
///
/// The message must be framed as a notification. Any error code and
/// subcode are taken; those without a name are called unknown. Everything
/// after the subcode is data.
pub fn decode_universal_notification(hex_input: &str) -> (r: Result<
    UniversalDecodeResponse,
    NotificationError,
>)
    ensures
        match notification_decoding(hex_input@) {
            Ok((error_code, subcode, data)) => r matches Ok(response) && response.error_code
                == error_code && response.error_name@ == error_name_text(error_code)
                && response.subcode == subcode && response.subcode_name@ == subcode_name_text(
                error_code,
                subcode,
            ) && response.data_length == data.len() && response.data_hex@ == hex_text(data)
                && response.interpretation@ == interpretation(error_code, subcode, data),
            Err(e) => r matches Err(x) && x@ == e,
        },
{
    let bytes = match parse_hex_bounded(hex_input, MAX_BGP_MESSAGE_LEN) {
        Ok(bytes) => bytes,
        Err(e) => {
            return Err(e);
        },
    };
    match validate_bgp_message(bytes.as_slice()) {
        Ok(()) => {},
        Err(e) => {
            return Err(e);
        },
    }
    let error_code: u8 = bytes[19];
    let subcode: u8 = bytes[20];
    let data_bytes = slice_subrange(bytes.as_slice(), MIN_NOTIFICATION_LEN, bytes.len());
    let (error_name, subcode_name) = get_error_names(error_code, subcode);
    let interpretation = interpret_data(error_code, subcode, data_bytes);
    Ok(
        UniversalDecodeResponse {
            error_code,
            error_name,
            subcode,
            subcode_name,
            data_length: data_bytes.len(),
            data_hex: to_hex(data_bytes),
            interpretation,
        },
    )
}

/// Builds the data of a notification from a value given as text, and
/// encodes the notification.
///
/// The error code is checked first; then the data are built as
/// [`build_payload`] says.
pub fn create_notification_with_data(
    error_code: u8,
    subcode: u8,
    data_type: &str,
    data_value: &str,
) -> (r: Result<EncodeResponse, NotificationError>)
    ensures
        match built_notification(error_code, subcode, data_type@, data_value@) {
            Ok(frame) => r matches Ok(response) && response.hex@ == hex_text(frame)
                && response.total_bytes == frame.len() && response.message_bytes == frame.len()
                - MIN_NOTIFICATION_LEN,
            Err(e) => r matches Err(x) && x@ == e,
        },
{
    if error_code == 0 || error_code > 6 {
        return Err(NotificationError::InvalidErrorCode { error_code });
    }
    let data = match build_payload(error_code, subcode, data_type, data_value) {
        Ok(data) => data,
        Err(e) => {
            return Err(e);
        },
    };
    encode_universal_notification(UniversalEncodeRequest { error_code, subcode, data })
}

} // verus!
