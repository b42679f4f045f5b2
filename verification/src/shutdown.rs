//! The Cease notification that carries a shutdown communication (RFC 9003).

use crate::catalog::{subcode_name_text, BgpCeaseSubcode};
use crate::error::{ErrorModel, NotificationError};
use crate::hex::{hex_text, parse_hex_bounded, parsed_hex, to_hex};
use crate::records::{DecodeResponse, EncodeRequest, EncodeResponse};
use crate::strings::text_of_utf8;
use crate::wire::{
    extend_with, header_fault, notification_frame, start_notification, validate_bgp_message,
    BGP_CEASE_ADMIN_RESET, BGP_CEASE_ADMIN_SHUTDOWN, BGP_ERROR_CEASE, BGP_HEADER_LEN,
    MAX_BGP_MESSAGE_LEN, MAX_SHUTDOWN_MSG_LEN, MIN_SHUTDOWN_LEN,
};
use vstd::prelude::*;
use vstd::slice::slice_subrange;
use vstd::string::*;
use vstd::utf8::*;

verus! {

/// The data of a notification that carries `text`: one byte with the
/// number of bytes that the text takes in UTF-8, then those bytes.
pub open spec fn shutdown_data(text: Seq<char>) -> Seq<u8> {
    seq![encode_utf8(text).len() as u8] + encode_utf8(text)
}

/// What encoding a shutdown communication gives: the bytes of the message,
/// or the reason why there is none.
///
/// A text of at most 255 bytes always fits into a message, so nothing else
/// can go wrong.
pub open spec fn shutdown_encoding(subcode: u8, text: Seq<char>) -> Result<Seq<u8>, ErrorModel> {
    if subcode != BGP_CEASE_ADMIN_SHUTDOWN && subcode != BGP_CEASE_ADMIN_RESET {
        Err(ErrorModel::InvalidSubcode { subcode })
    } else if encode_utf8(text).len() > MAX_SHUTDOWN_MSG_LEN {
        Err(ErrorModel::MessageTooLong { bytes: encode_utf8(text).len() })
    } else {
        Ok(notification_frame(BGP_ERROR_CEASE, subcode, shutdown_data(text)))
    }
}

/// The subcode and the text that the bytes of a message carry as a
/// shutdown communication, or the first reason why they carry none.
pub open spec fn shutdown_of_frame(bytes: Seq<u8>) -> Result<(u8, Seq<char>), ErrorModel> {
    if header_fault(bytes) is Some {
        Err(header_fault(bytes).unwrap())
    } else if bytes[19] != BGP_ERROR_CEASE {
        Err(ErrorModel::NotCeaseError { error_code: bytes[19] })
    } else if bytes[20] != BGP_CEASE_ADMIN_SHUTDOWN && bytes[20] != BGP_CEASE_ADMIN_RESET {
        Err(ErrorModel::UnknownSubcode { subcode: bytes[20] })
    } else if bytes.len() < MIN_SHUTDOWN_LEN {
        Err(ErrorModel::MissingLengthByte)
    } else if bytes.len() != MIN_SHUTDOWN_LEN + bytes[21] {
        Err(
            ErrorModel::TextLengthMismatch {
                expected: (MIN_SHUTDOWN_LEN + bytes[21]) as nat,
                actual: bytes.len(),
            },
        )
    } else if !valid_utf8(bytes.subrange(MIN_SHUTDOWN_LEN as int, bytes.len() as int)) {
        Err(ErrorModel::InvalidUtf8)
    } else {
        Ok((bytes[20], decode_utf8(bytes.subrange(MIN_SHUTDOWN_LEN as int, bytes.len() as int))))
    }
}

/// What decoding hex text as a shutdown communication gives.
pub open spec fn shutdown_decoding(text: Seq<char>) -> Result<(u8, Seq<char>), ErrorModel> {
    match parsed_hex(text, MAX_BGP_MESSAGE_LEN as nat) {
        Err(e) => Err(e),
        Ok(bytes) => shutdown_of_frame(bytes),
    }
}

/// Encodes a shutdown communication as a Cease notification.
///
/// The subcode must be Administrative Shutdown or Administrative Reset, and
/// the text may take at most 255 bytes in UTF-8.
pub fn encode_shutdown_message(request: EncodeRequest) -> (r: Result<
    EncodeResponse,
    NotificationError,
>)
    ensures
        match shutdown_encoding(request.subcode, request.message@) {
            Ok(frame) => r matches Ok(response) && response.hex@ == hex_text(frame)
                && response.total_bytes == frame.len() && response.message_bytes == encode_utf8(
                request.message@,
            ).len(),
            Err(e) => r matches Err(x) && x@ == e,
        },
{
    if BgpCeaseSubcode::from_u8(request.subcode).is_none() {
        return Err(NotificationError::InvalidSubcode { subcode: request.subcode });
    }
    let utf8_bytes = request.message.as_str().as_bytes();
    if utf8_bytes.len() > MAX_SHUTDOWN_MSG_LEN {
        return Err(NotificationError::MessageTooLong { bytes: utf8_bytes.len() });
    }
    let data_len: usize = utf8_bytes.len() + 1;
    let total_len: usize = match BGP_HEADER_LEN.checked_add(2) {
        Some(fixed) => match fixed.checked_add(data_len) {
            Some(total) => total,
            None => {
                return Err(NotificationError::MessageTooLarge);
            },
        },
        None => {
            return Err(NotificationError::MessageTooLarge);
        },
    };
    if total_len > MAX_BGP_MESSAGE_LEN {
        return Err(NotificationError::MessageTooLarge);
    }
    let mut message = start_notification(total_len, BGP_ERROR_CEASE, request.subcode);
    message.push(utf8_bytes.len() as u8);
    extend_with(&mut message, utf8_bytes);
    assert(message@ =~= notification_frame(
        BGP_ERROR_CEASE,
        request.subcode,
        shutdown_data(request.message@),
    ));
    Ok(
        EncodeResponse {
            hex: to_hex(message.as_slice()),
            total_bytes: message.len(),
            message_bytes: utf8_bytes.len(),
        },
    )
}

/// Decodes hex text as a Cease notification that carries a shutdown
/// communication.
///
/// The message must be framed as a notification, carry the error code
/// Cease with the subcode Administrative Shutdown or Administrative Reset,
/// and after them one byte with the length of a text and exactly that many
/// bytes of well-formed UTF-8.
pub fn decode_shutdown_message(hex_input: &str) -> (r: Result<DecodeResponse, NotificationError>)
    ensures
        match shutdown_decoding(hex_input@) {
            Ok((subcode, text)) => r matches Ok(response) && response.subcode_value == subcode
                && response.subcode@ == subcode_name_text(BGP_ERROR_CEASE, subcode)
                && response.message@ == text,
            Err(e) => r matches Err(x) && x@ == e,
        },
{
    let bytes = match parse_hex_bounded(hex_input, MAX_BGP_MESSAGE_LEN) {
        Ok(bytes) => bytes,
        Err(e) => {
            return Err(e);
        },
    };
    match validate_bgp_message(bytes.as_slice()) {
        Ok(()) => {},
        Err(e) => {
            return Err(e);
        },
    }
    let error_code: u8 = bytes[19];
    if error_code != BGP_ERROR_CEASE {
        return Err(NotificationError::NotCeaseError { error_code });
    }
    let subcode: u8 = bytes[20];
    let subcode_enum = match BgpCeaseSubcode::from_u8(subcode) {
        Some(known) => known,
        None => {
            return Err(NotificationError::UnknownSubcode { subcode });
        },
    };
    if bytes.len() < MIN_SHUTDOWN_LEN {
        return Err(NotificationError::MissingLengthByte);
    }
    let text_length: usize = bytes[21] as usize;
    let expected_total: usize = MIN_SHUTDOWN_LEN + text_length;
    if bytes.len() != expected_total {
        return Err(
            NotificationError::TextLengthMismatch { expected: expected_total, actual: bytes.len() },
        );
    }
    let message = match text_of_utf8(
        slice_subrange(bytes.as_slice(), MIN_SHUTDOWN_LEN, expected_total),
    ) {
        Some(text) => text,
        None => {
            return Err(NotificationError::InvalidUtf8);
        },
    };
    Ok(
        DecodeResponse {
            subcode: subcode_enum.as_str().to_owned(),
            subcode_value: subcode,
            message,
        },
    )
}

} // verus!
