//! What holds of encoding and decoding together.

use crate::catalog::interpretation;
use crate::decimal::{decimal_text, lemma_decimal_round_trip};
use crate::error::ErrorModel;
use crate::hex::{hex_text, lemma_hex_round_trip, parsed_hex, significant};
use crate::payload::payload;
use crate::shutdown::{shutdown_data, shutdown_decoding, shutdown_encoding};
use crate::universal::{
    built_notification, is_error_code, notification_decoding, notification_encoding,
};
use crate::wire::{
    declared_length, header_fault, lemma_frame_is_valid, marker_is_set, notification_frame,
    BGP_CEASE_ADMIN_RESET, BGP_CEASE_ADMIN_SHUTDOWN, BGP_ERROR_CEASE, BGP_NOTIFICATION,
    MAX_BGP_MESSAGE_LEN, MAX_DATA_LEN, MAX_SHUTDOWN_MSG_LEN, MIN_NOTIFICATION_LEN,
};
use vstd::prelude::*;
use vstd::utf8::*;

verus! {

/// A shutdown communication is refused exactly when its subcode is neither
/// Administrative Shutdown nor Administrative Reset, or its text takes more
/// than 255 bytes in UTF-8.
pub proof fn lemma_shutdown_refused_iff(subcode: u8, text: Seq<char>)
    ensures
        shutdown_encoding(subcode, text) is Err <==> (subcode != BGP_CEASE_ADMIN_SHUTDOWN && subcode
            != BGP_CEASE_ADMIN_RESET) || encode_utf8(text).len() > MAX_SHUTDOWN_MSG_LEN,
{
}

/// Decoding the hex text of an encoded shutdown communication gives back
/// the subcode and the text.
pub proof fn lemma_shutdown_round_trip(subcode: u8, text: Seq<char>)
    requires
        subcode == BGP_CEASE_ADMIN_SHUTDOWN || subcode == BGP_CEASE_ADMIN_RESET,
        encode_utf8(text).len() <= MAX_SHUTDOWN_MSG_LEN,
    ensures
        shutdown_encoding(subcode, text) matches Ok(frame) && shutdown_decoding(hex_text(frame))
            == Ok::<(u8, Seq<char>), ErrorModel>((subcode, text)),
{
    let data = shutdown_data(text);
    let frame = notification_frame(BGP_ERROR_CEASE, subcode, data);
    lemma_hex_round_trip(frame, MAX_BGP_MESSAGE_LEN as nat);
    assert(frame.subrange(22, frame.len() as int) == encode_utf8(text));
    encode_utf8_valid_utf8(text);
    encode_utf8_decode_utf8(text);
}

/// Decoding the hex text of an encoded notification gives back the error
/// code, the subcode and the data.
pub proof fn lemma_notification_round_trip(error_code: u8, subcode: u8, data: Seq<u8>)
    requires
        is_error_code(error_code),
        data.len() <= MAX_DATA_LEN,
    ensures
        notification_encoding(error_code, subcode, data) matches Ok(frame) && notification_decoding(
            hex_text(frame),
        ) == Ok::<(u8, u8, Seq<u8>), ErrorModel>((error_code, subcode, data)),
{
    let frame = notification_frame(error_code, subcode, data);
    lemma_frame_is_valid(error_code, subcode, data);
    lemma_hex_round_trip(frame, MAX_BGP_MESSAGE_LEN as nat);
}

/// The bytes are not framed as a notification: there are too few or too
/// many of them, the marker is wrong, the declared length is not the number
/// of bytes, or the type is not NOTIFICATION.
pub open spec fn is_misframed(bytes: Seq<u8>) -> bool {
    ||| bytes.len() < MIN_NOTIFICATION_LEN
    ||| bytes.len() > MAX_BGP_MESSAGE_LEN
    ||| !marker_is_set(bytes)
    ||| declared_length(bytes) != bytes.len()
    ||| bytes[18] != BGP_NOTIFICATION
}

/// The validation of the header finds a fault exactly in the bytes that are
/// not framed as a notification.
pub proof fn lemma_header_fault_iff_misframed(bytes: Seq<u8>)
    ensures
        header_fault(bytes) is Some <==> is_misframed(bytes),
{
}

/// Hex text that does not parse, and hex text for bytes that are not
/// framed as a notification, is refused by both decoders.
pub proof fn lemma_misframed_is_refused(text: Seq<char>)
    requires
        match parsed_hex(text, MAX_BGP_MESSAGE_LEN as nat) {
            Ok(bytes) => is_misframed(bytes),
            Err(_) => true,
        },
    ensures
        notification_decoding(text) is Err,
        shutdown_decoding(text) is Err,
{
}

/// Hex text with more digits than the longest message takes is refused by
/// both decoders.
pub proof fn lemma_oversized_is_refused(text: Seq<char>)
    requires
        significant(text).len() > 2 * MAX_BGP_MESSAGE_LEN,
    ensures
        notification_decoding(text) is Err,
        shutdown_decoding(text) is Err,
{
}

/// The decoder for notifications of any kind refuses nothing else: from
/// hex text for bytes that are framed as a notification it reads the error
/// code, the subcode and the data.
pub proof fn lemma_well_framed_is_decoded(text: Seq<char>, bytes: Seq<u8>)
    requires
        parsed_hex(text, MAX_BGP_MESSAGE_LEN as nat) == Ok::<Seq<u8>, ErrorModel>(bytes),
        !is_misframed(bytes),
    ensures
        notification_decoding(text) == Ok::<(u8, u8, Seq<u8>), ErrorModel>(
            (bytes[19], bytes[20], bytes.subrange(MIN_NOTIFICATION_LEN as int, bytes.len() as int)),
        ),
{
}

/// A bad message length that was built from a number written in decimal is
/// interpreted as that number.
pub proof fn lemma_length_is_interpreted(n: nat)
    requires
        n <= 65535,
    ensures
        payload(1, 2, "length"@, decimal_text(n)) matches Ok(data) && interpretation(1, 2, data)
            == "Bad message length: "@ + decimal_text(n) + " (valid range: 19-4096)"@,
{
    lemma_decimal_round_trip(n, 0, 65535, "length"@);
}

/// Building a notification from the text of a shutdown communication gives
/// what encoding that shutdown communication gives.
pub proof fn lemma_built_message_is_shutdown(subcode: u8, text: Seq<char>)
    requires
        subcode == BGP_CEASE_ADMIN_SHUTDOWN || subcode == BGP_CEASE_ADMIN_RESET,
    ensures
        built_notification(BGP_ERROR_CEASE, subcode, "message"@, text) == shutdown_encoding(
            subcode,
            text,
        ),
{
}

} // verus!
