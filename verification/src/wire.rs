//! The frame of a NOTIFICATION message: marker, length, type, error code,
//! subcode and data.

use crate::error::{ErrorModel, NotificationError};
use vstd::prelude::*;

verus! {

/// Bytes in the header of every BGP message: marker, length and type.
pub const BGP_HEADER_LEN: usize = 19;

/// Bytes in the marker that opens every BGP message.
pub const BGP_MARKER_LEN: usize = 16;

/// The message type of a NOTIFICATION.
pub const BGP_NOTIFICATION: u8 = 3;

/// The error code Cease.
pub const BGP_ERROR_CEASE: u8 = 6;

/// The Cease subcode Administrative Shutdown.
pub const BGP_CEASE_ADMIN_SHUTDOWN: u8 = 2;

/// The Cease subcode Administrative Reset.
pub const BGP_CEASE_ADMIN_RESET: u8 = 4;

/// The most bytes that the text of a shutdown communication may take.
pub const MAX_SHUTDOWN_MSG_LEN: usize = 255;

/// Bytes in a notification without data: header, error code and subcode.
pub const MIN_NOTIFICATION_LEN: usize = 21;

/// Bytes in a shutdown communication with an empty text: a notification
/// without data, and the byte that gives the length of the text.
pub const MIN_SHUTDOWN_LEN: usize = 22;

/// The most bytes that any BGP message may have.
pub const MAX_BGP_MESSAGE_LEN: usize = 4096;

/// The most bytes of data that fit into one notification.
pub const MAX_DATA_LEN: usize = 4075;

/// The first sixteen bytes are all `0xff`.
pub open spec fn marker_is_set(bytes: Seq<u8>) -> bool
    recommends
        bytes.len() >= BGP_MARKER_LEN,
{
    forall|i: int| 0 <= i < BGP_MARKER_LEN ==> #[trigger] bytes[i] == 0xff
}

/// The number that two bytes stand for, the high one first.
pub open spec fn big_endian_u16(high: u8, low: u8) -> nat {
    (256 * high + low) as nat
}

/// The length that the header of a message declares.
pub open spec fn declared_length(bytes: Seq<u8>) -> nat
    recommends
        bytes.len() >= BGP_HEADER_LEN,
{
    big_endian_u16(bytes[16], bytes[17])
}

/// What is wrong with the framing of `bytes` as a notification, if anything;
/// of several faults, the one that comes first in this order: too short, too
/// long, a bad marker, a declared length that is not the number of bytes, a
/// declared length out of range, a type that is not NOTIFICATION.
pub open spec fn header_fault(bytes: Seq<u8>) -> Option<ErrorModel> {
    if bytes.len() < MIN_NOTIFICATION_LEN {
        Some(ErrorModel::TooShort { actual: bytes.len() })
    } else if bytes.len() > MAX_BGP_MESSAGE_LEN {
        Some(ErrorModel::TooLong { actual: bytes.len() })
    } else if !marker_is_set(bytes) {
        Some(ErrorModel::BadMarker)
    } else if declared_length(bytes) != bytes.len() {
        Some(ErrorModel::LengthMismatch { declared: declared_length(bytes), actual: bytes.len() })
    } else if declared_length(bytes) < MIN_NOTIFICATION_LEN || declared_length(bytes)
        > MAX_BGP_MESSAGE_LEN {
        Some(ErrorModel::DeclaredLengthOutOfRange { declared: declared_length(bytes) })
    } else if bytes[18] != BGP_NOTIFICATION {
        Some(ErrorModel::NotANotification { message_type: bytes[18] })
    } else {
        None
    }
}

/// The marker: sixteen bytes `0xff`.
pub open spec fn marker() -> Seq<u8> {
    Seq::new(BGP_MARKER_LEN as nat, |i: int| 0xffu8)
}

/// The bytes that stand before the data of a notification with
/// `data_len` bytes of data: the marker, the length of the whole message in
/// two bytes with the high one first, the type NOTIFICATION, the error code
/// and the subcode.
pub open spec fn frame_head(data_len: nat, error_code: u8, subcode: u8) -> Seq<u8> {
    let total = MIN_NOTIFICATION_LEN + data_len;
    marker() + seq![
        (total / 256) as u8,
        (total % 256) as u8,
        BGP_NOTIFICATION,
        error_code,
        subcode,
    ]
}

/// The bytes of the notification with the given error code, subcode and
/// data: the marker, the length of the whole message in two bytes with the
/// high one first, the type NOTIFICATION, the error code, the subcode, and
/// the data as they are.
pub open spec fn notification_frame(error_code: u8, subcode: u8, data: Seq<u8>) -> Seq<u8> {
    frame_head(data.len(), error_code, subcode) + data
}

/// A message whose length was found to equal the length that it declares is
/// never reported for a declared length out of range: the length was
/// checked before.
pub proof fn lemma_declared_length_in_range(bytes: Seq<u8>)
    ensures
        !(header_fault(bytes) matches Some(ErrorModel::DeclaredLengthOutOfRange { .. })),
{
}

/// A frame holds its parts at their places and passes the validation of its
/// header, as long as the data fit.
pub proof fn lemma_frame_is_valid(error_code: u8, subcode: u8, data: Seq<u8>)
    requires
        data.len() <= MAX_DATA_LEN,
    ensures
        ({
            let frame = notification_frame(error_code, subcode, data);
            &&& frame.len() == MIN_NOTIFICATION_LEN + data.len()
            &&& header_fault(frame) is None
            &&& frame[19] == error_code
            &&& frame[20] == subcode
            &&& frame.subrange(MIN_NOTIFICATION_LEN as int, frame.len() as int) == data
        }),
{
}

/// Checks the framing of a notification: its size, its marker, the length
/// that it declares and its type. The first fault found is the one reported.
pub fn validate_bgp_message(bytes: &[u8]) -> (r: Result<(), NotificationError>)
    ensures
        match header_fault(bytes@) {
            None => r is Ok,
            Some(e) => r matches Err(x) && x@ == e,
        },
{
    if bytes.len() < MIN_NOTIFICATION_LEN {
        return Err(NotificationError::TooShort { actual: bytes.len() });
    }
    if bytes.len() > MAX_BGP_MESSAGE_LEN {
        return Err(NotificationError::TooLong { actual: bytes.len() });
    }
    let mut i: usize = 0;
    while i < BGP_MARKER_LEN
        invariant
            0 <= i <= BGP_MARKER_LEN,
            MIN_NOTIFICATION_LEN <= bytes@.len() <= MAX_BGP_MESSAGE_LEN,
            forall|j: int| 0 <= j < i ==> #[trigger] bytes@[j] == 0xff,
        decreases BGP_MARKER_LEN - i,
    {
        if bytes[i] != 0xff {
            return Err(NotificationError::BadMarker);
        }
        i = i + 1;
    }
    let declared: usize = 256 * (bytes[16] as usize) + (bytes[17] as usize);
    if declared != bytes.len() {
        return Err(NotificationError::LengthMismatch { declared, actual: bytes.len() });
    }
    if declared < MIN_NOTIFICATION_LEN || declared > MAX_BGP_MESSAGE_LEN {
        return Err(NotificationError::DeclaredLengthOutOfRange { declared });
    }
    if bytes[18] != BGP_NOTIFICATION {
        return Err(NotificationError::NotANotification { message_type: bytes[18] });
    }
    Ok(())
}

/// Begins a notification of `total` bytes: the marker, the length, the
/// type, the error code and the subcode. The data are still to follow.
pub(crate) fn start_notification(total: usize, error_code: u8, subcode: u8) -> (frame: Vec<u8>)
    requires
        MIN_NOTIFICATION_LEN <= total <= MAX_BGP_MESSAGE_LEN,
    ensures
        frame@ == frame_head((total - MIN_NOTIFICATION_LEN) as nat, error_code, subcode),
{
    let mut frame: Vec<u8> = Vec::with_capacity(total);
    let mut i: usize = 0;
    while i < BGP_MARKER_LEN
        invariant
            0 <= i <= BGP_MARKER_LEN,
            frame@ == Seq::new(i as nat, |j: int| 0xffu8),
        decreases BGP_MARKER_LEN - i,
    {
        frame.push(0xff);
        i = i + 1;
    }
    frame.push((total / 256) as u8);
    frame.push((total % 256) as u8);
    frame.push(BGP_NOTIFICATION);
    frame.push(error_code);
    frame.push(subcode);
    frame
}

/// Appends `data` to `frame`, byte for byte.
pub(crate) fn extend_with(frame: &mut Vec<u8>, data: &[u8])
    ensures
        final(frame)@ == old(frame)@ + data@,
{
    let mut k: usize = 0;
    while k < data.len()
        invariant
            0 <= k <= data@.len(),
            frame@ == old(frame)@ + data@.subrange(0, k as int),
        decreases data@.len() - k,
    {
        frame.push(data[k]);
        k = k + 1;
    }
}

} // verus!
