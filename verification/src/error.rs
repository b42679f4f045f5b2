//! The failures that the codec reports, and their mathematical model.

use crate::decimal::{decimal_text, push_decimal};
use vstd::prelude::*;
use vstd::string::*;

verus! {

/// Why an input was rejected.
///
/// Every variant carries what is needed to explain the failure to a user:
/// the offending value and, where there is one, the bound that it broke.
#[derive(Debug, PartialEq, Eq)]
pub enum NotificationError {
    /// The hex text holds an odd number of digits.
    OddLength { digits: usize },
    /// The character at `position` of the hex text (counted in characters,
    /// from zero) is neither a hex digit nor a separator.
    InvalidDigit { position: usize },
    /// The hex text stands for more bytes than the caller allows.
    TooLarge { bytes: usize, max_bytes: usize },
    /// The message is shorter than a notification without data.
    TooShort { actual: usize },
    /// The message is longer than any BGP message may be.
    TooLong { actual: usize },
    /// One of the sixteen marker bytes is not `0xff`.
    BadMarker,
    /// The length field of the header differs from the number of bytes present.
    LengthMismatch { declared: usize, actual: usize },
    /// The length field of the header lies outside the range of a notification.
    DeclaredLengthOutOfRange { declared: usize },
    /// The type byte of the header is not that of a notification.
    NotANotification { message_type: u8 },
    /// The error code is none of those that RFC 4271 defines.
    InvalidErrorCode { error_code: u8 },
    /// The subcode to encode is neither Administrative Shutdown nor Administrative Reset.
    InvalidSubcode { subcode: u8 },
    /// The decoded subcode is neither Administrative Shutdown nor Administrative Reset.
    UnknownSubcode { subcode: u8 },
    /// The decoded error code is not Cease.
    NotCeaseError { error_code: u8 },
    /// A Cease notification ends before the length byte of its shutdown text.
    MissingLengthByte,
    /// The length byte of the shutdown text disagrees with the size of the message.
    TextLengthMismatch { expected: usize, actual: usize },
    /// The shutdown text is not valid UTF-8.
    InvalidUtf8,
    /// The shutdown text takes more than 255 bytes in UTF-8.
    MessageTooLong { bytes: usize },
    /// The data do not fit into one notification.
    DataTooLarge { bytes: usize },
    /// The whole message would be longer than any BGP message may be.
    MessageTooLarge,
    /// The text for the field `label` is not a decimal number.
    NotANumber { label: String },
    /// The number for the field `label` lies outside `min ..= max`.
    OutOfRange { label: String, min: u16, max: u16 },
    /// The error code and subcode take no data of the kind that was given.
    UnsupportedDataKind,
}

/// The mathematical value of a [`NotificationError`]: the same cases, with
/// a label as the sequence of its characters.
pub ghost enum ErrorModel {
    OddLength { digits: nat },
    InvalidDigit { position: nat },
    TooLarge { bytes: nat, max_bytes: nat },
    TooShort { actual: nat },
    TooLong { actual: nat },
    BadMarker,
    LengthMismatch { declared: nat, actual: nat },
    DeclaredLengthOutOfRange { declared: nat },
    NotANotification { message_type: u8 },
    InvalidErrorCode { error_code: u8 },
    InvalidSubcode { subcode: u8 },
    UnknownSubcode { subcode: u8 },
    NotCeaseError { error_code: u8 },
    MissingLengthByte,
    TextLengthMismatch { expected: nat, actual: nat },
    InvalidUtf8,
    MessageTooLong { bytes: nat },
    DataTooLarge { bytes: nat },
    MessageTooLarge,
    NotANumber { label: Seq<char> },
    OutOfRange { label: Seq<char>, min: nat, max: nat },
    UnsupportedDataKind,
}

impl View for NotificationError {
    type V = ErrorModel;

    open spec fn view(&self) -> ErrorModel {
        match *self {
            NotificationError::OddLength { digits } => ErrorModel::OddLength {
                digits: digits as nat,
            },
            NotificationError::InvalidDigit { position } => ErrorModel::InvalidDigit {
                position: position as nat,
            },
            NotificationError::TooLarge { bytes, max_bytes } => ErrorModel::TooLarge {
                bytes: bytes as nat,
                max_bytes: max_bytes as nat,
            },
            NotificationError::TooShort { actual } => ErrorModel::TooShort {
                actual: actual as nat,
            },
            NotificationError::TooLong { actual } => ErrorModel::TooLong { actual: actual as nat },
            NotificationError::BadMarker => ErrorModel::BadMarker,
            NotificationError::LengthMismatch { declared, actual } => ErrorModel::LengthMismatch {
                declared: declared as nat,
                actual: actual as nat,
            },
            NotificationError::DeclaredLengthOutOfRange {
                declared,
            } => ErrorModel::DeclaredLengthOutOfRange { declared: declared as nat },
            NotificationError::NotANotification {
                message_type,
            } => ErrorModel::NotANotification { message_type },
            NotificationError::InvalidErrorCode { error_code } => ErrorModel::InvalidErrorCode {
                error_code,
            },
            NotificationError::InvalidSubcode { subcode } => ErrorModel::InvalidSubcode { subcode },
            NotificationError::UnknownSubcode { subcode } => ErrorModel::UnknownSubcode { subcode },
            NotificationError::NotCeaseError { error_code } => ErrorModel::NotCeaseError {
                error_code,
            },
            NotificationError::MissingLengthByte => ErrorModel::MissingLengthByte,
            NotificationError::TextLengthMismatch {
                expected,
                actual,
            } => ErrorModel::TextLengthMismatch {
                expected: expected as nat,
                actual: actual as nat,
            },
            NotificationError::InvalidUtf8 => ErrorModel::InvalidUtf8,
            NotificationError::MessageTooLong { bytes } => ErrorModel::MessageTooLong {
                bytes: bytes as nat,
            },
            NotificationError::DataTooLarge { bytes } => ErrorModel::DataTooLarge {
                bytes: bytes as nat,
            },
            NotificationError::MessageTooLarge => ErrorModel::MessageTooLarge,
            NotificationError::NotANumber { label } => ErrorModel::NotANumber { label: label@ },
            NotificationError::OutOfRange { label, min, max } => ErrorModel::OutOfRange {
                label: label@,
                min: min as nat,
                max: max as nat,
            },
            NotificationError::UnsupportedDataKind => ErrorModel::UnsupportedDataKind,
        }
    }
}

impl ErrorModel {
    /// The failure in words, for a user to read.
    pub open spec fn text(self) -> Seq<char> {
        match self {
            ErrorModel::OddLength { .. } => "Hex string must have even number of characters"@,
            ErrorModel::InvalidDigit { position } => "Invalid hex character at position "@
                + decimal_text(position),
            ErrorModel::TooLarge { bytes, max_bytes } => "Hex data too long: "@ + decimal_text(
                bytes,
            ) + " bytes (max "@ + decimal_text(max_bytes) + ")"@,
            ErrorModel::TooShort { actual } => "Message too short: "@ + decimal_text(actual)
                + " bytes (minimum 21)"@,
            ErrorModel::TooLong { actual } => "Message too long: "@ + decimal_text(actual)
                + " bytes (maximum 4096)"@,
            ErrorModel::BadMarker => "Invalid BGP marker: must be 16 bytes of 0xFF"@,
            ErrorModel::LengthMismatch { declared, actual } => "Length mismatch: header declares "@
                + decimal_text(declared) + " bytes, got "@ + decimal_text(actual),
            ErrorModel::DeclaredLengthOutOfRange { declared } => "Invalid declared length: "@
                + decimal_text(declared) + " (must be 21-4096)"@,
            ErrorModel::NotANotification { message_type } => "Not a notification message: type "@
                + decimal_text(message_type as nat) + " (expected 3)"@,
            ErrorModel::InvalidErrorCode { .. } => "Invalid error code: must be 1-6"@,
            ErrorModel::InvalidSubcode { .. } => "Invalid subcode: must be 2 or 4"@,
            ErrorModel::UnknownSubcode { subcode } => "Unknown subcode: "@ + decimal_text(
                subcode as nat,
            ),
            ErrorModel::NotCeaseError { error_code } => "Not a Cease error (code="@ + decimal_text(
                error_code as nat,
            ) + ")"@,
            ErrorModel::MissingLengthByte => "Missing shutdown message length byte"@,
            ErrorModel::TextLengthMismatch { expected, actual } => "Length mismatch: expected "@
                + decimal_text(expected) + " bytes, got "@ + decimal_text(actual),
            ErrorModel::InvalidUtf8 => "Invalid UTF-8 in message"@,
            ErrorModel::MessageTooLong { bytes } => "Message exceeds 255 bytes (got "@
                + decimal_text(bytes) + ")"@,
            ErrorModel::DataTooLarge { .. } => "Data too large for BGP message"@,
            ErrorModel::MessageTooLarge => "Message would exceed BGP maximum length"@,
            ErrorModel::NotANumber { label } => "Invalid "@ + label + " value: must be a number"@,
            ErrorModel::OutOfRange { label, min, max } => label + " must be between "@
                + decimal_text(min) + " and "@ + decimal_text(max),
            ErrorModel::UnsupportedDataKind => {
                "This error/subcode combination doesn't support additional data"@
            },
        }
    }
}

/// Puts a number between two pieces of text.
fn around_number(before: &str, n: usize, after: &str) -> (r: String)
    ensures
        r@ == before@ + decimal_text(n as nat) + after@,
{
    let mut out = before.to_owned();
    push_decimal(&mut out, n);
    out.append(after);
    out
}

/// Puts two numbers between three pieces of text.
fn around_numbers(before: &str, m: usize, between: &str, n: usize, after: &str) -> (r: String)
    ensures
        r@ == before@ + decimal_text(m as nat) + between@ + decimal_text(n as nat) + after@,
{
    let mut out = around_number(before, m, between);
    push_decimal(&mut out, n);
    out.append(after);
    out
}

impl NotificationError {
    /// The failure in words, for a user to read.
    pub fn message(&self) -> (r: String)
        ensures
            r@ == self@.text(),
    {
        match self {
            NotificationError::OddLength { .. } => {
                "Hex string must have even number of characters".to_owned()
            },
            NotificationError::InvalidDigit { position } => {
                let r = around_number("Invalid hex character at position ", *position, "");
                proof {
                    reveal_strlit("");
                }
                r
            },
            NotificationError::TooLarge { bytes, max_bytes } => around_numbers(
                "Hex data too long: ",
                *bytes,
                " bytes (max ",
                *max_bytes,
                ")",
            ),
            NotificationError::TooShort { actual } => around_number(
                "Message too short: ",
                *actual,
                " bytes (minimum 21)",
            ),
            NotificationError::TooLong { actual } => around_number(
                "Message too long: ",
                *actual,
                " bytes (maximum 4096)",
            ),
            NotificationError::BadMarker => {
                "Invalid BGP marker: must be 16 bytes of 0xFF".to_owned()
            },
            NotificationError::LengthMismatch { declared, actual } => {
                let r = around_numbers(
                    "Length mismatch: header declares ",
                    *declared,
                    " bytes, got ",
                    *actual,
                    "",
                );
                proof {
                    reveal_strlit("");
                }
                r
            },
            NotificationError::DeclaredLengthOutOfRange { declared } => around_number(
                "Invalid declared length: ",
                *declared,
                " (must be 21-4096)",
            ),
            NotificationError::NotANotification { message_type } => around_number(
                "Not a notification message: type ",
                *message_type as usize,
                " (expected 3)",
            ),
            NotificationError::InvalidErrorCode { .. } => {
                "Invalid error code: must be 1-6".to_owned()
            },
            NotificationError::InvalidSubcode { .. } => {
                "Invalid subcode: must be 2 or 4".to_owned()
            },
            NotificationError::UnknownSubcode { subcode } => {
                let r = around_number("Unknown subcode: ", *subcode as usize, "");
                proof {
                    reveal_strlit("");
                }
                r
            },
            NotificationError::NotCeaseError { error_code } => around_number(
                "Not a Cease error (code=",
                *error_code as usize,
                ")",
            ),
            NotificationError::MissingLengthByte => {
                "Missing shutdown message length byte".to_owned()
            },
            NotificationError::TextLengthMismatch { expected, actual } => {
                let r = around_numbers(
                    "Length mismatch: expected ",
                    *expected,
                    " bytes, got ",
                    *actual,
                    "",
                );
                proof {
                    reveal_strlit("");
                }
                r
            },
            NotificationError::InvalidUtf8 => "Invalid UTF-8 in message".to_owned(),
            NotificationError::MessageTooLong { bytes } => around_number(
                "Message exceeds 255 bytes (got ",
                *bytes,
                ")",
            ),
            NotificationError::DataTooLarge { .. } => {
                "Data too large for BGP message".to_owned()
            },
            NotificationError::MessageTooLarge => {
                "Message would exceed BGP maximum length".to_owned()
            },
            NotificationError::NotANumber { label } => {
                let mut out = "Invalid ".to_owned();
                out.append(label.as_str());
                out.append(" value: must be a number");
                out
            },
            NotificationError::OutOfRange { label, min, max } => {
                let mut out = label.clone();
                out.append(" must be between ");
                push_decimal(&mut out, *min as usize);
                out.append(" and ");
                push_decimal(&mut out, *max as usize);
                out
            },
            NotificationError::UnsupportedDataKind => {
                "This error/subcode combination doesn't support additional data".to_owned()
            },
        }
    }
}

} // verus!
