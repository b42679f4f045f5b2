//! The names of error codes and subcodes, and what the data of a
//! notification mean.

use crate::decimal::{decimal_text, push_decimal};
use crate::strings::text_of_utf8;
use crate::wire::{big_endian_u16, BGP_CEASE_ADMIN_RESET, BGP_CEASE_ADMIN_SHUTDOWN};
use vstd::prelude::*;
use vstd::slice::slice_subrange;
use vstd::string::*;
use vstd::utf8::*;

verus! {

/// The two Cease subcodes that carry a shutdown communication.
#[derive(Debug, Clone, Copy, PartialEq, Eq, Structural)]
pub enum BgpCeaseSubcode {
    AdminShutdown,
    AdminReset,
}

/// The name of a Cease subcode that carries a shutdown communication.
pub open spec fn cease_subcode_name(subcode: BgpCeaseSubcode) -> Seq<char> {
    match subcode {
        BgpCeaseSubcode::AdminShutdown => "Administrative Shutdown"@,
        BgpCeaseSubcode::AdminReset => "Administrative Reset"@,
    }
}

impl BgpCeaseSubcode {
    /// The subcode as it stands in a message.
    pub open spec fn spec_value(self) -> u8 {
        match self {
            BgpCeaseSubcode::AdminShutdown => BGP_CEASE_ADMIN_SHUTDOWN,
            BgpCeaseSubcode::AdminReset => BGP_CEASE_ADMIN_RESET,
        }
    }

    /// The subcode that a byte of a message stands for, if it is one of the
    /// two.
    pub fn from_u8(value: u8) -> (r: Option<Self>)
        ensures
            value == BGP_CEASE_ADMIN_SHUTDOWN ==> r == Some(BgpCeaseSubcode::AdminShutdown),
            value == BGP_CEASE_ADMIN_RESET ==> r == Some(BgpCeaseSubcode::AdminReset),
            value != BGP_CEASE_ADMIN_SHUTDOWN && value != BGP_CEASE_ADMIN_RESET ==> r is None,
    {
        if value == BGP_CEASE_ADMIN_SHUTDOWN {
            Some(BgpCeaseSubcode::AdminShutdown)
        } else if value == BGP_CEASE_ADMIN_RESET {
            Some(BgpCeaseSubcode::AdminReset)
        } else {
            None
        }
    }

    /// The subcode as it stands in a message.
    #[verifier::when_used_as_spec(spec_value)]
    pub fn value(self) -> (r: u8)
        ensures
            r == self.spec_value(),
    {
        match self {
            BgpCeaseSubcode::AdminShutdown => BGP_CEASE_ADMIN_SHUTDOWN,
            BgpCeaseSubcode::AdminReset => BGP_CEASE_ADMIN_RESET,
        }
    }

    /// The name of the subcode.
    pub fn as_str(&self) -> (r: &'static str)
        ensures
            r@ == cease_subcode_name(*self),
    {
        match self {
            BgpCeaseSubcode::AdminShutdown => "Administrative Shutdown",
            BgpCeaseSubcode::AdminReset => "Administrative Reset",
        }
    }
}

/// The name of an error code; "Unknown Error" for a code that RFC 4271 does
/// not define.
pub open spec fn error_name_text(error_code: u8) -> Seq<char> {
    match error_code {
        1 => "Message Header Error"@,
        2 => "OPEN Message Error"@,
        3 => "UPDATE Message Error"@,
        4 => "Hold Timer Expired"@,
        5 => "Finite State Machine Error"@,
        6 => "Cease"@,
        _ => "Unknown Error"@,
    }
}

/// The name of a subcode under its error code; "Unknown Subcode" for a pair
/// without a name.
pub open spec fn subcode_name_text(error_code: u8, subcode: u8) -> Seq<char> {
    match (error_code, subcode) {
        (1, 1) => "Connection Not Synchronized"@,
        (1, 2) => "Bad Message Length"@,
        (1, 3) => "Bad Message Type"@,
        (2, 0) => "Unspecific"@,
        (2, 1) => "Unsupported Version Number"@,
        (2, 2) => "Bad Peer AS"@,
        (2, 3) => "Bad BGP Identifier"@,
        (2, 4) => "Unsupported Optional Parameter"@,
        (2, 6) => "Unacceptable Hold Time"@,
        (2, 7) => "Unsupported Capability"@,
        (3, 0) => "Unspecific"@,
        (3, 1) => "Malformed Attribute List"@,
        (3, 2) => "Unrecognized Well-known Attribute"@,
        (3, 3) => "Missing Well-known Attribute"@,
        (3, 4) => "Attribute Flags Error"@,
        (3, 5) => "Attribute Length Error"@,
        (3, 6) => "Invalid ORIGIN Attribute"@,
        (3, 8) => "Invalid NEXT_HOP Attribute"@,
        (3, 9) => "Optional Attribute Error"@,
        (3, 10) => "Invalid Network Field"@,
        (3, 11) => "Malformed AS_PATH"@,
        (4, 0) => "Unspecific"@,
        (5, 0) => "Unspecified Error"@,
        (5, 1) => "Receive Unexpected Message in OpenSent State"@,
        (5, 2) => "Receive Unexpected Message in OpenConfirm State"@,
        (5, 3) => "Receive Unexpected Message in Established State"@,
        (6, 0) => "Unspecific"@,
        (6, 1) => "Maximum Number of Prefixes Reached"@,
        (6, 2) => "Administrative Shutdown"@,
        (6, 3) => "Peer De-configured"@,
        (6, 4) => "Administrative Reset"@,
        (6, 5) => "Connection Rejected"@,
        (6, 6) => "Other Configuration Change"@,
        (6, 7) => "Connection Collision Resolution"@,
        (6, 8) => "Out of Resources"@,
        (6, 9) => "Hard Reset"@,
        _ => "Unknown Subcode"@,
    }
}

/// The name of a BGP message type.
pub open spec fn message_type_name(message_type: u8) -> Seq<char> {
    match message_type {
        1 => "OPEN"@,
        2 => "UPDATE"@,
        3 => "NOTIFICATION"@,
        4 => "KEEPALIVE"@,
        5 => "ROUTE-REFRESH"@,
        _ => "Unknown"@,
    }
}

/// The name of a well-known path attribute.
pub open spec fn attribute_name(attribute_type: u8) -> Seq<char> {
    match attribute_type {
        1 => "ORIGIN"@,
        2 => "AS_PATH"@,
        3 => "NEXT_HOP"@,
        _ => "Unknown"@,
    }
}

/// The state of the session that a subcode of the Finite State Machine
/// Error names.
pub open spec fn fsm_state_name(subcode: u8) -> Seq<char> {
    match subcode {
        1 => "OpenSent"@,
        2 => "OpenConfirm"@,
        3 => "Established"@,
        _ => "Unknown"@,
    }
}

/// What the data of a Cease notification for an administrative shutdown or
/// reset say: the first byte is the length of the text that follows.
pub open spec fn shutdown_interpretation(data: Seq<u8>) -> Seq<char>
    recommends
        data.len() >= 1,
{
    let length = data[0] as int;
    if data.len() >= 1 + length && length > 0 {
        if valid_utf8(data.subrange(1, 1 + length)) {
            "Shutdown message: \""@ + decode_utf8(data.subrange(1, 1 + length)) + "\""@
        } else {
            "Invalid UTF-8 in shutdown message"@
        }
    } else if length == 0 {
        "Empty shutdown message"@
    } else {
        "Truncated shutdown message"@
    }
}

/// What is said of data whose shape is not known: how many bytes there are.
pub open spec fn plain_interpretation(data: Seq<u8>) -> Seq<char> {
    if data.len() == 0 {
        "No additional data"@
    } else {
        decimal_text(data.len()) + " bytes of data"@
    }
}

/// What the data of a notification say, as a line of text.
///
/// The shape of the data is known for a bad message length, a bad message
/// type, an unsupported version, a missing well-known attribute, an
/// unexpected message in one of three states, and an administrative
/// shutdown or reset. Data of any other error, and data too short for
/// their shape, are only counted.
pub open spec fn interpretation(error_code: u8, subcode: u8, data: Seq<u8>) -> Seq<char> {
    if error_code == 1 && subcode == 2 && data.len() >= 2 {
        "Bad message length: "@ + decimal_text(big_endian_u16(data[0], data[1]))
            + " (valid range: 19-4096)"@
    } else if error_code == 1 && subcode == 3 && data.len() >= 1 {
        "Bad message type: "@ + decimal_text(data[0] as nat) + " ("@ + message_type_name(data[0])
            + ")"@
    } else if error_code == 2 && subcode == 1 && data.len() >= 2 {
        "Unsupported BGP version, local supports: "@ + decimal_text(
            big_endian_u16(data[0], data[1]),
        )
    } else if error_code == 3 && subcode == 3 && data.len() >= 1 {
        "Missing well-known attribute: "@ + decimal_text(data[0] as nat) + " ("@ + attribute_name(
            data[0],
        ) + ")"@
    } else if error_code == 5 && 1 <= subcode <= 3 && data.len() >= 1 {
        "Unexpected "@ + message_type_name(data[0]) + " message in "@ + fsm_state_name(subcode)
            + " state"@
    } else if error_code == 6 && (subcode == 2 || subcode == 4) && data.len() >= 1 {
        shutdown_interpretation(data)
    } else {
        plain_interpretation(data)
    }
}

/// The name of an error code.
pub fn error_name(error_code: u8) -> (r: &'static str)
    ensures
        r@ == error_name_text(error_code),
{
    match error_code {
        1 => "Message Header Error",
        2 => "OPEN Message Error",
        3 => "UPDATE Message Error",
        4 => "Hold Timer Expired",
        5 => "Finite State Machine Error",
        6 => "Cease",
        _ => "Unknown Error",
    }
}

/// The name of a subcode under its error code.
pub fn subcode_name(error_code: u8, subcode: u8) -> (r: &'static str)
    ensures
        r@ == subcode_name_text(error_code, subcode),
{
    match (error_code, subcode) {
        (1, 1) => "Connection Not Synchronized",
        (1, 2) => "Bad Message Length",
        (1, 3) => "Bad Message Type",
        (2, 0) => "Unspecific",
        (2, 1) => "Unsupported Version Number",
        (2, 2) => "Bad Peer AS",
        (2, 3) => "Bad BGP Identifier",
        (2, 4) => "Unsupported Optional Parameter",
        (2, 6) => "Unacceptable Hold Time",
        (2, 7) => "Unsupported Capability",
        (3, 0) => "Unspecific",
        (3, 1) => "Malformed Attribute List",
        (3, 2) => "Unrecognized Well-known Attribute",
        (3, 3) => "Missing Well-known Attribute",
        (3, 4) => "Attribute Flags Error",
        (3, 5) => "Attribute Length Error",
        (3, 6) => "Invalid ORIGIN Attribute",
        (3, 8) => "Invalid NEXT_HOP Attribute",
        (3, 9) => "Optional Attribute Error",
        (3, 10) => "Invalid Network Field",
        (3, 11) => "Malformed AS_PATH",
        (4, 0) => "Unspecific",
        (5, 0) => "Unspecified Error",
        (5, 1) => "Receive Unexpected Message in OpenSent State",
        (5, 2) => "Receive Unexpected Message in OpenConfirm State",
        (5, 3) => "Receive Unexpected Message in Established State",
        (6, 0) => "Unspecific",
        (6, 1) => "Maximum Number of Prefixes Reached",
        (6, 2) => "Administrative Shutdown",
        (6, 3) => "Peer De-configured",
        (6, 4) => "Administrative Reset",
        (6, 5) => "Connection Rejected",
        (6, 6) => "Other Configuration Change",
        (6, 7) => "Connection Collision Resolution",
        (6, 8) => "Out of Resources",
        (6, 9) => "Hard Reset",
        _ => "Unknown Subcode",
    }
}

/// The names of an error code and of a subcode under it.
pub fn get_error_names(error_code: u8, subcode: u8) -> (r: (String, String))
    ensures
        r.0@ == error_name_text(error_code),
        r.1@ == subcode_name_text(error_code, subcode),
{
    (error_name(error_code).to_owned(), subcode_name(error_code, subcode).to_owned())
}

fn name_of_message_type(message_type: u8) -> (r: &'static str)
    ensures
        r@ == message_type_name(message_type),
{
    match message_type {
        1 => "OPEN",
        2 => "UPDATE",
        3 => "NOTIFICATION",
        4 => "KEEPALIVE",
        5 => "ROUTE-REFRESH",
        _ => "Unknown",
    }
}

fn name_of_attribute(attribute_type: u8) -> (r: &'static str)
    ensures
        r@ == attribute_name(attribute_type),
{
    match attribute_type {
        1 => "ORIGIN",
        2 => "AS_PATH",
        3 => "NEXT_HOP",
        _ => "Unknown",
    }
}

fn name_of_fsm_state(subcode: u8) -> (r: &'static str)
    ensures
        r@ == fsm_state_name(subcode),
{
    match subcode {
        1 => "OpenSent",
        2 => "OpenConfirm",
        3 => "Established",
        _ => "Unknown",
    }
}

fn interpret_shutdown(data: &[u8]) -> (r: String)
    requires
        data@.len() >= 1,
    ensures
        r@ == shutdown_interpretation(data@),
{
    let length: usize = data[0] as usize;
    if data.len() >= 1 + length && length > 0 {
        match text_of_utf8(slice_subrange(data, 1, 1 + length)) {
            Some(text) => {
                let mut out = "Shutdown message: \"".to_owned();
                out.append(text.as_str());
                out.append("\"");
                out
            },
            None => "Invalid UTF-8 in shutdown message".to_owned(),
        }
    } else if length == 0 {
        "Empty shutdown message".to_owned()
    } else {
        "Truncated shutdown message".to_owned()
    }
}

/// Says in a line of text what the data of a notification mean.
pub fn interpret_data(error_code: u8, subcode: u8, data: &[u8]) -> (r: String)
    ensures
        r@ == interpretation(error_code, subcode, data@),
{
    if error_code == 1 && subcode == 2 && data.len() >= 2 {
        let bad_length: usize = 256 * (data[0] as usize) + (data[1] as usize);
        let mut out = "Bad message length: ".to_owned();
        push_decimal(&mut out, bad_length);
        out.append(" (valid range: 19-4096)");
        out
    } else if error_code == 1 && subcode == 3 && data.len() >= 1 {
        let mut out = "Bad message type: ".to_owned();
        push_decimal(&mut out, data[0] as usize);
        out.append(" (");
        out.append(name_of_message_type(data[0]));
        out.append(")");
        out
    } else if error_code == 2 && subcode == 1 && data.len() >= 2 {
        let version: usize = 256 * (data[0] as usize) + (data[1] as usize);
        let mut out = "Unsupported BGP version, local supports: ".to_owned();
        push_decimal(&mut out, version);
        out
    } else if error_code == 3 && subcode == 3 && data.len() >= 1 {
        let mut out = "Missing well-known attribute: ".to_owned();
        push_decimal(&mut out, data[0] as usize);
        out.append(" (");
        out.append(name_of_attribute(data[0]));
        out.append(")");
        out
    } else if error_code == 5 && 1 <= subcode && subcode <= 3 && data.len() >= 1 {
        let mut out = "Unexpected ".to_owned();
        out.append(name_of_message_type(data[0]));
        out.append(" message in ");
        out.append(name_of_fsm_state(subcode));
        out.append(" state");
        out
    } else if error_code == 6 && (subcode == 2 || subcode == 4) && data.len() >= 1 {
        interpret_shutdown(data)
    } else if data.len() == 0 {
        "No additional data".to_owned()
    } else {
        let mut out = String::new();
        push_decimal(&mut out, data.len());
        out.append(" bytes of data");
        out
    }
}

/// The Cease subcodes that carry a shutdown communication, each with its
/// name, in rising order.
pub fn get_subcodes() -> (r: Vec<(u8, &'static str)>)
    ensures
        r@.len() == 2,
        r@[0].0 == BGP_CEASE_ADMIN_SHUTDOWN,
        r@[0].1@ == cease_subcode_name(BgpCeaseSubcode::AdminShutdown),
        r@[1].0 == BGP_CEASE_ADMIN_RESET,
        r@[1].1@ == cease_subcode_name(BgpCeaseSubcode::AdminReset),
{
    let mut subcodes: Vec<(u8, &'static str)> = Vec::with_capacity(2);
    subcodes.push((BGP_CEASE_ADMIN_SHUTDOWN, BgpCeaseSubcode::AdminShutdown.as_str()));
    subcodes.push((BGP_CEASE_ADMIN_RESET, BgpCeaseSubcode::AdminReset.as_str()));
    subcodes
}

} // verus!
