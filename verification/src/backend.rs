//! Plain-value records of what the display backend (libddcutil) reports.
//!
//! The backend itself is driven from outside the library; these records carry its
//! answers into the verified request logic.

use vstd::prelude::*;
use vstd::string::*;

verus! {

/// A failure reported by the display backend: its numeric status code and the text
/// that the backend's error displays as.
pub struct BackendError {
    pub status: i64,
    pub message: String,
}

/// One display as listed by the backend.
pub struct DisplayInfo {
    pub display_number: i32,
    pub usb_bus: i32,
    pub usb_device: i32,
    pub manufacturer_id: String,
    pub model_name: String,
    pub serial_number: String,
    pub product_code: u16,
    /// The raw EDID block of the display.
    pub edid_bytes: [u8; 128],
    /// The binary serial number that the backend decodes from the EDID block.
    pub edid_serial: u32,
}

/// The value of one VCP feature as read from a display.
pub struct VcpReading {
    pub current: u16,
    pub max: u16,
    pub formatted: String,
}

/// The status code that a D-Bus reply carries for a backend failure: the backend's
/// code where it fits in an `i32`, and 0 where it does not.
pub open spec fn reply_status(e: BackendError) -> i32 {
    if i32::MIN <= e.status <= i32::MAX {
        e.status as i32
    } else {
        0
    }
}

/// The message that a D-Bus reply carries for a backend failure met by the
/// operation `op`: the operation's name, a colon and a space, then the error text.
pub open spec fn reply_message(op: Seq<char>, e: BackendError) -> Seq<char> {
    op + ": "@ + e.message@
}

/// Turns a backend failure into the `(status, message)` pair of a D-Bus reply.
pub fn failure_reply(op: &str, e: &BackendError) -> (out: (i32, String))
    ensures
        out.0 == reply_status(*e),
        out.1@ == reply_message(op@, *e),
{
    let status: i32 = if -2147483648i64 <= e.status && e.status <= 2147483647i64 {
        e.status as i32
    } else {
        0
    };
    let text = String::from_str(op).concat(": ").concat(e.message.as_str());
    (status, text)
}

} // verus!
