//! Request logic of the D-Bus display-control service.
//!
//! Each D-Bus method that needs the display backend is a small state machine: the
//! method returns the first backend call to make, and each `after_*` step takes the
//! backend's answer and returns the next call or the final D-Bus reply.  The caller
//! performs the calls and keeps the backend's opaque display references and handles.

use crate::backend::{failure_reply, reply_message, reply_status, BackendError, DisplayInfo, VcpReading};
use crate::edid::{base64_standard, encode_edid};
use std::collections::HashMap;
use vstd::prelude::*;
use vstd::string::*;

verus! {

/// `Detect` flag: list every display, also those that do not answer DDC/CI.
pub const DETECT_ALL: u32 = 8;

/// Flag of the VCP methods: the EDID text may be a unique prefix of the EDID.
pub const EDID_PREFIX_ALLOWED: u32 = 1;

/// One display in a `Detect` or `ListDetected` reply: display number, USB bus, USB
/// device, manufacturer id, model name, serial number, product code, base64 EDID,
/// binary serial number.
pub type DisplayEntry = (i32, i32, i32, String, String, String, u16, String, u32);

/// A `Detect` or `ListDetected` reply: status, displays, error status, error message.
pub type ListReply = (i32, Vec<DisplayEntry>, i32, String);

/// A `GetVcp` reply: current value, maximum, formatted value, error status, error
/// message.
pub type VcpReply = (u16, u16, String, i32, String);

/// The D-Bus service object and its two settable properties.
pub struct DdcutilService {
    pub dynamic_sleep: bool,
    pub output_level: u32,
}

/// Whether a flags word holds the given flag bit.
pub open spec fn has_flag(flags: u32, flag: u32) -> bool {
    flags & flag != 0
}

/// The operation name that a display listing reports its failures under.
pub open spec fn listing_name(force_redetect: bool) -> Seq<char> {
    if force_redetect {
        "detect"@
    } else {
        "list_displays"@
    }
}

/// A reply entry describes a listed display, with `edid_text` as its EDID text.
pub open spec fn entry_describes(entry: DisplayEntry, d: DisplayInfo, edid_text: Seq<char>) -> bool {
    &&& entry.0 == d.display_number
    &&& entry.1 == d.usb_bus
    &&& entry.2 == d.usb_device
    &&& entry.3@ == d.manufacturer_id@
    &&& entry.4@ == d.model_name@
    &&& entry.5@ == d.serial_number@
    &&& entry.6 == d.product_code
    &&& entry.7@ == edid_text
    &&& entry.8 == d.edid_serial
}

/// A listing reply that reports the backend failure `e` met by the operation `op`.
pub open spec fn is_list_failure(reply: ListReply, op: Seq<char>, e: BackendError) -> bool {
    &&& reply.0 == 0
    &&& reply.1@.len() == 0
    &&& reply.2 == reply_status(e)
    &&& reply.3@ == reply_message(op, e)
}

/// A display listing in progress.
pub struct DisplayListing {
    /// The listing was asked for by `Detect`, which rescans the displays first.
    pub force_redetect: bool,
    /// The listing includes displays that do not answer DDC/CI.
    pub include_all: bool,
}

/// The next thing a display listing needs.
pub enum ListStep {
    /// Ask the backend to rescan the displays, then call `after_redetect`.
    Redetect(DisplayListing),
    /// Ask the backend for its display list (all displays where `include_all`), then
    /// call `after_listing`.
    ListDisplays(DisplayListing),
    /// The listing is over: send this reply.
    Reply(ListReply),
}

/// Builds the reply entry of a listed display from its EDID text.
pub fn display_entry(d: &DisplayInfo, edid_text: String) -> (entry: DisplayEntry)
    ensures
        entry_describes(entry, *d, edid_text@),
{
    (
        d.display_number,
        d.usb_bus,
        d.usb_device,
        d.manufacturer_id.clone(),
        d.model_name.clone(),
        d.serial_number.clone(),
        d.product_code,
        edid_text,
        d.edid_serial,
    )
}

impl DisplayListing {
    /// Continues after the backend's rescan: a failure ends the listing with an
    /// error reply, success goes on to the display list.
    pub fn after_redetect(self, result: Result<(), BackendError>) -> (step: ListStep)
        ensures
            match result {
                Ok(()) => step == ListStep::ListDisplays(self),
                Err(e) => step matches ListStep::Reply(r) && is_list_failure(
                    r,
                    listing_name(self.force_redetect),
                    e,
                ),
            },
    {
        match result {
            Ok(()) => ListStep::ListDisplays(self),
            Err(e) => ListStep::Reply(self.failure(&e)),
        }
    }

    /// Ends the listing with the backend's display list: each display becomes one
    /// reply entry, in the backend's order, with its EDID in base64.
    pub fn after_listing(self, result: Result<Vec<DisplayInfo>, BackendError>) -> (reply: ListReply)
        ensures
            match result {
                Ok(list) => {
                    &&& reply.0 == 0
                    &&& reply.2 == 0
                    &&& reply.3@.len() == 0
                    &&& reply.1@.len() == list@.len()
                    &&& forall|i: int|
                        0 <= i < list@.len() ==> #[trigger] entry_describes(
                            reply.1@[i],
                            list@[i],
                            base64_standard(list@[i].edid_bytes@),
                        )
                },
                Err(e) => is_list_failure(reply, listing_name(self.force_redetect), e),
            },
    {
        match result {
            Err(e) => self.failure(&e),
            Ok(list) => {
                let mut entries: Vec<DisplayEntry> = Vec::new();
                let mut i: usize = 0;
                while i < list.len()
                    invariant
                        i <= list@.len(),
                        entries@.len() == i,
                        forall|j: int|
                            0 <= j < i ==> #[trigger] entry_describes(
                                entries@[j],
                                list@[j],
                                base64_standard(list@[j].edid_bytes@),
                            ),
                    decreases list@.len() - i,
                {
                    let d = &list[i];
                    let text = encode_edid(&d.edid_bytes);
                    entries.push(display_entry(d, text));
                    i = i + 1;
                }
                (0, entries, 0, String::new())
            },
        }
    }

    fn failure(&self, e: &BackendError) -> (reply: ListReply)
        ensures
            is_list_failure(reply, listing_name(self.force_redetect), *e),
    {
        let op = if self.force_redetect {
            "detect"
        } else {
            "list_displays"
        };
        let (status, text) = failure_reply(op, e);
        (0, Vec::new(), status, text)
    }
}

impl DdcutilService {
    /// Shared start of `detect` and `list_detected`: a forced listing rescans the
    /// displays first, and the `DETECT_ALL` flag asks for every display.
    pub fn list_displays_impl(&self, flags: u32, force_redetect: bool) -> (step: ListStep)
        ensures
            step == (if force_redetect {
                ListStep::Redetect(
                    DisplayListing { force_redetect, include_all: has_flag(flags, DETECT_ALL) },
                )
            } else {
                ListStep::ListDisplays(
                    DisplayListing { force_redetect, include_all: has_flag(flags, DETECT_ALL) },
                )
            }),
    {
        let listing = DisplayListing { force_redetect, include_all: flags & DETECT_ALL != 0 };
        if force_redetect {
            ListStep::Redetect(listing)
        } else {
            ListStep::ListDisplays(listing)
        }
    }

    /// `Detect`: rescans the displays, then lists them.
    pub fn detect(&self, flags: u32) -> (step: ListStep)
        ensures
            step == ListStep::Redetect(
                DisplayListing { force_redetect: true, include_all: has_flag(flags, DETECT_ALL) },
            ),
    {
        self.list_displays_impl(flags, true)
    }

    /// `ListDetected`: lists the displays found by the last scan.
    pub fn list_detected(&self, flags: u32) -> (step: ListStep)
        ensures
            step == ListStep::ListDisplays(
                DisplayListing { force_redetect: false, include_all: has_flag(flags, DETECT_ALL) },
            ),
    {
        self.list_displays_impl(flags, false)
    }
}

/// A `GetVcp` request in progress.
pub struct VcpQuery {
    pub display_number: i32,
    pub edid_text: String,
    /// The EDID text may be a unique prefix of the display's EDID.
    pub allow_edid_prefix: bool,
    pub vcp_code: u8,
}

/// The next thing a `GetVcp` request needs.
pub enum VcpStep {
    /// Ask the backend for the display with `Some(display_number)` and
    /// `Some(edid_text)` (a prefix where `allow_edid_prefix`), then call
    /// `after_find`.
    FindDisplay(VcpQuery),
    /// Open the display that was found, then call `after_open`.
    OpenDisplay(VcpQuery),
    /// Read feature `vcp_code` through the open display, then call `after_read`.
    ReadVcp(VcpQuery),
    /// The request is over: send this reply.
    Reply(VcpReply),
}

/// A `GetVcp` reply that reports the backend failure `e`.
pub open spec fn is_vcp_failure(reply: VcpReply, e: BackendError) -> bool {
    &&& reply.0 == 0
    &&& reply.1 == 0
    &&& reply.2@.len() == 0
    &&& reply.3 == reply_status(e)
    &&& reply.4@ == reply_message("get_vcp"@, e)
}

fn vcp_failure(e: &BackendError) -> (reply: VcpReply)
    ensures
        is_vcp_failure(reply, *e),
{
    let (status, text) = failure_reply("get_vcp", e);
    (0, 0, String::new(), status, text)
}

impl VcpQuery {
    /// Continues after the backend's display lookup: a failure ends the request with
    /// an error reply, success goes on to open the display.
    pub fn after_find(self, result: Result<(), BackendError>) -> (step: VcpStep)
        ensures
            match result {
                Ok(()) => step == VcpStep::OpenDisplay(self),
                Err(e) => step matches VcpStep::Reply(r) && is_vcp_failure(r, e),
            },
    {
        match result {
            Ok(()) => VcpStep::OpenDisplay(self),
            Err(e) => VcpStep::Reply(vcp_failure(&e)),
        }
    }

    /// Continues after opening the display: a failure ends the request with an error
    /// reply, success goes on to read the feature.
    pub fn after_open(self, result: Result<(), BackendError>) -> (step: VcpStep)
        ensures
            match result {
                Ok(()) => step == VcpStep::ReadVcp(self),
                Err(e) => step matches VcpStep::Reply(r) && is_vcp_failure(r, e),
            },
    {
        match result {
            Ok(()) => VcpStep::ReadVcp(self),
            Err(e) => VcpStep::Reply(vcp_failure(&e)),
        }
    }

    /// Ends the request with the feature value that was read, or with the failure.
    pub fn after_read(self, result: Result<VcpReading, BackendError>) -> (reply: VcpReply)
        ensures
            match result {
                Ok(v) => reply.0 == v.current && reply.1 == v.max && reply.2@ == v.formatted@
                    && reply.3 == 0 && reply.4@.len() == 0,
                Err(e) => is_vcp_failure(reply, e),
            },
    {
        match result {
            Ok(v) => (v.current, v.max, v.formatted, 0, String::new()),
            Err(e) => vcp_failure(&e),
        }
    }
}

impl DdcutilService {
    /// `GetVcp`: starts by looking up the display by number and EDID text; the
    /// `EDID_PREFIX_ALLOWED` flag lets the text be a prefix of the EDID.
    pub fn get_vcp(&self, display_number: i32, edid_txt: &str, vcp_code: u8, flags: u32) -> (step: VcpStep)
        ensures
            step matches VcpStep::FindDisplay(q) && q.display_number == display_number
                && q.edid_text@ == edid_txt@ && q.allow_edid_prefix == has_flag(
                flags,
                EDID_PREFIX_ALLOWED,
            ) && q.vcp_code == vcp_code,
    {
        VcpStep::FindDisplay(
            VcpQuery {
                display_number,
                edid_text: String::from_str(edid_txt),
                allow_edid_prefix: flags & EDID_PREFIX_ALLOWED != 0,
                vcp_code,
            },
        )
    }
}

/// Parsed capabilities of a display: model, MCCS major and minor version, command
/// names, and for each feature its name, description and value names.
pub type CapabilitiesReply = (
    String,
    u8,
    u8,
    HashMap<u8, String>,
    HashMap<u8, (String, String, HashMap<u8, String>)>,
    i32,
    String,
);

/// VCP metadata: name, description, read-only, write-only, read-write, complex,
/// continuous, error status, error message.
pub type VcpMetadataReply = (String, String, bool, bool, bool, bool, bool, i32, String);

impl DdcutilService {
    /// `Restart`: accepted and answered with success; the service keeps running as it is.
    pub fn restart(&mut self, text_options: &str, syslog_level: u32, flags: u32) -> (reply: (i32, String))
        ensures
            *final(self) == *old(self),
            reply.0 == 0,
            reply.1@.len() == 0,
    {
        (0, String::new())
    }

    /// `GetVcpMetadata`: answered with a generic read-write feature description.
    pub fn get_vcp_metadata(&self, display_number: i32, edid_txt: &str, vcp_code: u8, flags: u32) -> (reply:
        VcpMetadataReply)
        ensures
            reply.0@ == "Feature"@,
            reply.1@ == "Description"@,
            !reply.2,
            !reply.3,
            reply.4,
            !reply.5,
            !reply.6,
            reply.7 == 0,
            reply.8@.len() == 0,
    {
        (
            String::from_str("Feature"),
            String::from_str("Description"),
            false,
            false,
            true,
            false,
            false,
            0,
            String::new(),
        )
    }

    /// `GetCapabilitiesString`: answered with an empty capabilities string and success.
    pub fn get_capabilities_string(&self, display_number: i32, edid_txt: &str, flags: u32) -> (reply: (
        String,
        i32,
        String,
    ))
        ensures
            reply.0@.len() == 0,
            reply.1 == 0,
            reply.2@.len() == 0,
    {
        (String::new(), 0, String::new())
    }

    /// `GetCapabilitiesMetadata`: answered with empty capabilities and success.
    pub fn get_capabilities_metadata(&self, display_number: i32, edid_txt: &str, flags: u32) -> (reply:
        CapabilitiesReply)
        ensures
            reply.0@.len() == 0,
            reply.1 == 0,
            reply.2 == 0,
            reply.3@ == Map::<u8, String>::empty(),
            reply.4@ == Map::<u8, (String, String, HashMap<u8, String>)>::empty(),
            reply.5 == 0,
            reply.6@.len() == 0,
    {
        (String::new(), 0, 0, HashMap::new(), HashMap::new(), 0, String::new())
    }

    /// `GetDisplayState`: answered with state 0 and no message.
    pub fn get_display_state(&self, display_number: i32, edid_txt: &str, flags: u32) -> (reply: (i32, String))
        ensures
            reply.0 == 0,
            reply.1@.len() == 0,
    {
        (0, String::new())
    }

    /// Property `AttributesReturnedByDetect`: no attribute names.
    pub fn attributes_returned_by_detect(&self) -> (names: Vec<String>)
        ensures
            names@.len() == 0,
    {
        Vec::new()
    }

    /// Property `StatusValues`: no status names.
    pub fn status_values(&self) -> (names: HashMap<i32, String>)
        ensures
            names@ == Map::<i32, String>::empty(),
    {
        HashMap::new()
    }

    /// Property `DdcutilVersion`.
    pub fn ddcutil_version(&self) -> (version: &'static str)
        ensures
            version@ == "0.0.0"@,
    {
        "0.0.0"
    }

    /// Property `DdcutilDynamicSleep`.
    pub fn ddcutil_dynamic_sleep(&self) -> (on: bool)
        ensures
            on == self.dynamic_sleep,
    {
        self.dynamic_sleep
    }

    /// Sets property `DdcutilDynamicSleep`.
    pub fn set_ddcutil_dynamic_sleep(&mut self, value: bool)
        ensures
            *final(self) == (DdcutilService { dynamic_sleep: value, ..*old(self) }),
    {
        self.dynamic_sleep = value;
    }

    /// Property `DdcutilOutputLevel`.
    pub fn ddcutil_output_level(&self) -> (level: u32)
        ensures
            level == self.output_level,
    {
        self.output_level
    }

    /// Sets property `DdcutilOutputLevel`.
    pub fn set_ddcutil_output_level(&mut self, value: u32)
        ensures
            *final(self) == (DdcutilService { output_level: value, ..*old(self) }),
    {
        self.output_level = value;
    }

    /// Property `DisplayEventTypes`: no event type names.
    pub fn display_event_types(&self) -> (names: HashMap<i32, String>)
        ensures
            names@ == Map::<i32, String>::empty(),
    {
        HashMap::new()
    }

    /// Property `ServiceInterfaceVersion`.
    pub fn service_interface_version(&self) -> (version: &'static str)
        ensures
            version@ == "1.0"@,
    {
        "1.0"
    }

    /// Property `ServiceInfoLogging`: off.
    pub fn service_info_logging(&self) -> (on: bool)
        ensures
            !on,
    {
        false
    }

    /// Sets property `ServiceInfoLogging`: the value is ignored.
    pub fn set_service_info_logging(&mut self, value: bool)
        ensures
            *final(self) == *old(self),
    {
    }

    /// Property `ServiceEmitConnectivitySignals`: off.
    pub fn service_emit_connectivity_signals(&self) -> (on: bool)
        ensures
            !on,
    {
        false
    }

    /// Sets property `ServiceEmitConnectivitySignals`: the value is ignored.
    pub fn set_service_emit_connectivity_signals(&mut self, value: bool)
        ensures
            *final(self) == *old(self),
    {
    }

    /// Property `ServiceEmitSignals`: off.
    pub fn service_emit_signals(&self) -> (on: bool)
        ensures
            !on,
    {
        false
    }

    /// Sets property `ServiceEmitSignals`: the value is ignored.
    pub fn set_service_emit_signals(&mut self, value: bool)
        ensures
            *final(self) == *old(self),
    {
    }

    /// Property `ServiceFlagOptions`: no flag names.
    pub fn service_flag_options(&self) -> (names: HashMap<i32, String>)
        ensures
            names@ == Map::<i32, String>::empty(),
    {
        HashMap::new()
    }

    /// Property `ServiceParametersLocked`: not locked.
    pub fn service_parameters_locked(&self) -> (locked: bool)
        ensures
            !locked,
    {
        false
    }

    /// Property `ServicePollInterval`: 0.
    pub fn service_poll_interval(&self) -> (secs: u32)
        ensures
            secs == 0,
    {
        0
    }

    /// Sets property `ServicePollInterval`: the value is ignored.
    pub fn set_service_poll_interval(&mut self, value: u32)
        ensures
            *final(self) == *old(self),
    {
    }
}

/// Of a listing's flags only the `DETECT_ALL` bit matters: the flags and that bit alone
/// ask for the same displays.
pub proof fn law_only_detect_all_matters(flags: u32)
    ensures
        has_flag(flags, DETECT_ALL) == has_flag(flags & DETECT_ALL, DETECT_ALL),
{
    assert((flags & 8u32 != 0u32) == ((flags & 8u32) & 8u32 != 0u32)) by (bit_vector);
}

/// A failed listing is never silent: its message is not empty and starts with the
/// name of the operation, followed by a colon.
pub proof fn law_listing_failure_is_named(force_redetect: bool, e: BackendError)
    ensures
        reply_message(listing_name(force_redetect), e).len() > 0,
        reply_message(listing_name(force_redetect), e).take(listing_name(force_redetect).len() + 1int)
            == listing_name(force_redetect) + ":"@,
{
    reveal_strlit("detect");
    reveal_strlit("list_displays");
    reveal_strlit(": ");
    reveal_strlit(":");
    let op = listing_name(force_redetect);
    let m = reply_message(op, e);
    assert(m == op + ": "@ + e.message@);
    assert(m.take(op.len() + 1int) =~= op + ":"@);
}

/// A listing entry carries the listed display's fields unchanged: its number, USB bus
/// and device, manufacturer id, model name, serial number, product code and binary
/// serial number, with the given EDID text.
pub proof fn law_entry_copies_display(entry: DisplayEntry, d: DisplayInfo, edid_text: Seq<char>)
    requires
        entry_describes(entry, d, edid_text),
    ensures
        entry.0 == d.display_number,
        entry.1 == d.usb_bus,
        entry.2 == d.usb_device,
        entry.3@ == d.manufacturer_id@,
        entry.4@ == d.model_name@,
        entry.5@ == d.serial_number@,
        entry.6 == d.product_code,
        entry.7@ == edid_text,
        entry.8 == d.edid_serial,
{
}

/// Each flag is read from its own bit: `EDID_PREFIX_ALLOWED` is the lowest bit and
/// `DETECT_ALL` the fourth, so a flags word of 0 asks for neither.
pub proof fn law_flags_are_bits(flags: u32)
    ensures
        has_flag(flags, EDID_PREFIX_ALLOWED) == (flags % 2 == 1),
        has_flag(flags, DETECT_ALL) == ((flags / 8) % 2 == 1),
        !has_flag(0, EDID_PREFIX_ALLOWED),
        !has_flag(0, DETECT_ALL),
{
    assert((flags & 1u32 != 0u32) == (flags % 2 == 1)) by (bit_vector);
    assert((flags & 8u32 != 0u32) == ((flags / 8) % 2 == 1)) by (bit_vector);
    assert(0u32 & 1u32 == 0u32) by (bit_vector);
    assert(0u32 & 8u32 == 0u32) by (bit_vector);
}

} // verus!
