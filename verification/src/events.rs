//! Events that the daemons hand on to their subscribers.

use vstd::prelude::*;
use vstd::string::*;

verus! {

/// What the connectivity poller saw happen to a display.
#[derive(Clone, Copy, Debug, PartialEq, Eq, Structural)]
pub enum DisplayEventKind {
    Connected,
    Disconnected,
    DpmsAwake,
    DpmsAsleep,
}

/// A hotplug or DPMS change of one display, named by its base64 EDID.
pub struct DisplayEvent {
    pub edid_text: String,
    pub kind: DisplayEventKind,
}

/// The plain value of an event: the EDID text and the kind.
pub open spec fn event_value(e: DisplayEvent) -> (Seq<char>, DisplayEventKind) {
    (e.edid_text@, e.kind)
}

/// The plain values of a sequence of events, in order.
pub open spec fn event_values(s: Seq<DisplayEvent>) -> Seq<(Seq<char>, DisplayEventKind)> {
    s.map_values(|e: DisplayEvent| event_value(e))
}

/// A VCP value change to broadcast to the varlink subscribers.
pub struct VcpChange {
    pub display_number: Option<i64>,
    pub edid_base64: Option<String>,
    pub vcp_code: i64,
    pub new_value: i64,
    /// The context string of the client that made the change; empty when it gave none.
    pub client_context: String,
}

/// The context text a broadcast carries: the client's context, or empty.
pub open spec fn context_text(client_context: Option<String>) -> Seq<char> {
    match client_context {
        Some(c) => c@,
        None => Seq::empty(),
    }
}

impl VcpChange {
    /// The broadcast of a VCP value that a client set.
    pub fn new(
        display_number: Option<i64>,
        edid_base64: Option<&str>,
        vcp_code: i64,
        new_value: i64,
        client_context: Option<String>,
    ) -> (change: VcpChange)
        ensures
            change.display_number == display_number,
            match edid_base64 {
                Some(e) => change.edid_base64 matches Some(t) && t@ == e@,
                None => change.edid_base64 is None,
            },
            change.vcp_code == vcp_code,
            change.new_value == new_value,
            change.client_context@ == context_text(client_context),
            client_context matches Some(c) ==> change.client_context@ == c@,
            client_context is None ==> change.client_context@.len() == 0,
    {
        let edid = match edid_base64 {
            Some(e) => Some(String::from_str(e)),
            None => None,
        };
        let context = match client_context {
            Some(c) => c,
            None => String::new(),
        };
        VcpChange { display_number, edid_base64: edid, vcp_code, new_value, client_context: context }
    }
}

/// A broadcast carries the client's context exactly as the client gave it, and an
/// empty context when the client gave none.
pub proof fn law_context_is_the_clients(client_context: Option<String>)
    ensures
        client_context matches Some(c) ==> context_text(client_context) == c@,
        client_context is None ==> context_text(client_context).len() == 0,
{
}

} // verus!
