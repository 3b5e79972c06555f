//! Verified core of the DDC/CI display-control daemons: the request logic of the
//! D-Bus service, the shared polling configuration of the varlink service, and the
//! connectivity polling state machine that turns display scans into hotplug and
//! DPMS events.

pub mod backend;
pub mod edid;
pub mod service;
pub mod events;
pub mod polling;
pub mod shared_state;
pub mod polling_laws;
pub mod vcp_requests;
