//! The configuration and poller bookkeeping that the varlink service keeps under its
//! single lock, and the decisions taken on it.

use crate::backend::BackendError;
use crate::polling::PollSleep;
use vstd::prelude::*;
use vstd::string::*;

verus! {

/// Polling interval of a fresh service, in seconds.
pub const DEFAULT_POLL_INTERVAL_SECS: u32 = 30;

/// How long the poller waits, in seconds, before looking again while events are off.
pub const IDLE_POLL_SECS: u64 = 5;

/// What `str::to_lowercase` gives for a string.
pub uninterp spec fn lowercase(s: Seq<char>) -> Seq<char>;

/// Every character of the text is ASCII.
pub open spec fn is_ascii_text(s: Seq<char>) -> bool {
    forall|i: int| 0 <= i < s.len() ==> (#[trigger] s[i] as int) < 128
}

/// The ASCII lowercase form of a character: `A`–`Z` become `a`–`z`, all else stays.
pub open spec fn ascii_lower(c: char) -> char {
    if 65 <= c as int <= 90 {
        ((c as int) + 32) as char
    } else {
        c
    }
}

/// The text is "true" in some mix of letter cases.
pub open spec fn ascii_true_any_case(v: Seq<char>) -> bool {
    &&& v.len() == 4
    &&& ascii_lower(v[0]) == 't'
    &&& ascii_lower(v[1]) == 'r'
    &&& ascii_lower(v[2]) == 'u'
    &&& ascii_lower(v[3]) == 'e'
}

/// Lowercases a string with `str::to_lowercase`.  Claimed: the result is what that
/// function gives for this string; and for ASCII text, where the Unicode lowercase
/// mapping is the ASCII one, each character is lowercased in place.
#[verifier::external_body]
fn to_lowercase(s: &str) -> (lower: String)
    ensures
        lower@ == lowercase(s@),
        is_ascii_text(s@) ==> lower@ == s@.map_values(|c: char| ascii_lower(c)),
{
    s.to_lowercase()
}

/// Whether a value of the redetect setting asks the poller to rescan before each poll:
/// "true" in any letter case, or "1".
pub open spec fn redetect_value_set(value: Seq<char>) -> bool {
    lowercase(value) == "true"@ || value == "1"@
}

/// Reads the redetect setting; an absent (or unreadable) value leaves it off.
pub fn redetect_requested(value: Option<&str>) -> (on: bool)
    ensures
        on == match value {
            Some(v) => redetect_value_set(v@),
            None => false,
        },
        match value {
            Some(v) => is_ascii_text(v@) ==> (on <==> (v@ == "1"@ || ascii_true_any_case(v@))),
            None => true,
        },
{
    match value {
        None => false,
        Some(v) => {
            let lower = to_lowercase(v);
            let on = lower == String::from_str("true") || String::from_str(v) == String::from_str("1");
            proof {
                reveal_strlit("true");
                if is_ascii_text(v@) {
                    let m = v@.map_values(|c: char| ascii_lower(c));
                    assert(lower@ == m);
                    if ascii_true_any_case(v@) {
                        assert(m =~= "true"@);
                    }
                    if m == "true"@ {
                        assert(m[0] == 't' && m[1] == 'r' && m[2] == 'u' && m[3] == 'e');
                    }
                }
            }
            on
        },
    }
}

/// What the poller does next.
#[derive(Clone, Copy, Debug, PartialEq, Eq, Structural)]
pub enum PollStep {
    /// Leave the polling loop.
    Stop,
    /// Sleep, then ask again.
    Sleep(PollSleep),
    /// Ask the backend to rescan the displays, then call `after_redetect`.
    Redetect,
    /// Ask the backend for all displays with their DPMS states, then hand the result
    /// to `PollingState::observe`.
    ListDisplays,
}

/// What must be done to the backend's display watching after a change of the
/// events setting.
#[derive(Clone, Copy, Debug, PartialEq, Eq, Structural)]
pub enum WatchCall {
    Unchanged,
    StartWatching,
    StopWatching,
}

/// Continues a poll after the backend's rescan: on failure the poller sleeps the
/// polling interval, on success it lists the displays.
pub fn after_redetect(interval_secs: u32, result: Result<(), BackendError>) -> (step: PollStep)
    ensures
        step == match result {
            Ok(()) => PollStep::ListDisplays,
            Err(_) => PollStep::Sleep(PollSleep::Seconds(interval_secs as u64)),
        },
{
    match result {
        Ok(()) => PollStep::ListDisplays,
        Err(_) => PollStep::Sleep(PollSleep::Seconds(interval_secs as u64)),
    }
}

/// The state shared by the varlink service and its poller.
pub struct ServiceSharedState {
    pub poll_interval_secs: u32,
    /// Rescan the displays before each poll (for old backends whose hotplug
    /// detection is unreliable).
    pub poll_do_redetect: bool,
    pub events_enabled: bool,
    /// A poller has been started and not stopped.
    pub polling: bool,
}

impl ServiceSharedState {
    /// A fresh state: the default interval, the redetect setting read from `value`,
    /// events off, no poller.
    pub fn with_redetect_value(value: Option<&str>) -> (s: ServiceSharedState)
        ensures
            s.poll_interval_secs == DEFAULT_POLL_INTERVAL_SECS,
            s.poll_do_redetect == match value {
                Some(v) => redetect_value_set(v@),
                None => false,
            },
            match value {
                Some(v) => is_ascii_text(v@) ==> (s.poll_do_redetect <==> (v@ == "1"@
                    || ascii_true_any_case(v@))),
                None => true,
            },
            !s.events_enabled,
            !s.polling,
    {
        ServiceSharedState {
            poll_interval_secs: DEFAULT_POLL_INTERVAL_SECS,
            poll_do_redetect: redetect_requested(value),
            events_enabled: false,
            polling: false,
        }
    }

    /// The start of one poll (once no shutdown was asked for): stop when the interval
    /// is zero, wait while events are off, otherwise rescan first (where configured)
    /// or list the displays.  A poller that stops is no longer marked as running, so
    /// that `start_polling` starts a new one.
    pub fn poll_step(&mut self) -> (step: PollStep)
        ensures
            step == (if old(self).poll_interval_secs == 0 {
                PollStep::Stop
            } else if !old(self).events_enabled {
                PollStep::Sleep(PollSleep::Seconds(IDLE_POLL_SECS))
            } else if old(self).poll_do_redetect {
                PollStep::Redetect
            } else {
                PollStep::ListDisplays
            }),
            step == PollStep::Stop ==> *final(self) == (ServiceSharedState {
                polling: false,
                ..*old(self)
            }),
            step != PollStep::Stop ==> *final(self) == *old(self),
    {
        if self.poll_interval_secs == 0 {
            self.polling = false;
            PollStep::Stop
        } else if !self.events_enabled {
            PollStep::Sleep(PollSleep::Seconds(IDLE_POLL_SECS))
        } else if self.poll_do_redetect {
            PollStep::Redetect
        } else {
            PollStep::ListDisplays
        }
    }

    /// Marks the poller started.  Returns whether a poller must be spawned: not when one
    /// is already running.
    pub fn start_polling(&mut self) -> (spawn: bool)
        ensures
            spawn == !old(self).polling,
            *final(self) == (ServiceSharedState { polling: true, ..*old(self) }),
    {
        if self.polling {
            false
        } else {
            self.polling = true;
            true
        }
    }

    /// Marks the poller stopped.  Returns whether a running poller must be told to
    /// shut down and be joined.
    pub fn stop_polling(&mut self) -> (running: bool)
        ensures
            running == old(self).polling,
            *final(self) == (ServiceSharedState { polling: false, ..*old(self) }),
    {
        let running = self.polling;
        self.polling = false;
        running
    }

    /// Records the events setting and says what to do to the backend's display
    /// watching: nothing when events are asked for and already on; otherwise the
    /// setting is stored and watching is started (events on) or stopped (events off).
    pub fn set_events_enabled(&mut self, enable: bool) -> (call: WatchCall)
        ensures
            (enable && old(self).events_enabled) ==> call == WatchCall::Unchanged
                && *final(self) == *old(self),
            !(enable && old(self).events_enabled) ==> call == (if enable {
                WatchCall::StartWatching
            } else {
                WatchCall::StopWatching
            }) && *final(self) == (ServiceSharedState { events_enabled: enable, ..*old(self) }),
    {
        if enable == self.events_enabled && enable {
            WatchCall::Unchanged
        } else {
            self.events_enabled = enable;
            if enable {
                WatchCall::StartWatching
            } else {
                WatchCall::StopWatching
            }
        }
    }
}

} // verus!
