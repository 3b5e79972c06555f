use ddc_ci_daemons::backend::BackendError;
use ddc_ci_daemons::events::VcpChange;
use ddc_ci_daemons::polling::PollSleep;
use ddc_ci_daemons::shared_state::{
    after_redetect, redetect_requested, PollStep, ServiceSharedState, WatchCall,
    DEFAULT_POLL_INTERVAL_SECS, IDLE_POLL_SECS,
};

fn state(interval: u32, redetect: bool, events: bool) -> ServiceSharedState {
    ServiceSharedState { poll_interval_secs: interval, poll_do_redetect: redetect, events_enabled: events, polling: false }
}

#[test]
fn redetect_setting_values() {
    assert!(redetect_requested(Some("true")));
    assert!(redetect_requested(Some("TRUE")));
    assert!(redetect_requested(Some("True")));
    assert!(redetect_requested(Some("1")));
    assert!(!redetect_requested(Some("yes")));
    assert!(!redetect_requested(Some("10")));
    assert!(!redetect_requested(Some("")));
    assert!(!redetect_requested(Some(" true")));
    assert!(!redetect_requested(None));
}

#[test]
fn fresh_state() {
    let s = ServiceSharedState::with_redetect_value(None);
    assert_eq!(s.poll_interval_secs, 30);
    assert_eq!(DEFAULT_POLL_INTERVAL_SECS, 30);
    assert!(!s.poll_do_redetect);
    assert!(!s.events_enabled);
    assert!(!s.polling);
    assert!(ServiceSharedState::with_redetect_value(Some("tRuE")).poll_do_redetect);
}

#[test]
fn poll_step_decisions() {
    assert_eq!(state(0, false, true).poll_step(), PollStep::Stop);
    assert_eq!(state(0, false, false).poll_step(), PollStep::Stop);
    assert_eq!(state(30, true, false).poll_step(), PollStep::Sleep(PollSleep::Seconds(5)));
    assert_eq!(IDLE_POLL_SECS, 5);
    assert_eq!(state(30, true, true).poll_step(), PollStep::Redetect);
    assert_eq!(state(30, false, true).poll_step(), PollStep::ListDisplays);
    assert_eq!(state(1, false, true).poll_step(), PollStep::ListDisplays);
}

#[test]
fn stopped_poller_can_be_started_again() {
    let mut s = state(30, false, true);
    assert!(s.start_polling());
    s.poll_interval_secs = 0;
    assert_eq!(s.poll_step(), PollStep::Stop);
    assert!(!s.polling);
    s.poll_interval_secs = 30;
    assert!(s.start_polling());
    assert_eq!(s.poll_step(), PollStep::ListDisplays);
    assert!(s.polling);
}

#[test]
fn redetect_outcome() {
    assert_eq!(after_redetect(30, Ok(())), PollStep::ListDisplays);
    let e = BackendError { status: -1, message: "x".to_string() };
    assert_eq!(after_redetect(12, Err(e)), PollStep::Sleep(PollSleep::Seconds(12)));
}

#[test]
fn one_poller_at_a_time() {
    let mut s = state(30, false, false);
    assert!(s.start_polling());
    assert!(s.polling);
    assert!(!s.start_polling());
    assert!(s.stop_polling());
    assert!(!s.polling);
    assert!(!s.stop_polling());
    assert!(s.start_polling());
    assert_eq!(s.poll_interval_secs, 30);
}

#[test]
fn events_setting_drives_watching() {
    let mut s = state(30, false, false);
    assert_eq!(s.set_events_enabled(true), WatchCall::StartWatching);
    assert!(s.events_enabled);
    assert_eq!(s.set_events_enabled(true), WatchCall::Unchanged);
    assert!(s.events_enabled);
    assert_eq!(s.set_events_enabled(false), WatchCall::StopWatching);
    assert!(!s.events_enabled);
    assert_eq!(s.set_events_enabled(false), WatchCall::StopWatching);
    assert!(!s.events_enabled);
}

#[test]
fn vcp_change_broadcast() {
    let c = VcpChange::new(Some(2), Some("AP//"), 16, 70, Some("slider".to_string()));
    assert_eq!(c.display_number, Some(2));
    assert_eq!(c.edid_base64.as_deref(), Some("AP//"));
    assert_eq!((c.vcp_code, c.new_value), (16, 70));
    assert_eq!(c.client_context, "slider");
    let c = VcpChange::new(None, None, 18, 0, None);
    assert_eq!(c.display_number, None);
    assert_eq!(c.edid_base64, None);
    assert_eq!(c.client_context, "");
}
