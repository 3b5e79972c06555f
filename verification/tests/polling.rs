use ddc_ci_daemons::backend::BackendError;
use ddc_ci_daemons::events::{DisplayEvent, DisplayEventKind};
use ddc_ci_daemons::polling::{PollSleep, PollingState, ScannedDisplay};

const EDID_A_TEXT: &str = "AP///////wAAAAAAAAAAAAAAAAAAAAAAAAAAAAAAAAAAAAAAAAAAAAAAAAAAAAAAAAAAAAAAAAAAAAAAAAAAAAAAAAAAAAAAAAAAAAAAAAAAAAAAAAAAAAAAAAAAAAAAAAAAAAAAAAAAAAAAAAAAAAAAAAAAAAAAAAAAAAAAAAA=";
const EDID_B_TEXT: &str = "AP///////wAi8AEBAQEBAQEBAQEBAQEBAQEBAQEBAQEBAQEBAQEBAQEBAQEBAQEBAQEBAQEBAQEBAQEBAQEBAQEBAQEBAQEBAQEBAQEBAQEBAQEBAQEBAQEBAQEBAQEBAQEBAQEBAQEBAQEBAQEBAQEBAQEBAQEBAQEBAQEBAQE=";

fn edid_a() -> [u8; 128] {
    let mut e = [0u8; 128];
    for i in 1..7 {
        e[i] = 255;
    }
    e
}

fn edid_b() -> [u8; 128] {
    let mut e = [1u8; 128];
    e[0] = 0;
    for i in 1..7 {
        e[i] = 255;
    }
    e[7] = 0;
    e[8] = 0x22;
    e[9] = 0xf0;
    e
}

fn scanned(edid: [u8; 128], dpms: Option<bool>) -> ScannedDisplay {
    ScannedDisplay { edid_bytes: edid, dpms_awake: dpms }
}

fn plain(events: &[DisplayEvent]) -> Vec<(String, DisplayEventKind)> {
    events.iter().map(|e| (e.edid_text.clone(), e.kind)).collect()
}

#[test]
fn first_scan_is_silent_but_a_connection_change() {
    let mut p = PollingState::new();
    let (events, sleep) = p.observe(30, Ok(vec![scanned(edid_a(), Some(true))]));
    assert!(events.is_empty());
    assert_eq!(sleep, PollSleep::Cascade);
}

#[test]
fn first_scan_without_displays_sleeps_the_interval() {
    let mut p = PollingState::new();
    let (events, sleep) = p.observe(30, Ok(Vec::new()));
    assert!(events.is_empty());
    assert_eq!(sleep, PollSleep::Seconds(30));
}

#[test]
fn unchanged_scan_is_quiet() {
    let mut p = PollingState::new();
    p.observe(30, Ok(vec![scanned(edid_a(), Some(true)), scanned(edid_b(), None)]));
    let (events, sleep) =
        p.observe(45, Ok(vec![scanned(edid_b(), Some(false)), scanned(edid_a(), Some(true))]));
    assert!(events.is_empty());
    assert_eq!(sleep, PollSleep::Seconds(45));
}

#[test]
fn new_display_and_dpms_change() {
    let mut p = PollingState::new();
    p.observe(30, Ok(vec![scanned(edid_a(), Some(true))]));
    let (events, sleep) =
        p.observe(30, Ok(vec![scanned(edid_a(), Some(false)), scanned(edid_b(), None)]));
    assert_eq!(
        plain(&events),
        vec![
            (EDID_B_TEXT.to_string(), DisplayEventKind::Connected),
            (EDID_A_TEXT.to_string(), DisplayEventKind::DpmsAsleep),
        ]
    );
    assert_eq!(sleep, PollSleep::Cascade);
}

#[test]
fn lost_display_comes_before_dpms_events() {
    let mut p = PollingState::new();
    p.observe(30, Ok(vec![scanned(edid_a(), Some(true)), scanned(edid_b(), Some(false))]));
    let (events, sleep) = p.observe(30, Ok(vec![scanned(edid_b(), Some(true))]));
    assert_eq!(
        plain(&events),
        vec![
            (EDID_A_TEXT.to_string(), DisplayEventKind::Disconnected),
            (EDID_B_TEXT.to_string(), DisplayEventKind::DpmsAwake),
        ]
    );
    assert_eq!(sleep, PollSleep::Cascade);
}

#[test]
fn dpms_change_alone_sleeps_the_interval() {
    let mut p = PollingState::new();
    p.observe(30, Ok(vec![scanned(edid_a(), None)]));
    let (events, sleep) = p.observe(30, Ok(vec![scanned(edid_a(), Some(true))]));
    assert_eq!(plain(&events), vec![(EDID_A_TEXT.to_string(), DisplayEventKind::DpmsAwake)]);
    assert_eq!(sleep, PollSleep::Seconds(30));
}

#[test]
fn failed_scan_changes_nothing() {
    let mut p = PollingState::new();
    p.observe(30, Ok(vec![scanned(edid_a(), Some(true))]));
    let (events, sleep) =
        p.observe(20, Err(BackendError { status: -1, message: "bus error".to_string() }));
    assert!(events.is_empty());
    assert_eq!(sleep, PollSleep::Seconds(20));
    let (events, sleep) = p.observe(30, Ok(vec![scanned(edid_a(), Some(true))]));
    assert!(events.is_empty());
    assert_eq!(sleep, PollSleep::Seconds(30));
}

#[test]
fn failed_first_scan_keeps_initializing() {
    let mut p = PollingState::new();
    p.observe(30, Err(BackendError { status: -1, message: "bus error".to_string() }));
    let (events, _) = p.observe(30, Ok(vec![scanned(edid_a(), Some(true))]));
    assert!(events.is_empty());
}

#[test]
fn last_report_of_a_display_wins() {
    let mut p = PollingState::new();
    p.observe(30, Ok(vec![scanned(edid_a(), Some(true)), scanned(edid_a(), Some(false))]));
    let (events, _) = p.observe(30, Ok(vec![scanned(edid_a(), Some(true))]));
    assert_eq!(plain(&events), vec![(EDID_A_TEXT.to_string(), DisplayEventKind::DpmsAwake)]);
}

#[test]
fn all_displays_lost() {
    let mut p = PollingState::new();
    p.observe(30, Ok(vec![scanned(edid_a(), Some(true)), scanned(edid_b(), Some(true))]));
    let (events, sleep) = p.observe(30, Ok(Vec::new()));
    assert_eq!(
        plain(&events),
        vec![
            (EDID_A_TEXT.to_string(), DisplayEventKind::Disconnected),
            (EDID_B_TEXT.to_string(), DisplayEventKind::Disconnected),
        ]
    );
    assert_eq!(sleep, PollSleep::Cascade);
}

#[test]
fn going_back_mirrors_the_events() {
    let mut p = PollingState::new();
    p.observe(30, Ok(vec![scanned(edid_a(), Some(true))]));
    let (forward, _) = p.observe(30, Ok(vec![scanned(edid_b(), Some(true))]));
    assert_eq!(
        plain(&forward),
        vec![
            (EDID_A_TEXT.to_string(), DisplayEventKind::Disconnected),
            (EDID_B_TEXT.to_string(), DisplayEventKind::Connected),
        ]
    );
    let (back, _) = p.observe(30, Ok(vec![scanned(edid_a(), Some(true))]));
    assert_eq!(
        plain(&back),
        vec![
            (EDID_B_TEXT.to_string(), DisplayEventKind::Disconnected),
            (EDID_A_TEXT.to_string(), DisplayEventKind::Connected),
        ]
    );
}
