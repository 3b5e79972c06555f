//! The connectivity poller: a state machine that compares each scan of the
//! connected displays with the previous one and decides which hotplug and DPMS events
//! to send and how long to sleep before the next scan.
//!
//! Displays are keyed by the base64 text of their EDID.  The caller runs the loop:
//! it asks `ServiceSharedState::poll_step` what to do, performs the backend calls,
//! and hands the scan to `PollingState::observe`.

use crate::backend::BackendError;
use crate::edid::{base64_standard, encode_edid};
use crate::events::{event_value, event_values, DisplayEvent, DisplayEventKind};
use vstd::prelude::*;

verus! {

/// A display key (base64 EDID text) with its DPMS state (`true`: awake).
pub type Presence = (Seq<char>, bool);

/// The key occurs in the entries.
pub open spec fn has_key(entries: Seq<Presence>, k: Seq<char>) -> bool {
    exists|i: int| #![trigger entries[i]] 0 <= i < entries.len() && entries[i].0 == k
}

/// No key occurs twice in the entries.
pub open spec fn unique_keys(entries: Seq<Presence>) -> bool {
    forall|i: int, j: int|
        #![trigger entries[i], entries[j]]
        0 <= i < entries.len() && 0 <= j < entries.len() && entries[i].0 == entries[j].0 ==> i == j
}

/// The DPMS state recorded for the key, if the key occurs.
pub open spec fn lookup(entries: Seq<Presence>, k: Seq<char>) -> Option<bool> {
    if has_key(entries, k) {
        Some(entries[choose|i: int| 0 <= i < entries.len() && entries[i].0 == k].1)
    } else {
        None
    }
}

/// Records a key with a state: an entry of that key takes the new state in place,
/// and a new key is appended.
pub open spec fn upsert(entries: Seq<Presence>, k: Seq<char>, awake: bool) -> Seq<Presence> {
    if has_key(entries, k) {
        entries.map_values(|e: Presence| if e.0 == k { (k, awake) } else { e })
    } else {
        entries.push((k, awake))
    }
}

/// The entries that a scan yields: each scanned key in turn is recorded, so a later
/// occurrence of a key overrides an earlier one.
pub open spec fn scan_entries(scan: Seq<Presence>) -> Seq<Presence>
    decreases scan.len(),
{
    if scan.len() == 0 {
        Seq::empty()
    } else {
        upsert(scan_entries(scan.drop_last()), scan.last().0, scan.last().1)
    }
}

/// One display found by a scan: its EDID block and its DPMS state, `None` where the
/// DPMS query failed.
pub struct ScannedDisplay {
    pub edid_bytes: [u8; 128],
    pub dpms_awake: Option<bool>,
}

/// The DPMS state the poller records: a failed query counts as asleep.
pub open spec fn recorded_awake(reading: Option<bool>) -> bool {
    match reading {
        Some(a) => a,
        None => false,
    }
}

/// The key and recorded state of each scanned display, in scan order.
pub open spec fn scan_pairs(displays: Seq<ScannedDisplay>) -> Seq<Presence> {
    displays.map_values(
        |d: ScannedDisplay| (base64_standard(d.edid_bytes@), recorded_awake(d.dpms_awake)),
    )
}

/// `Disconnected` events for the keys of `prev` that `cur` lacks, in the order of `prev`.
pub open spec fn disconnect_events(prev: Seq<Presence>, cur: Seq<Presence>) -> Seq<
    (Seq<char>, DisplayEventKind),
>
    decreases prev.len(),
{
    if prev.len() == 0 {
        Seq::empty()
    } else {
        let rest = disconnect_events(prev.drop_last(), cur);
        if has_key(cur, prev.last().0) {
            rest
        } else {
            rest.push((prev.last().0, DisplayEventKind::Disconnected))
        }
    }
}

/// `Connected` events for the keys of `cur` that `prev` lacks, in the order of `cur`.
pub open spec fn connect_events(prev: Seq<Presence>, cur: Seq<Presence>) -> Seq<
    (Seq<char>, DisplayEventKind),
>
    decreases cur.len(),
{
    if cur.len() == 0 {
        Seq::empty()
    } else {
        let rest = connect_events(prev, cur.drop_last());
        if has_key(prev, cur.last().0) {
            rest
        } else {
            rest.push((cur.last().0, DisplayEventKind::Connected))
        }
    }
}

/// The DPMS event kind for a display that is now in the given state.
pub open spec fn dpms_kind(awake: bool) -> DisplayEventKind {
    if awake {
        DisplayEventKind::DpmsAwake
    } else {
        DisplayEventKind::DpmsAsleep
    }
}

/// DPMS events for the keys of `cur` whose state differs from the one in `prev`, in
/// the order of `cur`.
pub open spec fn dpms_events(prev: Seq<Presence>, cur: Seq<Presence>) -> Seq<
    (Seq<char>, DisplayEventKind),
>
    decreases cur.len(),
{
    if cur.len() == 0 {
        Seq::empty()
    } else {
        let rest = dpms_events(prev, cur.drop_last());
        if lookup(prev, cur.last().0) == Some(!cur.last().1) {
            rest.push((cur.last().0, dpms_kind(cur.last().1)))
        } else {
            rest
        }
    }
}

/// All events of a scan after the first: disconnections, then connections, then DPMS
/// changes.
pub open spec fn poll_events(prev: Seq<Presence>, cur: Seq<Presence>) -> Seq<
    (Seq<char>, DisplayEventKind),
> {
    disconnect_events(prev, cur) + connect_events(prev, cur) + dpms_events(prev, cur)
}

/// Some display was lost or newly detected between the two scans.
pub open spec fn connection_changed(prev: Seq<Presence>, cur: Seq<Presence>) -> bool {
    disconnect_events(prev, cur).len() > 0 || connect_events(prev, cur).len() > 0
}

/// How long the poller sleeps.
#[derive(Clone, Copy, Debug, PartialEq, Eq, Structural)]
pub enum PollSleep {
    Seconds(u64),
    /// The short cascade interval, used right after a connection change.
    Cascade,
}

/// A display and its DPMS state as recorded by the poller.
pub struct DisplayPresence {
    pub edid_text: String,
    pub awake: bool,
}

/// The plain values of recorded displays, in order.
pub open spec fn presences(v: Seq<DisplayPresence>) -> Seq<Presence> {
    v.map_values(|p: DisplayPresence| (p.edid_text@, p.awake))
}

/// What the poller remembers between scans.
pub struct PollingView {
    /// The displays of the last successful scan.
    pub previous: Seq<Presence>,
    /// No scan has succeeded yet.
    pub initializing: bool,
}

/// The poller's memory of the last successful scan.
pub struct PollingState {
    previous: Vec<DisplayPresence>,
    initializing: bool,
}

impl View for PollingState {
    type V = PollingView;

    closed spec fn view(&self) -> PollingView {
        PollingView { previous: presences(self.previous@), initializing: self.initializing }
    }
}

/// Recording a key keeps the keys unique, and the key is then present.
pub proof fn lemma_upsert_unique(entries: Seq<Presence>, k: Seq<char>, awake: bool)
    requires
        unique_keys(entries),
    ensures
        unique_keys(upsert(entries, k, awake)),
        has_key(upsert(entries, k, awake), k),
{
    let r = upsert(entries, k, awake);
    if has_key(entries, k) {
        assert forall|i: int, j: int|
            0 <= i < r.len() && 0 <= j < r.len() && r[i].0 == r[j].0 implies i == j by {
            assert(r[i].0 == entries[i].0);
            assert(r[j].0 == entries[j].0);
        }
        let w = choose|i: int| 0 <= i < entries.len() && entries[i].0 == k;
        assert(r[w].0 == k);
    } else {
        assert forall|i: int, j: int|
            0 <= i < r.len() && 0 <= j < r.len() && r[i].0 == r[j].0 implies i == j by {
            if i < entries.len() && j < entries.len() {
                assert(r[i] == entries[i] && r[j] == entries[j]);
            } else if i < entries.len() {
                assert(r[i] == entries[i]);
            } else if j < entries.len() {
                assert(r[j] == entries[j]);
            }
        }
        assert(r[entries.len() as int].0 == k);
    }
}

/// Scan entries never hold a key twice.
pub proof fn lemma_scan_entries_unique(scan: Seq<Presence>)
    ensures
        unique_keys(scan_entries(scan)),
    decreases scan.len(),
{
    if scan.len() > 0 {
        lemma_scan_entries_unique(scan.drop_last());
        lemma_upsert_unique(scan_entries(scan.drop_last()), scan.last().0, scan.last().1);
    }
}

fn find_key(v: &Vec<DisplayPresence>, key: &String) -> (found: Option<usize>)
    ensures
        match found {
            Some(j) => j < v@.len() && v@[j as int].edid_text@ == key@,
            None => !has_key(presences(v@), key@),
        },
{
    let mut i: usize = 0;
    while i < v.len()
        invariant
            i <= v@.len(),
            forall|j: int| 0 <= j < i ==> v@[j].edid_text@ != key@,
        decreases v@.len() - i,
    {
        if v[i].edid_text == *key {
            return Some(i);
        }
        i = i + 1;
    }
    proof {
        let e = presences(v@);
        if has_key(e, key@) {
            let w = choose|w: int| 0 <= w < e.len() && e[w].0 == key@;
            assert(e[w].0 == v@[w].edid_text@);
        }
    }
    None
}

fn upsert_presence(v: &mut Vec<DisplayPresence>, key: String, awake: bool)
    requires
        unique_keys(presences(old(v)@)),
    ensures
        presences(final(v)@) == upsert(presences(old(v)@), key@, awake),
        unique_keys(presences(final(v)@)),
{
    let ghost k = key@;
    let ghost before = presences(v@);
    proof {
        lemma_upsert_unique(before, k, awake);
    }
    match find_key(v, &key) {
        Some(j) => {
            assert(before[j as int].0 == k);
            v.set(j, DisplayPresence { edid_text: key, awake });
            assert(presences(v@) =~= upsert(before, k, awake)) by {
                assert(has_key(before, k));
                assert forall|i: int| 0 <= i < before.len() implies #[trigger] presences(v@)[i]
                    == upsert(before, k, awake)[i] by {
                    if before[i].0 == k {
                        assert(i == j);
                    }
                }
            }
        },
        None => {
            v.push(DisplayPresence { edid_text: key, awake });
            assert(presences(v@) =~= before.push((k, awake)));
        },
    }
}

/// Builds the entries of a successful scan.
fn record_scan(displays: &Vec<ScannedDisplay>) -> (cur: Vec<DisplayPresence>)
    ensures
        presences(cur@) == scan_entries(scan_pairs(displays@)),
        unique_keys(presences(cur@)),
{
    let ghost pairs = scan_pairs(displays@);
    let mut cur: Vec<DisplayPresence> = Vec::new();
    let mut i: usize = 0;
    while i < displays.len()
        invariant
            i <= displays@.len(),
            pairs == scan_pairs(displays@),
            presences(cur@) == scan_entries(pairs.take(i as int)),
            unique_keys(presences(cur@)),
        decreases displays@.len() - i,
    {
        let d = &displays[i];
        let key = encode_edid(&d.edid_bytes);
        let awake = match d.dpms_awake {
            Some(a) => a,
            None => false,
        };
        proof {
            assert(pairs.take(i + 1).drop_last() =~= pairs.take(i as int));
            assert(pairs.take(i + 1).last() == pairs[i as int]);
        }
        upsert_presence(&mut cur, key, awake);
        i = i + 1;
    }
    assert(pairs.take(displays@.len() as int) =~= pairs);
    cur
}

/// `Disconnected` events for the recorded displays that the new scan lacks.
fn lost_displays(prev: &Vec<DisplayPresence>, cur: &Vec<DisplayPresence>) -> (out: Vec<DisplayEvent>)
    ensures
        event_values(out@) == disconnect_events(presences(prev@), presences(cur@)),
{
    let ghost p = presences(prev@);
    let ghost c = presences(cur@);
    let mut out: Vec<DisplayEvent> = Vec::new();
    let mut i: usize = 0;
    while i < prev.len()
        invariant
            i <= prev@.len(),
            p == presences(prev@),
            c == presences(cur@),
            event_values(out@) == disconnect_events(p.take(i as int), c),
        decreases prev@.len() - i,
    {
        proof {
            assert(p.take(i + 1).drop_last() =~= p.take(i as int));
            assert(p.take(i + 1).last() == p[i as int]);
        }
        let hit = find_key(cur, &prev[i].edid_text);
        if let Some(j) = hit {
            assert(c[j as int].0 == cur[j as int].edid_text@);
        }
        if hit.is_none() {
            let ghost before = out@;
            out.push(DisplayEvent { edid_text: prev[i].edid_text.clone(), kind: DisplayEventKind::Disconnected });
            assert(event_values(out@) =~= event_values(before).push(event_value(out@.last())));
        }
        i = i + 1;
    }
    assert(p.take(prev@.len() as int) =~= p);
    out
}

/// `Connected` events for the displays of the new scan that were not recorded.
fn new_displays(prev: &Vec<DisplayPresence>, cur: &Vec<DisplayPresence>) -> (out: Vec<DisplayEvent>)
    ensures
        event_values(out@) == connect_events(presences(prev@), presences(cur@)),
{
    let ghost p = presences(prev@);
    let ghost c = presences(cur@);
    let mut out: Vec<DisplayEvent> = Vec::new();
    let mut i: usize = 0;
    while i < cur.len()
        invariant
            i <= cur@.len(),
            p == presences(prev@),
            c == presences(cur@),
            event_values(out@) == connect_events(p, c.take(i as int)),
        decreases cur@.len() - i,
    {
        proof {
            assert(c.take(i + 1).drop_last() =~= c.take(i as int));
            assert(c.take(i + 1).last() == c[i as int]);
        }
        let hit = find_key(prev, &cur[i].edid_text);
        if let Some(j) = hit {
            assert(p[j as int].0 == prev[j as int].edid_text@);
        }
        if hit.is_none() {
            let ghost before = out@;
            out.push(DisplayEvent { edid_text: cur[i].edid_text.clone(), kind: DisplayEventKind::Connected });
            assert(event_values(out@) =~= event_values(before).push(event_value(out@.last())));
        }
        i = i + 1;
    }
    assert(c.take(cur@.len() as int) =~= c);
    out
}

/// DPMS events for the displays whose state changed since the recorded scan.
fn dpms_changes(prev: &Vec<DisplayPresence>, cur: &Vec<DisplayPresence>) -> (out: Vec<DisplayEvent>)
    requires
        unique_keys(presences(prev@)),
    ensures
        event_values(out@) == dpms_events(presences(prev@), presences(cur@)),
{
    let ghost p = presences(prev@);
    let ghost c = presences(cur@);
    let mut out: Vec<DisplayEvent> = Vec::new();
    let mut i: usize = 0;
    while i < cur.len()
        invariant
            i <= cur@.len(),
            p == presences(prev@),
            c == presences(cur@),
            unique_keys(p),
            event_values(out@) == dpms_events(p, c.take(i as int)),
        decreases cur@.len() - i,
    {
        proof {
            assert(c.take(i + 1).drop_last() =~= c.take(i as int));
            assert(c.take(i + 1).last() == c[i as int]);
        }
        let awake = cur[i].awake;
        match find_key(prev, &cur[i].edid_text) {
            Some(j) => {
                proof {
                    let k = c[i as int].0;
                    assert(p[j as int].0 == k);
                    assert(has_key(p, k));
                    let w = choose|w: int| 0 <= w < p.len() && p[w].0 == k;
                    assert(w == j);
                    assert(lookup(p, k) == Some(p[j as int].1));
                }
                if prev[j].awake != awake {
                    let ghost before = out@;
                    let kind = if awake {
                        DisplayEventKind::DpmsAwake
                    } else {
                        DisplayEventKind::DpmsAsleep
                    };
                    out.push(DisplayEvent { edid_text: cur[i].edid_text.clone(), kind });
                    assert(event_values(out@) =~= event_values(before).push(event_value(out@.last())));
                }
            },
            None => {},
        }
        i = i + 1;
    }
    assert(c.take(cur@.len() as int) =~= c);
    out
}

impl PollingState {
    #[verifier::type_invariant]
    closed spec fn keys_unique(self) -> bool {
        unique_keys(presences(self.previous@))
    }

    /// The poller before its first scan: nothing recorded, still initializing.
    pub fn new() -> (s: PollingState)
        ensures
            s@.previous == Seq::<Presence>::empty(),
            s@.initializing,
    {
        let s = PollingState { previous: Vec::new(), initializing: true };
        assert(presences(s.previous@) =~= Seq::<Presence>::empty());
        s
    }

    /// Takes the outcome of one scan.  A failed scan changes nothing, sends nothing and
    /// sleeps the polling interval.  A successful scan becomes the recorded one; unless
    /// it is the first, it sends a `Disconnected` event for each lost display, then a
    /// `Connected` event for each new one, then a DPMS event for each display whose
    /// DPMS state changed.  The poller sleeps the cascade interval after a connection
    /// change and the polling interval otherwise.
    pub fn observe(&mut self, interval_secs: u32, scan: Result<Vec<ScannedDisplay>, BackendError>) -> (out: (
        Vec<DisplayEvent>,
        PollSleep,
    ))
        ensures
            unique_keys(final(self)@.previous),
            match scan {
                Err(_) => {
                    &&& final(self)@ == old(self)@
                    &&& out.0@.len() == 0
                    &&& out.1 == PollSleep::Seconds(interval_secs as u64)
                },
                Ok(displays) => {
                    let cur = scan_entries(scan_pairs(displays@));
                    &&& final(self)@.previous == cur
                    &&& !final(self)@.initializing
                    &&& event_values(out.0@) == (if old(self)@.initializing {
                        Seq::empty()
                    } else {
                        poll_events(old(self)@.previous, cur)
                    })
                    &&& out.1 == (if connection_changed(old(self)@.previous, cur) {
                        PollSleep::Cascade
                    } else {
                        PollSleep::Seconds(interval_secs as u64)
                    })
                },
            },
    {
        proof {
            use_type_invariant(&*self);
        }
        let displays = match scan {
            Err(_) => {
                return (Vec::new(), PollSleep::Seconds(interval_secs as u64));
            },
            Ok(displays) => displays,
        };
        let cur = record_scan(&displays);
        let mut lost = lost_displays(&self.previous, &cur);
        let mut found = new_displays(&self.previous, &cur);
        let mut changed = dpms_changes(&self.previous, &cur);
        let connection_change = lost.len() > 0 || found.len() > 0;
        let mut events: Vec<DisplayEvent> = Vec::new();
        if !self.initializing {
            let ghost l = lost@;
            let ghost f = found@;
            let ghost d = changed@;
            events.append(&mut lost);
            events.append(&mut found);
            events.append(&mut changed);
            assert(events@ =~= l + f + d);
            assert(event_values(events@) =~= event_values(l) + event_values(f) + event_values(d));
        } else {
            assert(event_values(events@) =~= Seq::empty());
        }
        self.previous = cur;
        self.initializing = false;
        let sleep = if connection_change {
            PollSleep::Cascade
        } else {
            PollSleep::Seconds(interval_secs as u64)
        };
        (events, sleep)
    }
}

} // verus!
