//! What the poller's decisions amount to, stated over the recorded displays.

use crate::events::DisplayEventKind;
use crate::polling::{
    connect_events, connection_changed, disconnect_events, dpms_events, dpms_kind, has_key,
    lookup, poll_events, scan_entries, unique_keys, upsert, Presence,
};
use vstd::prelude::*;

verus! {

broadcast use {
    vstd::seq_lib::lemma_seq_contains_after_push,
    vstd::seq_lib::lemma_seq_concat_contains_all_elements,
};

proof fn lemma_has_key_last(e: Seq<Presence>, k: Seq<char>)
    requires
        e.len() > 0,
    ensures
        has_key(e, k) <==> (has_key(e.drop_last(), k) || e.last().0 == k),
{
    let d = e.drop_last();
    if has_key(e, k) {
        let w = choose|w: int| 0 <= w < e.len() && e[w].0 == k;
        if w < e.len() - 1 {
            assert(d[w] == e[w]);
        }
    }
    if has_key(d, k) {
        let w = choose|w: int| 0 <= w < d.len() && d[w].0 == k;
        assert(e[w] == d[w]);
    }
    if e.last().0 == k {
        assert(e[e.len() - 1].0 == k);
    }
}

proof fn lemma_lookup_last(e: Seq<Presence>, k: Seq<char>)
    requires
        e.len() > 0,
        unique_keys(e),
    ensures
        unique_keys(e.drop_last()),
        lookup(e, k) == (if e.last().0 == k {
            Some(e.last().1)
        } else {
            lookup(e.drop_last(), k)
        }),
{
    let d = e.drop_last();
    let n = e.len() - 1;
    assert forall|i: int, j: int|
        0 <= i < d.len() && 0 <= j < d.len() && d[i].0 == d[j].0 implies i == j by {
        assert(d[i] == e[i] && d[j] == e[j]);
    }
    lemma_has_key_last(e, k);
    if e.last().0 == k {
        assert(e[n].0 == k);
        let w = choose|w: int| 0 <= w < e.len() && e[w].0 == k;
        assert(e[w].0 == e[n].0);
    } else if has_key(d, k) {
        let w = choose|w: int| 0 <= w < e.len() && e[w].0 == k;
        let v = choose|v: int| 0 <= v < d.len() && d[v].0 == k;
        assert(e[v] == d[v]);
        assert(e[w].0 == e[v].0);
    }
}

proof fn lemma_push_no_duplicates<A>(s: Seq<A>, x: A)
    requires
        s.no_duplicates(),
        !s.contains(x),
    ensures
        s.push(x).no_duplicates(),
{
    let t = s.push(x);
    assert forall|i: int, j: int| 0 <= i < t.len() && 0 <= j < t.len() && i != j implies t[i]
        != t[j] by {
        if i < s.len() && j < s.len() {
            assert(t[i] == s[i] && t[j] == s[j]);
        } else if i < s.len() {
            assert(t[i] == s[i]);
            assert(s.contains(s[i]));
        } else if j < s.len() {
            assert(t[j] == s[j]);
            assert(s.contains(s[j]));
        }
    }
}

proof fn lemma_concat_no_duplicates<A>(a: Seq<A>, b: Seq<A>)
    requires
        a.no_duplicates(),
        b.no_duplicates(),
        forall|x: A| a.contains(x) ==> !b.contains(x),
    ensures
        (a + b).no_duplicates(),
{
    let t = a + b;
    assert forall|i: int, j: int| 0 <= i < t.len() && 0 <= j < t.len() && i != j implies t[i]
        != t[j] by {
        if i < a.len() && j < a.len() {
        } else if i >= a.len() && j >= a.len() {
            assert(t[i] == b[i - a.len()] && t[j] == b[j - a.len()]);
        } else if i < a.len() {
            assert(a.contains(a[i]));
            assert(b.contains(b[j - a.len()]));
        } else {
            assert(a.contains(a[j]));
            assert(b.contains(b[i - a.len()]));
        }
    }
}

proof fn lemma_disconnect_events(prev: Seq<Presence>, cur: Seq<Presence>)
    ensures
        forall|x: (Seq<char>, DisplayEventKind)|
            #[trigger] disconnect_events(prev, cur).contains(x) <==> (x.1
                == DisplayEventKind::Disconnected && has_key(prev, x.0) && !has_key(cur, x.0)),
        unique_keys(prev) ==> disconnect_events(prev, cur).no_duplicates(),
    decreases prev.len(),
{
    if prev.len() > 0 {
        let d = prev.drop_last();
        lemma_disconnect_events(d, cur);
        let rest = disconnect_events(d, cur);
        assert forall|x: (Seq<char>, DisplayEventKind)|
            #[trigger] disconnect_events(prev, cur).contains(x) <==> (x.1
                == DisplayEventKind::Disconnected && has_key(prev, x.0) && !has_key(cur, x.0)) by {
            lemma_has_key_last(prev, x.0);
            if has_key(cur, prev.last().0) {
                assert(disconnect_events(prev, cur) == rest);
            } else {
                assert(disconnect_events(prev, cur) == rest.push(
                    (prev.last().0, DisplayEventKind::Disconnected),
                ));
            }
        }
        if unique_keys(prev) {
            lemma_lookup_last(prev, prev.last().0);
            if !has_key(cur, prev.last().0) {
                let k = prev.last().0;
                if has_key(d, k) {
                    let w = choose|w: int| 0 <= w < d.len() && d[w].0 == k;
                    assert(prev[w].0 == prev[prev.len() - 1].0);
                }
                lemma_push_no_duplicates(
                    disconnect_events(d, cur),
                    (k, DisplayEventKind::Disconnected),
                );
            }
        }
    }
}

proof fn lemma_connect_events(prev: Seq<Presence>, cur: Seq<Presence>)
    ensures
        forall|x: (Seq<char>, DisplayEventKind)|
            #[trigger] connect_events(prev, cur).contains(x) <==> (x.1
                == DisplayEventKind::Connected && has_key(cur, x.0) && !has_key(prev, x.0)),
        unique_keys(cur) ==> connect_events(prev, cur).no_duplicates(),
    decreases cur.len(),
{
    if cur.len() > 0 {
        let d = cur.drop_last();
        lemma_connect_events(prev, d);
        let rest = connect_events(prev, d);
        assert forall|x: (Seq<char>, DisplayEventKind)|
            #[trigger] connect_events(prev, cur).contains(x) <==> (x.1
                == DisplayEventKind::Connected && has_key(cur, x.0) && !has_key(prev, x.0)) by {
            lemma_has_key_last(cur, x.0);
            if has_key(prev, cur.last().0) {
                assert(connect_events(prev, cur) == rest);
            } else {
                assert(connect_events(prev, cur) == rest.push(
                    (cur.last().0, DisplayEventKind::Connected),
                ));
            }
        }
        if unique_keys(cur) {
            lemma_lookup_last(cur, cur.last().0);
            if !has_key(prev, cur.last().0) {
                let k = cur.last().0;
                if has_key(d, k) {
                    let w = choose|w: int| 0 <= w < d.len() && d[w].0 == k;
                    assert(cur[w].0 == cur[cur.len() - 1].0);
                }
                lemma_push_no_duplicates(
                    connect_events(prev, d),
                    (k, DisplayEventKind::Connected),
                );
            }
        }
    }
}

proof fn lemma_dpms_events(prev: Seq<Presence>, cur: Seq<Presence>)
    requires
        unique_keys(cur),
    ensures
        forall|x: (Seq<char>, DisplayEventKind)|
            #[trigger] dpms_events(prev, cur).contains(x) <==> (exists|a: bool|
                lookup(cur, x.0) == Some(a) && lookup(prev, x.0) == Some(!a) && x.1 == dpms_kind(
                    a,
                )),
        dpms_events(prev, cur).no_duplicates(),
    decreases cur.len(),
{
    if cur.len() > 0 {
        let d = cur.drop_last();
        let (k, a) = cur.last();
        assert forall|q: Seq<char>|
            lookup(cur, q) == (if k == q {
                Some(a)
            } else {
                lookup(d, q)
            }) by {
            lemma_lookup_last(cur, q);
        }
        lemma_lookup_last(cur, k);
        lemma_dpms_events(prev, d);
        let rest = dpms_events(prev, d);
        if lookup(prev, k) == Some(!a) {
            assert(!has_key(d, k)) by {
                if has_key(d, k) {
                    let w = choose|w: int| 0 <= w < d.len() && d[w].0 == k;
                    assert(cur[w].0 == cur[cur.len() - 1].0);
                }
            }
            assert(lookup(d, k) is None);
            lemma_push_no_duplicates(rest, (k, dpms_kind(a)));
            assert forall|x: (Seq<char>, DisplayEventKind)|
                #[trigger] dpms_events(prev, cur).contains(x) <==> (exists|b: bool|
                    lookup(cur, x.0) == Some(b) && lookup(prev, x.0) == Some(!b) && x.1
                        == dpms_kind(b)) by {
                if x.0 == k && dpms_events(prev, cur).contains(x) {
                    assert(!rest.contains(x));
                    assert(lookup(cur, x.0) == Some(a));
                }
            }
        } else {
            assert forall|x: (Seq<char>, DisplayEventKind)|
                #[trigger] dpms_events(prev, cur).contains(x) <==> (exists|b: bool|
                    lookup(cur, x.0) == Some(b) && lookup(prev, x.0) == Some(!b) && x.1
                        == dpms_kind(b)) by {
                if x.0 == k {
                    if rest.contains(x) {
                        let b = choose|b: bool|
                            lookup(d, x.0) == Some(b) && lookup(prev, x.0) == Some(!b) && x.1
                                == dpms_kind(b);
                        assert(has_key(d, k));
                        assert(false) by {
                            let w = choose|w: int| 0 <= w < d.len() && d[w].0 == k;
                            assert(cur[w].0 == cur[cur.len() - 1].0);
                        }
                    }
                }
            }
        }
    }
}

/// The events of a poll are exactly these: a `Disconnected` event for each display
/// that was recorded and is now missing, a `Connected` event for each display that is
/// new, a DPMS event for each display present in both scans whose DPMS state changed,
/// naming its new state; and no event is sent twice.
pub proof fn law_poll_events_exact(prev: Seq<Presence>, cur: Seq<Presence>, k: Seq<char>)
    requires
        unique_keys(prev),
        unique_keys(cur),
    ensures
        poll_events(prev, cur).contains((k, DisplayEventKind::Disconnected)) <==> (has_key(prev, k)
            && !has_key(cur, k)),
        poll_events(prev, cur).contains((k, DisplayEventKind::Connected)) <==> (has_key(cur, k)
            && !has_key(prev, k)),
        poll_events(prev, cur).contains((k, DisplayEventKind::DpmsAwake)) <==> (lookup(prev, k)
            == Some(false) && lookup(cur, k) == Some(true)),
        poll_events(prev, cur).contains((k, DisplayEventKind::DpmsAsleep)) <==> (lookup(prev, k)
            == Some(true) && lookup(cur, k) == Some(false)),
        poll_events(prev, cur).no_duplicates(),
{
    lemma_disconnect_events(prev, cur);
    lemma_connect_events(prev, cur);
    lemma_dpms_events(prev, cur);
    let dis = disconnect_events(prev, cur);
    let con = connect_events(prev, cur);
    let dp = dpms_events(prev, cur);
    assert(poll_events(prev, cur) == dis + con + dp);
    assert(dis.contains((k, DisplayEventKind::DpmsAwake)) == false);
    assert(con.contains((k, DisplayEventKind::DpmsAwake)) == false);
    assert(dis.contains((k, DisplayEventKind::DpmsAsleep)) == false);
    assert(con.contains((k, DisplayEventKind::DpmsAsleep)) == false);
    assert(!dp.contains((k, DisplayEventKind::Disconnected)));
    assert(!dp.contains((k, DisplayEventKind::Connected)));
    if lookup(prev, k) == Some(false) && lookup(cur, k) == Some(true) {
        assert(dpms_kind(true) == DisplayEventKind::DpmsAwake);
        assert(dp.contains((k, DisplayEventKind::DpmsAwake)));
    }
    if lookup(prev, k) == Some(true) && lookup(cur, k) == Some(false) {
        assert(dpms_kind(false) == DisplayEventKind::DpmsAsleep);
        assert(dp.contains((k, DisplayEventKind::DpmsAsleep)));
    }
    lemma_concat_no_duplicates(dis, con);
    lemma_concat_no_duplicates(dis + con, dp);
}

proof fn lemma_empty_if_contains_nothing<A>(s: Seq<A>)
    requires
        forall|x: A| !s.contains(x),
    ensures
        s.len() == 0,
{
    if s.len() > 0 {
        assert(s.contains(s[0]));
    }
}

/// Scanning the recorded displays again sends no event and is no connection change.
pub proof fn law_rescan_is_quiet(entries: Seq<Presence>)
    requires
        unique_keys(entries),
    ensures
        poll_events(entries, entries).len() == 0,
        !connection_changed(entries, entries),
{
    lemma_disconnect_events(entries, entries);
    lemma_connect_events(entries, entries);
    lemma_dpms_events(entries, entries);
    lemma_empty_if_contains_nothing(disconnect_events(entries, entries));
    lemma_empty_if_contains_nothing(connect_events(entries, entries));
    lemma_empty_if_contains_nothing(dpms_events(entries, entries));
}

/// A poll counts as a connection change exactly when some display is in one of the
/// two scans and not in the other.
pub proof fn law_connection_change_exact(prev: Seq<Presence>, cur: Seq<Presence>)
    ensures
        connection_changed(prev, cur) <==> exists|k: Seq<char>| has_key(prev, k) != has_key(cur, k),
{
    lemma_disconnect_events(prev, cur);
    lemma_connect_events(prev, cur);
    let dis = disconnect_events(prev, cur);
    let con = connect_events(prev, cur);
    if dis.len() > 0 {
        assert(dis.contains(dis[0]));
        assert(has_key(prev, dis[0].0) != has_key(cur, dis[0].0));
    }
    if con.len() > 0 {
        assert(con.contains(con[0]));
        assert(has_key(prev, con[0].0) != has_key(cur, con[0].0));
    }
    if exists|k: Seq<char>| has_key(prev, k) != has_key(cur, k) {
        let k = choose|k: Seq<char>| has_key(prev, k) != has_key(cur, k);
        if has_key(prev, k) {
            assert(dis.contains((k, DisplayEventKind::Disconnected)));
        } else {
            assert(con.contains((k, DisplayEventKind::Connected)));
        }
    }
}

proof fn lemma_upsert_lookup(entries: Seq<Presence>, k0: Seq<char>, a: bool, k: Seq<char>)
    requires
        unique_keys(entries),
    ensures
        has_key(upsert(entries, k0, a), k) <==> (has_key(entries, k) || k == k0),
        lookup(upsert(entries, k0, a), k) == (if k == k0 {
            Some(a)
        } else {
            lookup(entries, k)
        }),
{
    let r = upsert(entries, k0, a);
    crate::polling::lemma_upsert_unique(entries, k0, a);
    if has_key(entries, k0) {
        assert(r.len() == entries.len());
        assert forall|i: int| 0 <= i < r.len() implies #[trigger] r[i].0 == entries[i].0 by {}
        if has_key(entries, k) {
            let w = choose|w: int| 0 <= w < entries.len() && entries[w].0 == k;
            assert(r[w].0 == k);
        }
        if has_key(r, k) {
            let w = choose|w: int| 0 <= w < r.len() && r[w].0 == k;
            assert(entries[w].0 == k);
        }
        if k != k0 && has_key(entries, k) {
            let w = choose|w: int| 0 <= w < entries.len() && entries[w].0 == k;
            let v = choose|v: int| 0 <= v < r.len() && r[v].0 == k;
            assert(r[w] == entries[w]);
            assert(r[v].0 == r[w].0);
        }
        if k == k0 {
            let v = choose|v: int| 0 <= v < r.len() && r[v].0 == k;
            assert(r[v] == (k0, a));
        }
    } else {
        assert(r == entries.push((k0, a)));
        lemma_has_key_last(r, k);
        assert(r.drop_last() =~= entries);
        lemma_lookup_last(r, k);
    }
}

proof fn lemma_scan_entries(scan: Seq<Presence>, k: Seq<char>)
    ensures
        unique_keys(scan_entries(scan)),
        has_key(scan_entries(scan), k) <==> has_key(scan, k),
    decreases scan.len(),
{
    crate::polling::lemma_scan_entries_unique(scan);
    if scan.len() > 0 {
        lemma_scan_entries(scan.drop_last(), k);
        lemma_has_key_last(scan, k);
        lemma_upsert_lookup(scan_entries(scan.drop_last()), scan.last().0, scan.last().1, k);
    }
}

/// After a scan, the poller has recorded exactly the displays of the scan, each once.
pub proof fn law_scan_records_every_display(scan: Seq<Presence>, k: Seq<char>)
    ensures
        unique_keys(scan_entries(scan)),
        has_key(scan_entries(scan), k) <==> has_key(scan, k),
{
    lemma_scan_entries(scan, k);
}

/// A display that a scan reports more than once is recorded with the DPMS state of
/// its last report.
pub proof fn law_scan_keeps_last_report(scan: Seq<Presence>, i: int)
    requires
        0 <= i < scan.len(),
        forall|j: int| i < j < scan.len() ==> #[trigger] scan[j].0 != scan[i].0,
    ensures
        lookup(scan_entries(scan), scan[i].0) == Some(scan[i].1),
    decreases scan.len(),
{
    let d = scan.drop_last();
    crate::polling::lemma_scan_entries_unique(d);
    lemma_upsert_lookup(scan_entries(d), scan.last().0, scan.last().1, scan[i].0);
    if i < scan.len() - 1 {
        assert(scan[scan.len() - 1].0 != scan[i].0);
        assert forall|j: int| i < j < d.len() implies #[trigger] d[j].0 != d[i].0 by {
            assert(d[j] == scan[j]);
        }
        law_scan_keeps_last_report(d, i);
        assert(d[i] == scan[i]);
    }
}

/// Going back from a scan to the one before mirrors the connection events: a display
/// reported disconnected one way is reported connected the other way, and a DPMS
/// change one way is the opposite change the other way.
pub proof fn law_reverse_poll_mirrors(prev: Seq<Presence>, cur: Seq<Presence>, k: Seq<char>)
    requires
        unique_keys(prev),
        unique_keys(cur),
    ensures
        poll_events(prev, cur).contains((k, DisplayEventKind::Disconnected)) <==> poll_events(
            cur,
            prev,
        ).contains((k, DisplayEventKind::Connected)),
        poll_events(prev, cur).contains((k, DisplayEventKind::DpmsAwake)) <==> poll_events(
            cur,
            prev,
        ).contains((k, DisplayEventKind::DpmsAsleep)),
{
    law_poll_events_exact(prev, cur, k);
    law_poll_events_exact(cur, prev, k);
}

} // verus!
