use vstd::prelude::*;
use crate::reply::{internal_error, internal_error_spec, Body, Reply, STATUS_OK};
use crate::report::{PositionReport, ReportView};

verus! {

/// Largest number of vessels in a fleet snapshot.
pub const FLEET_LIMIT: usize = 10;

/// Some report among the first `n` of `s` is of vessel `mmsi`.
pub open spec fn has_vessel_within(s: Seq<PositionReport>, n: int, mmsi: u32) -> bool {
    exists|j: int| 0 <= j < n && #[trigger] s[j].mmsi == mmsi
}

/// `r` is one of the first `n` reports of `s`, and none of those reports of
/// the same vessel is more recent.
pub open spec fn is_latest_within(s: Seq<PositionReport>, n: int, r: ReportView) -> bool {
    &&& exists|j: int| 0 <= j < n && #[trigger] s[j]@ == r
    &&& forall|j: int| 0 <= j < n && #[trigger] s[j].mmsi == r.mmsi ==> s[j].time_utc <= r.time_utc
}

/// No two reports of `out` are of the same vessel.
pub open spec fn distinct_vessels(out: Seq<PositionReport>) -> bool {
    forall|i: int, k: int| 0 <= i < k < out.len() ==> out[i].mmsi != out[k].mmsi
}

/// `out` holds, for each of the first `n` reports' vessels, its latest report,
/// once, until `limit` vessels are held.
pub open spec fn is_snapshot_within(
    reports: Seq<PositionReport>,
    n: int,
    limit: nat,
    out: Seq<PositionReport>,
) -> bool {
    &&& out.len() <= limit
    &&& distinct_vessels(out)
    &&& forall|k: int| 0 <= k < out.len() ==> is_latest_within(reports, n, #[trigger] out[k]@)
    &&& forall|m: u32|
        has_vessel_within(reports, n, m) && !has_vessel_within(out, out.len() as int, m)
            ==> out.len() == limit
}

/// `out` is a fleet snapshot of `reports`: the most recent report of each vessel,
/// at most one per vessel and at most `limit` in all; a vessel of `reports` is
/// left out only when `limit` vessels are already there.
pub open spec fn is_fleet_snapshot(
    reports: Seq<PositionReport>,
    limit: nat,
    out: Seq<PositionReport>,
) -> bool {
    is_snapshot_within(reports, reports.len() as int, limit, out)
}

/// Position in `out` of the report of vessel `mmsi`, if there is one.
fn position_of_vessel(out: &Vec<PositionReport>, mmsi: u32) -> (r: Option<usize>)
    ensures
        r matches Some(k) ==> k < out@.len() && out@[k as int].mmsi == mmsi,
        r is None ==> !has_vessel_within(out@, out@.len() as int, mmsi),
{
    let mut k: usize = 0;
    while k < out.len()
        invariant
            k <= out@.len(),
            forall|j: int| 0 <= j < k ==> out@[j].mmsi != mmsi,
        decreases out@.len() - k,
    {
        if out[k].mmsi == mmsi {
            return Some(k);
        }
        k = k + 1;
    }
    None
}

/// The latest report of each vessel in `reports`, one per vessel, keeping at
/// most `limit` vessels (those seen first).
pub fn latest_per_vessel(reports: &Vec<PositionReport>, limit: usize) -> (out: Vec<PositionReport>)
    ensures
        is_fleet_snapshot(reports@, limit as nat, out@),
{
    let mut out: Vec<PositionReport> = Vec::new();
    let mut i: usize = 0;
    while i < reports.len()
        invariant
            i <= reports@.len(),
            is_snapshot_within(reports@, i as int, limit as nat, out@),
        decreases reports@.len() - i,
    {
        let r = &reports[i];
        let ghost s = reports@;
        let ghost before = out@;
        match position_of_vessel(&out, r.mmsi) {
            Some(k) => {
                if out[k].time_utc < r.time_utc {
                    out[k] = r.duplicate();
                }
                assert forall|m: u32|
                    has_vessel_within(s, i + 1, m) && !has_vessel_within(
                        out@,
                        out@.len() as int,
                        m,
                    ) implies out@.len() == limit by {
                    if m == r.mmsi {
                        assert(out@[k as int].mmsi == m);
                    } else {
                        let j = choose|j: int| 0 <= j < i + 1 && #[trigger] s[j].mmsi == m;
                        assert(s[j].mmsi == m);
                        assert(j != i);
                        assert(has_vessel_within(s, i as int, m));
                        if has_vessel_within(before, before.len() as int, m) {
                            let q = choose|q: int|
                                0 <= q < before.len() && #[trigger] before[q].mmsi == m;
                            assert(out@[q].mmsi == m);
                        }
                    }
                }
                assert forall|x: int| 0 <= x < out@.len() implies is_latest_within(
                    s,
                    i + 1,
                    #[trigger] out@[x]@,
                ) by {
                    assert(is_latest_within(s, i as int, before[x]@));
                    if x == k {
                        if before[x].time_utc < r.time_utc {
                            assert(s[i as int]@ == out@[x]@);
                        } else {
                            let j = choose|j: int| 0 <= j < i && #[trigger] s[j]@ == before[x]@;
                            assert(s[j]@ == out@[x]@);
                        }
                    } else {
                        assert(before[x].mmsi != before[k as int].mmsi);
                        let j = choose|j: int| 0 <= j < i && #[trigger] s[j]@ == before[x]@;
                        assert(s[j]@ == out@[x]@);
                    }
                }
            },
            None => {
                if out.len() < limit {
                    out.push(r.duplicate());
                    assert forall|x: int| 0 <= x < out@.len() implies is_latest_within(
                        s,
                        i + 1,
                        #[trigger] out@[x]@,
                    ) by {
                        if x < before.len() {
                            let j = choose|j: int| 0 <= j < i && #[trigger] s[j]@ == before[x]@;
                            assert(s[j]@ == out@[x]@);
                        } else {
                            assert(s[i as int]@ == out@[x]@);
                            assert forall|j: int|
                                0 <= j < i + 1 && #[trigger] s[j].mmsi == r.mmsi implies s[j].time_utc
                                <= r.time_utc by {
                                if j < i {
                                    assert(has_vessel_within(s, i as int, r.mmsi));
                                }
                            }
                        }
                    }
                    assert forall|m: u32|
                        has_vessel_within(s, i + 1, m) && !has_vessel_within(
                            out@,
                            out@.len() as int,
                            m,
                        ) implies out@.len() == limit by {
                        let j = choose|j: int| 0 <= j < i + 1 && #[trigger] s[j].mmsi == m;
                        if j == i {
                            assert(out@[before.len() as int].mmsi == m);
                        } else {
                            assert(has_vessel_within(s, i as int, m));
                        }
                        if has_vessel_within(before, before.len() as int, m) {
                            let q = choose|q: int|
                                0 <= q < before.len() && #[trigger] before[q].mmsi == m;
                            assert(out@[q].mmsi == m);
                        }
                    }
                } else {
                    assert forall|x: int| 0 <= x < out@.len() implies is_latest_within(
                        s,
                        i + 1,
                        #[trigger] out@[x]@,
                    ) by {
                        let j = choose|j: int| 0 <= j < i && #[trigger] s[j]@ == out@[x]@;
                        assert(s[j]@ == out@[x]@);
                    }
                }
            },
        }
        i = i + 1;
    }
    out
}

/// A fleet snapshot never holds more than `FLEET_LIMIT` reports, and never two
/// reports of the same vessel.
pub proof fn lemma_snapshot_bounded_and_distinct(
    reports: Seq<PositionReport>,
    out: Seq<PositionReport>,
)
    requires
        is_fleet_snapshot(reports, FLEET_LIMIT as nat, out),
    ensures
        out.len() <= 10,
        forall|i: int, k: int| 0 <= i < k < out.len() ==> out[i].mmsi != out[k].mmsi,
{
}

/// Of two reports of one vessel with different timestamps, the older never
/// appears in a fleet snapshot; unless the snapshot is full, the vessel appears
/// in it with a report at least as recent as the newer one.
pub proof fn lemma_stale_report_left_out(
    reports: Seq<PositionReport>,
    limit: nat,
    out: Seq<PositionReport>,
    older: int,
    newer: int,
)
    requires
        is_fleet_snapshot(reports, limit, out),
        0 <= older < reports.len(),
        0 <= newer < reports.len(),
        reports[older].mmsi == reports[newer].mmsi,
        reports[older].time_utc < reports[newer].time_utc,
    ensures
        forall|k: int| 0 <= k < out.len() ==> out[k]@ != reports[older]@,
        out.len() < limit ==> exists|k: int|
            0 <= k < out.len() && out[k].mmsi == reports[newer].mmsi && out[k].time_utc
                >= reports[newer].time_utc,
{
    let n = reports.len() as int;
    assert forall|k: int| 0 <= k < out.len() implies out[k]@ != reports[older]@ by {
        assert(is_latest_within(reports, n, out[k]@));
        if out[k]@ == reports[older]@ {
            assert(reports[newer].mmsi == out[k].mmsi);
        }
    }
    if out.len() < limit {
        let m = reports[newer].mmsi;
        assert(has_vessel_within(reports, n, m));
        let k = choose|k: int| 0 <= k < out.len() && #[trigger] out[k].mmsi == m;
        assert(is_latest_within(reports, n, out[k]@));
        assert(reports[newer].mmsi == out[k].mmsi);
    }
}

/// The reports of a fleet snapshot received so far from the store.
pub struct FleetBatch {
    received: Vec<PositionReport>,
}

impl View for FleetBatch {
    type V = Seq<PositionReport>;

    closed spec fn view(&self) -> Seq<PositionReport> {
        self.received@
    }
}

impl FleetBatch {
    pub fn new() -> (r: FleetBatch)
        ensures
            r@ == Seq::<PositionReport>::empty(),
    {
        FleetBatch { received: Vec::new() }
    }

    /// Takes the next decoded document of the snapshot query. A document that
    /// failed to be read or decoded ends the whole request with an internal
    /// error carrying its description; otherwise the report is kept and the
    /// request goes on.
    pub fn on_document(&mut self, decoded: Result<PositionReport, String>) -> (r: Option<Reply>)
        ensures
            decoded matches Ok(report) ==> r is None && final(self)@ == old(self)@.push(report),
            decoded matches Err(description) ==> r == Some(internal_error_spec(description))
                && final(self)@ == old(self)@,
    {
        match decoded {
            Ok(report) => {
                self.received.push(report);
                None
            },
            Err(description) => Some(internal_error(description)),
        }
    }

    /// The reply once every document has been taken: the fleet snapshot of
    /// the received reports.
    pub fn finish(self) -> (r: Reply)
        ensures
            r.status == STATUS_OK,
            r.body matches Body::Reports(out) && is_fleet_snapshot(
                self@,
                FLEET_LIMIT as nat,
                out@,
            ),
    {
        let out = latest_per_vessel(&self.received, FLEET_LIMIT);
        Reply { status: STATUS_OK, body: Body::Reports(out) }
    }
}

} // verus!
