use ais_map_rest::fleet::{latest_per_vessel, FleetBatch, FLEET_LIMIT};
use ais_map_rest::reply::Body;
use ais_map_rest::report::PositionReport;

fn report(mmsi: u32, time_utc: i64) -> PositionReport {
    PositionReport::new(mmsi, time_utc, vec![(mmsi % 251) as u8, (time_utc % 251) as u8])
}

fn keys(v: &[PositionReport]) -> Vec<(u32, i64)> {
    v.iter().map(|r| (r.mmsi, r.time_utc)).collect()
}

#[test]
fn snapshot_of_example_store() {
    let t1 = 1_000;
    let t2 = 2_000;
    let t3 = 1_500;
    let reports = vec![report(100, t1), report(100, t2), report(200, t3)];
    let out = latest_per_vessel(&reports, FLEET_LIMIT);
    let mut got = keys(&out);
    got.sort();
    assert_eq!(got, vec![(100, t2), (200, t3)]);
    assert_eq!(out[0].document, report(100, t2).document);
}

#[test]
fn snapshot_keeps_later_report_in_either_order() {
    let a = latest_per_vessel(&vec![report(5, 10), report(5, 20)], FLEET_LIMIT);
    assert_eq!(keys(&a), vec![(5, 20)]);
    let b = latest_per_vessel(&vec![report(5, 20), report(5, 10)], FLEET_LIMIT);
    assert_eq!(keys(&b), vec![(5, 20)]);
}

#[test]
fn snapshot_is_capped_and_distinct() {
    let mut reports = Vec::new();
    for round in 0..3i64 {
        for mmsi in 1..=15u32 {
            reports.push(report(mmsi, round * 100 + mmsi as i64));
        }
    }
    let out = latest_per_vessel(&reports, FLEET_LIMIT);
    assert_eq!(FLEET_LIMIT, 10);
    assert_eq!(out.len(), 10);
    let mut ids: Vec<u32> = out.iter().map(|r| r.mmsi).collect();
    ids.sort();
    ids.dedup();
    assert_eq!(ids.len(), 10);
    for r in &out {
        assert_eq!(r.time_utc, 200 + r.mmsi as i64);
    }
}

#[test]
fn snapshot_of_empty_store_is_empty() {
    let out = latest_per_vessel(&Vec::new(), FLEET_LIMIT);
    assert!(out.is_empty());
}

#[test]
fn snapshot_with_zero_limit_is_empty() {
    let out = latest_per_vessel(&vec![report(1, 1)], 0);
    assert!(out.is_empty());
}

#[test]
fn snapshot_with_equal_timestamps_keeps_one() {
    let out = latest_per_vessel(&vec![report(3, 50), report(3, 50), report(4, 50)], FLEET_LIMIT);
    assert_eq!(keys(&out), vec![(3, 50), (4, 50)]);
}

#[test]
fn batch_finishes_with_snapshot() {
    let mut batch = FleetBatch::new();
    for r in [report(100, 1_000), report(100, 2_000), report(200, 1_500)] {
        assert!(batch.on_document(Ok(r)).is_none());
    }
    let reply = batch.finish();
    assert_eq!(reply.status, 200);
    match reply.body {
        Body::Reports(out) => {
            let mut got = keys(&out);
            got.sort();
            assert_eq!(got, vec![(100, 2_000), (200, 1_500)]);
        }
        _ => panic!("the snapshot is a list of reports"),
    }
}

#[test]
fn batch_aborts_on_decode_failure() {
    let mut batch = FleetBatch::new();
    assert!(batch.on_document(Ok(report(1, 1))).is_none());
    let failed = batch.on_document(Err("missing field `MMSI`".to_string()));
    let reply = failed.expect("a decode failure ends the request");
    assert_eq!(reply.status, 500);
    match reply.body {
        Body::Text(t) => assert_eq!(t, "missing field `MMSI`"),
        _ => panic!("an internal error is plain text"),
    }
}

#[test]
fn empty_batch_finishes_with_empty_list() {
    match FleetBatch::new().finish().body {
        Body::Reports(out) => assert!(out.is_empty()),
        _ => panic!("the snapshot is a list of reports"),
    }
}
