use ais_map_rest::reply::{hello, internal_error, ship_reply, Body, STATUS_INTERNAL_ERROR, STATUS_OK};
use ais_map_rest::report::PositionReport;

fn report(mmsi: u32, time_utc: i64) -> PositionReport {
    PositionReport::new(mmsi, time_utc, vec![7, mmsi as u8, time_utc as u8, 0xff])
}

#[test]
fn hello_answers_world() {
    let r = hello();
    assert_eq!(r.status, 200);
    match r.body {
        Body::Text(t) => assert_eq!(t, "world!"),
        _ => panic!("hello must answer with text"),
    }
}

#[test]
fn ship_without_report_is_ok_with_null() {
    let r = ship_reply(Ok(None));
    assert_eq!(r.status, STATUS_OK);
    assert!(matches!(r.body, Body::Report(None)));
}

#[test]
fn ship_with_report_is_returned_unchanged() {
    let stored = report(244_123_456, 1_700_000_000_000);
    let r = ship_reply(Ok(Some(report(244_123_456, 1_700_000_000_000))));
    assert_eq!(r.status, 200);
    match r.body {
        Body::Report(Some(found)) => {
            assert_eq!(found.mmsi, stored.mmsi);
            assert_eq!(found.time_utc, stored.time_utc);
            assert_eq!(found.document, stored.document);
        }
        _ => panic!("the stored report must be returned"),
    }
}

#[test]
fn ship_lookup_failure_is_internal_error() {
    let r = ship_reply(Err("connection refused".to_string()));
    assert_eq!(r.status, 500);
    match r.body {
        Body::Text(t) => assert_eq!(t, "connection refused"),
        _ => panic!("an internal error carries its description"),
    }
}

#[test]
fn internal_error_carries_description() {
    let r = internal_error("server selection timeout".to_string());
    assert_eq!(r.status, STATUS_INTERNAL_ERROR);
    assert_eq!(r.status, 500);
    match r.body {
        Body::Text(t) => assert_eq!(t, "server selection timeout"),
        _ => panic!("an internal error is plain text"),
    }
}

#[test]
fn report_duplicate_keeps_value() {
    let r = report(9, -3);
    let d = r.duplicate();
    assert_eq!(d.mmsi, 9);
    assert_eq!(d.time_utc, -3);
    assert_eq!(d.document, r.document);
}
