//! A whole iteration: decode, apply, reconcile.
use mwm_xcb::component::{Window, XWinId};
use mwm_xcb::decode::{DecodeError, EVENT_SIZE};
use mwm_xcb::lifecycle::WindowTable;
use mwm_xcb::pipeline::run_iteration;
use mwm_xcb::reconcile::XRequest;
use mwm_xcb::xcb_event_type::RandrSlot;
use mwm_xcb::xconn::XConn;
use mwm_xcb::{Point, Region};

fn test_conn() -> XConn {
    let mut slot = RandrSlot::new();
    let replies: Vec<Option<u32>> = (0..9).map(|i| Some(100 + i)).collect();
    XConn::init(XWinId(1), XWinId(2), 89, &mut slot, &replies, true, true, true)
        .expect("bootstrap")
}

fn packet(code: u8) -> Vec<u8> {
    let mut b = vec![0u8; EVENT_SIZE];
    b[0] = code;
    b
}

fn put32(b: &mut [u8], i: usize, v: u32) {
    b[i] = (v & 0xff) as u8;
    b[i + 1] = ((v >> 8) & 0xff) as u8;
    b[i + 2] = ((v >> 16) & 0xff) as u8;
    b[i + 3] = ((v >> 24) & 0xff) as u8;
}

#[test]
fn iteration_maps_an_unmanaged_window() {
    let conn = test_conn();
    let mut table = WindowTable::new();

    // an override-redirect window is created and asks to be mapped
    let mut create = packet(16);
    put32(&mut create, 8, 9);
    create[22] = 1;
    let mut mapreq = packet(20);
    put32(&mut mapreq, 4, 1);
    put32(&mut mapreq, 8, 9);

    let reqs = run_iteration(&mut table, &conn, &vec![create, mapreq]).expect("iteration");
    assert_eq!(reqs, vec![XRequest::MapWindow { window: XWinId(9) }]);
    assert_eq!(table.entities.len(), 1);
    assert_eq!(table.entities[0].window, Window(XWinId(9)));
    assert!(table.entities[0].request_map.is_none());

    // the next iteration re-emits nothing: the marker was consumed
    let reqs = run_iteration(&mut table, &conn, &vec![]).expect("iteration");
    assert_eq!(reqs, Vec::<XRequest>::new());
}

#[test]
fn iteration_fails_fatally_on_malformed_packet() {
    let conn = test_conn();
    let mut table = WindowTable::new();
    let mut create = packet(16);
    put32(&mut create, 8, 9);
    run_iteration(&mut table, &conn, &vec![create]).expect("iteration");
    assert_eq!(table.entities.len(), 1);

    // a malformed client message aborts the iteration and leaves the
    // table untouched
    let mut bad = packet(33);
    bad[1] = 3;
    put32(&mut bad, 8, 100);
    let r = run_iteration(&mut table, &conn, &vec![bad]);
    assert_eq!(r, Err(DecodeError::MalformedEvent(33)));
    assert_eq!(table.entities.len(), 1);
}

#[test]
fn region_emptiness_and_center() {
    assert!(Region { x: 3, y: 4, w: 0, h: 7 }.is_empty());
    assert!(Region { x: 3, y: 4, w: 7, h: 0 }.is_empty());
    assert!(!Region { x: 0, y: 0, w: 1, h: 1 }.is_empty());
    assert!(Region::default().is_empty());
    let c = Region { x: 10, y: 20, w: 800, h: 600 }.relative_center();
    assert_eq!(c, Point { x: 400, y: 300 });
    let c = Region { x: 0, y: 0, w: 5, h: 3 }.relative_center();
    assert_eq!(c, Point { x: 2, y: 1 });
}
