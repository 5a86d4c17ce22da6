//! Decoding of raw 32-byte packets into typed domain events.
use mwm_xcb::component::XWinId;
use mwm_xcb::decode::{decode_event, process_xcb_events, DecodeError, DecodeOutcome, EVENT_SIZE};
use mwm_xcb::event::{ClientMessageData, DomainEvent};
use mwm_xcb::xcb_event_type::{RandrSlot, XcbEventType};
use mwm_xcb::xconn::XConn;
use mwm_xcb::{Point, Region};

const RANDR_BASE: u8 = 89;

fn test_conn() -> XConn {
    let mut slot = RandrSlot::new();
    let replies: Vec<Option<u32>> = (0..9).map(|i| Some(100 + i)).collect();
    XConn::init(XWinId(1), XWinId(2), RANDR_BASE, &mut slot, &replies, true, true, true)
        .expect("bootstrap")
}

fn packet(code: u8) -> Vec<u8> {
    let mut b = vec![0u8; EVENT_SIZE];
    b[0] = code;
    b
}

fn put16(b: &mut [u8], i: usize, v: u16) {
    b[i] = (v & 0xff) as u8;
    b[i + 1] = (v >> 8) as u8;
}

fn put32(b: &mut [u8], i: usize, v: u32) {
    b[i] = (v & 0xff) as u8;
    b[i + 1] = ((v >> 8) & 0xff) as u8;
    b[i + 2] = ((v >> 16) & 0xff) as u8;
    b[i + 3] = ((v >> 24) & 0xff) as u8;
}

#[test]
fn decode_create_notify_packet() {
    let conn = test_conn();
    let mut b = packet(16);
    put32(&mut b, 4, 1);
    put32(&mut b, 8, 7);
    put16(&mut b, 12, 0);
    put16(&mut b, 14, 0);
    put16(&mut b, 16, 800);
    put16(&mut b, 18, 600);
    put16(&mut b, 20, 2);
    b[22] = 0;
    match decode_event(&b, &conn) {
        DecodeOutcome::Event(DomainEvent::CreateNotify(e)) => {
            assert_eq!(e.parent, XWinId(1));
            assert_eq!(e.window, XWinId(7));
            assert_eq!(e.region, Region { x: 0, y: 0, w: 800, h: 600 });
            assert_eq!(e.border_width, 2);
            assert!(!e.override_redirect);
        },
        other => panic!("unexpected outcome {other:?}"),
    }
}

#[test]
fn decode_negative_coordinates() {
    let conn = test_conn();
    let mut b = packet(22);
    put32(&mut b, 4, 7);
    put32(&mut b, 8, 7);
    put32(&mut b, 12, 0);
    put16(&mut b, 16, 0xfffb); // -5 as signed 16-bit
    put16(&mut b, 18, 0xff38); // -200 as signed 16-bit
    put16(&mut b, 20, 640);
    put16(&mut b, 22, 480);
    put16(&mut b, 24, 1);
    b[26] = 1;
    match decode_event(&b, &conn) {
        DecodeOutcome::Event(DomainEvent::ConfigureNotify(e)) => {
            assert_eq!(e.event, XWinId(7));
            assert_eq!(e.window, XWinId(7));
            assert_eq!(e.above_sibling, None);
            assert_eq!(e.region, Region { x: -5, y: -200, w: 640, h: 480 });
            assert_eq!(e.border_width, 1);
            assert!(e.override_redirect);
        },
        other => panic!("unexpected outcome {other:?}"),
    }
}

#[test]
fn decode_destroy_map_unmap_packets() {
    let conn = test_conn();

    let mut b = packet(17);
    put32(&mut b, 4, 10);
    put32(&mut b, 8, 11);
    match decode_event(&b, &conn) {
        DecodeOutcome::Event(DomainEvent::DestroyNotify(e)) => {
            assert_eq!(e.event, XWinId(10));
            assert_eq!(e.window, XWinId(11));
        },
        other => panic!("unexpected outcome {other:?}"),
    }

    let mut b = packet(19);
    put32(&mut b, 4, 10);
    put32(&mut b, 8, 11);
    b[12] = 1;
    match decode_event(&b, &conn) {
        DecodeOutcome::Event(DomainEvent::MapNotify(e)) => {
            assert_eq!(e.window, XWinId(11));
            assert!(e.override_redirect);
        },
        other => panic!("unexpected outcome {other:?}"),
    }

    let mut b = packet(18);
    put32(&mut b, 4, 10);
    put32(&mut b, 8, 11);
    b[12] = 0;
    match decode_event(&b, &conn) {
        DecodeOutcome::Event(DomainEvent::UnmapNotify(e)) => {
            assert_eq!(e.window, XWinId(11));
            assert!(!e.from_configure);
        },
        other => panic!("unexpected outcome {other:?}"),
    }

    let mut b = packet(20);
    put32(&mut b, 4, 1);
    put32(&mut b, 8, 12);
    match decode_event(&b, &conn) {
        DecodeOutcome::Event(DomainEvent::MapRequest(e)) => {
            assert_eq!(e.parent, XWinId(1));
            assert_eq!(e.window, XWinId(12));
        },
        other => panic!("unexpected outcome {other:?}"),
    }
}

#[test]
fn decode_configure_request_packet() {
    let conn = test_conn();
    let mut b = packet(23);
    b[1] = 1; // stack mode
    put32(&mut b, 4, 1);
    put32(&mut b, 8, 7);
    put32(&mut b, 12, 6);
    put16(&mut b, 16, 30);
    put16(&mut b, 18, 40);
    put16(&mut b, 20, 500);
    put16(&mut b, 22, 400);
    put16(&mut b, 24, 3);
    put16(&mut b, 26, 0x1f);
    match decode_event(&b, &conn) {
        DecodeOutcome::Event(DomainEvent::ConfigureRequest(e)) => {
            assert_eq!(e.stack_mode, 1);
            assert_eq!(e.parent, XWinId(1));
            assert_eq!(e.window, XWinId(7));
            assert_eq!(e.sibling, Some(XWinId(6)));
            assert_eq!(e.region, Region { x: 30, y: 40, w: 500, h: 400 });
            assert_eq!(e.border_width, 3);
            assert_eq!(e.value_mask, 0x1f);
        },
        other => panic!("unexpected outcome {other:?}"),
    }
}

#[test]
fn decode_key_press_packet() {
    let conn = test_conn();
    let mut b = packet(2);
    b[1] = 38; // keycode
    put32(&mut b, 4, 123456);
    put32(&mut b, 8, 1);
    put32(&mut b, 12, 7);
    put32(&mut b, 16, 0);
    put16(&mut b, 20, 100);
    put16(&mut b, 22, 200);
    put16(&mut b, 24, 10);
    put16(&mut b, 26, 20);
    put16(&mut b, 28, 0x8);
    b[30] = 1;
    match decode_event(&b, &conn) {
        DecodeOutcome::Event(DomainEvent::KeyPress(e)) => {
            assert_eq!(e.detail, 38);
            assert_eq!(e.time, 123456);
            assert_eq!(e.root, XWinId(1));
            assert_eq!(e.event, XWinId(7));
            assert_eq!(e.child, None);
            assert_eq!(e.root_pos, Point { x: 100, y: 200 });
            assert_eq!(e.event_pos, Point { x: 10, y: 20 });
            assert_eq!(e.state, 0x8);
            assert!(e.same_screen);
        },
        other => panic!("unexpected outcome {other:?}"),
    }
}

#[test]
fn decode_focus_and_property_packets() {
    let conn = test_conn();

    let mut b = packet(9);
    b[1] = 2;
    put32(&mut b, 4, 7);
    b[8] = 1;
    match decode_event(&b, &conn) {
        DecodeOutcome::Event(DomainEvent::FocusIn(e)) => {
            assert_eq!(e.detail, 2);
            assert_eq!(e.event, XWinId(7));
            assert_eq!(e.mode, 1);
        },
        other => panic!("unexpected outcome {other:?}"),
    }

    // a property change on the root window itself
    let mut b = packet(28);
    put32(&mut b, 4, 1);
    put32(&mut b, 8, 333);
    match decode_event(&b, &conn) {
        DecodeOutcome::Event(DomainEvent::PropertyNotify(e)) => {
            assert_eq!(e.id, XWinId(1));
            assert_eq!(e.atom, 333);
            assert!(e.is_root);
        },
        other => panic!("unexpected outcome {other:?}"),
    }
}

#[test]
fn decode_client_message_u32() {
    let conn = test_conn();
    let mut b = packet(33);
    b[1] = 32;
    put32(&mut b, 4, 9);
    put32(&mut b, 8, 107); // the identifier interned for _NET_WM_STATE
    put32(&mut b, 12, 1);
    put32(&mut b, 16, 108);
    put32(&mut b, 20, 0);
    put32(&mut b, 24, 0);
    put32(&mut b, 28, 0);
    match decode_event(&b, &conn) {
        DecodeOutcome::Event(DomainEvent::ClientMessage(e)) => {
            assert_eq!(e.id, XWinId(9));
            assert_eq!(e.dtype, "_NET_WM_STATE");
            assert_eq!(e.data, ClientMessageData::U32(vec![1, 108, 0, 0, 0]));
        },
        other => panic!("unexpected outcome {other:?}"),
    }
}

#[test]
fn decode_client_message_u8_and_unknown_type() {
    let conn = test_conn();
    let mut b = packet(33);
    b[1] = 8;
    put32(&mut b, 4, 9);
    put32(&mut b, 8, 100); // MANAGER
    for k in 0..20 {
        b[12 + k] = k as u8;
    }
    match decode_event(&b, &conn) {
        DecodeOutcome::Event(DomainEvent::ClientMessage(e)) => {
            assert_eq!(e.dtype, "MANAGER");
            assert_eq!(e.data, ClientMessageData::U8((0..20).collect()));
        },
        other => panic!("unexpected outcome {other:?}"),
    }

    // a message typed by an atom the manager never interned is dropped
    let mut b = packet(33);
    b[1] = 32;
    put32(&mut b, 8, 9999);
    assert_eq!(decode_event(&b, &conn), DecodeOutcome::Ignored(XcbEventType::ClientMessage));
}

#[test]
fn decode_enter_notify_packet() {
    let conn = test_conn();
    let mut b = packet(7);
    b[1] = 3; // detail
    put32(&mut b, 4, 9999);
    put32(&mut b, 8, 1);
    put32(&mut b, 12, 7);
    put32(&mut b, 16, 8);
    put16(&mut b, 20, 50);
    put16(&mut b, 22, 60);
    put16(&mut b, 24, 5);
    put16(&mut b, 26, 6);
    put16(&mut b, 28, 0);
    b[30] = 2; // mode
    b[31] = 1; // same-screen/focus flags
    match decode_event(&b, &conn) {
        DecodeOutcome::Event(DomainEvent::EnterNotify(e)) => {
            assert_eq!(e.detail, 3);
            assert_eq!(e.time, 9999);
            assert_eq!(e.root, XWinId(1));
            assert_eq!(e.event, XWinId(7));
            assert_eq!(e.child, Some(XWinId(8)));
            assert_eq!(e.root_pos, Point { x: 50, y: 60 });
            assert_eq!(e.event_pos, Point { x: 5, y: 6 });
            assert_eq!(e.mode, 2);
            assert_eq!(e.same_screen_focus, 1);
        },
        other => panic!("unexpected outcome {other:?}"),
    }
}

#[test]
fn decode_client_message_u16() {
    let conn = test_conn();
    let mut b = packet(33);
    b[1] = 16;
    put32(&mut b, 4, 9);
    put32(&mut b, 8, 103); // WM_PROTOCOLS
    for k in 0..10u16 {
        put16(&mut b, 12 + 2 * (k as usize), 1000 + k);
    }
    match decode_event(&b, &conn) {
        DecodeOutcome::Event(DomainEvent::ClientMessage(e)) => {
            assert_eq!(e.dtype, "WM_PROTOCOLS");
            assert_eq!(e.data, ClientMessageData::U16((0..10).map(|k| 1000 + k).collect()));
        },
        other => panic!("unexpected outcome {other:?}"),
    }
}

#[test]
fn decode_client_message_bad_format_is_malformed() {
    let conn = test_conn();
    let mut b = packet(33);
    b[1] = 7;
    put32(&mut b, 8, 100);
    assert_eq!(decode_event(&b, &conn), DecodeOutcome::Malformed(33));
}

#[test]
fn decode_extension_and_ignored_packets() {
    let conn = test_conn();
    let b = packet(RANDR_BASE);
    assert_eq!(
        decode_event(&b, &conn),
        DecodeOutcome::Event(DomainEvent::ScreenChange(mwm_xcb::event::ScreenChange))
    );
    let b = packet(RANDR_BASE + 1);
    assert_eq!(
        decode_event(&b, &conn),
        DecodeOutcome::Event(DomainEvent::RandrNotify(mwm_xcb::event::RandrNotify))
    );
    let b = packet(12); // Expose: accepted, deliberately dropped
    assert_eq!(decode_event(&b, &conn), DecodeOutcome::Ignored(XcbEventType::Expose));
    let b = packet(60);
    assert_eq!(decode_event(&b, &conn), DecodeOutcome::Unknown(60));
}

#[test]
fn batch_preserves_order_and_skips_unknown() {
    let conn = test_conn();
    let mut create = packet(16);
    put32(&mut create, 8, 7);
    let unknown = packet(60);
    let mut mapreq = packet(20);
    put32(&mut mapreq, 8, 7);
    let raws = vec![create, unknown, mapreq];
    let evs = process_xcb_events(&raws, &conn).expect("batch decodes");
    assert_eq!(evs.len(), 2);
    assert!(matches!(&evs[0], DomainEvent::CreateNotify(e) if e.window == XWinId(7)));
    assert!(matches!(&evs[1], DomainEvent::MapRequest(e) if e.window == XWinId(7)));
}

#[test]
fn batch_fails_on_first_malformed_packet() {
    let conn = test_conn();
    let mut bad = packet(33);
    bad[1] = 5;
    let mut put = [0u8; 4];
    put[0] = 100;
    bad[8..12].copy_from_slice(&put);
    let raws = vec![packet(12), bad, packet(16)];
    assert_eq!(process_xcb_events(&raws, &conn), Err(DecodeError::MalformedEvent(33)));
}

#[test]
fn short_packet_is_malformed() {
    let conn = test_conn();
    let raws = vec![vec![16u8; 10]];
    assert_eq!(process_xcb_events(&raws, &conn), Err(DecodeError::MalformedEvent(16)));
}
