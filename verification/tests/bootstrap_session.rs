//! Session bootstrap, the atom registry, and the base-code slot.
use mwm_xcb::atom::{Atom, AtomRegistry, ATOM_COUNT};
use mwm_xcb::component::XWinId;
use mwm_xcb::reconcile::XRequest;
use mwm_xcb::xcb_event_type::{reset_randr_base, set_randr_base, RandrSlot};
use mwm_xcb::xconn::{bootstrap_requests, BootstrapError, XConn};

fn good_replies() -> Vec<Option<u32>> {
    (0..ATOM_COUNT as u32).map(|i| Some(100 + i)).collect()
}

#[test]
fn atom_names_are_fixed() {
    assert_eq!(Atom::Manager.as_str(), "MANAGER");
    assert_eq!(Atom::UTF8String.as_str(), "UTF8_STRING");
    assert_eq!(Atom::WmClass.as_str(), "WM_CLASS");
    assert_eq!(Atom::WmProtocols.as_str(), "WM_PROTOCOLS");
    assert_eq!(Atom::WmName.as_str(), "WM_NAME");
    assert_eq!(Atom::NetActiveWindow.as_str(), "_NET_ACTIVE_WINDOW");
    assert_eq!(Atom::NetWmName.as_str(), "_NET_WM_NAME");
    assert_eq!(Atom::NetWmState.as_str(), "_NET_WM_STATE");
    assert_eq!(Atom::NetWmStateFullscreen.as_str(), "_NET_WM_STATE_FULLSCREEN");
    assert_eq!(Atom::all().len(), ATOM_COUNT);
}

#[test]
fn registry_maps_both_directions() {
    let reg = AtomRegistry::from_replies(&good_replies()).expect("complete replies");
    assert_eq!(reg.atom_id(Atom::Manager), 100);
    assert_eq!(reg.atom_id(Atom::NetWmStateFullscreen), 108);
    assert_eq!(reg.atom_of_id(107), Some(Atom::NetWmState));
    assert_eq!(reg.atom_of_id(9999), None);
}

#[test]
fn registry_refuses_any_failed_intern() {
    // one failed intern aborts: no partial registry is ever produced
    for missing in 0..ATOM_COUNT {
        let mut replies = good_replies();
        replies[missing] = None;
        assert!(AtomRegistry::from_replies(&replies).is_none(), "reply {missing}");
    }
    assert!(AtomRegistry::from_replies(&vec![Some(1); 3]).is_none());
}

#[test]
fn bootstrap_aborts_before_the_loop_on_intern_failure() {
    // startup never yields a session when one name failed to intern
    let mut slot = RandrSlot::new();
    let mut replies = good_replies();
    replies[4] = None;
    let r = XConn::init(XWinId(1), XWinId(2), 89, &mut slot, &replies, true, true, true);
    assert_eq!(r, Err(BootstrapError::InternAtom));
    // the slot was not claimed either: nothing of the session leaked
    assert_eq!(slot, RandrSlot::new());
}

#[test]
fn bootstrap_checks_every_reply() {
    let mut slot = RandrSlot::new();
    let r = XConn::init(XWinId(1), XWinId(2), 89, &mut slot, &good_replies(), false, true, true);
    assert_eq!(r, Err(BootstrapError::CreateCheckWindow));
    let r = XConn::init(XWinId(1), XWinId(2), 89, &mut slot, &good_replies(), true, false, true);
    assert_eq!(r, Err(BootstrapError::SelectInput));
    let r = XConn::init(XWinId(1), XWinId(2), 89, &mut slot, &good_replies(), true, true, false);
    assert_eq!(r, Err(BootstrapError::SubstructureRedirect));
}

#[test]
fn bootstrap_claims_and_guards_the_slot() {
    let mut slot = RandrSlot::new();
    let conn = XConn::init(XWinId(1), XWinId(2), 89, &mut slot, &good_replies(), true, true, true)
        .expect("bootstrap");
    assert_eq!(conn.root, XWinId(1));
    assert_eq!(conn.check_win, XWinId(2));
    assert_eq!(conn.randr_base, 89);
    assert_eq!(conn.atom_id(Atom::NetActiveWindow), 105);
    assert_eq!(slot.base, Some(89));

    // a second active connection cannot claim the slot
    let r = XConn::init(XWinId(1), XWinId(3), 90, &mut slot, &good_replies(), true, true, true);
    assert_eq!(r, Err(BootstrapError::ActiveConnectionExists));
    assert_eq!(slot.base, Some(89));

    // releasing it lets a future connection acquire it again
    reset_randr_base(&mut slot);
    assert_eq!(slot.base, None);
    assert!(set_randr_base(&mut slot, 90).is_ok());
    assert_eq!(slot.base, Some(90));
}

#[test]
fn bootstrap_request_order_fires_all_then_collects() {
    let reqs = bootstrap_requests(XWinId(1), XWinId(2));
    assert_eq!(reqs.len(), ATOM_COUNT + 3);
    let atoms = Atom::all();
    for (i, atom) in atoms.into_iter().enumerate() {
        assert_eq!(reqs[i], XRequest::InternAtom { atom });
    }
    assert_eq!(reqs[ATOM_COUNT], XRequest::CreateWindow { wid: XWinId(2), parent: XWinId(1) });
    assert_eq!(
        reqs[ATOM_COUNT + 1],
        XRequest::SelectRandrInput { window: XWinId(1), mask: 0x3 }
    );
    assert_eq!(
        reqs[ATOM_COUNT + 2],
        XRequest::ChangeWindowAttributes { window: XWinId(1), event_mask: 0x580000 }
    );
}

#[test]
fn shutdown_releases_everything() {
    let mut slot = RandrSlot::new();
    let conn = XConn::init(XWinId(1), XWinId(2), 89, &mut slot, &good_replies(), true, true, true)
        .expect("bootstrap");
    let reqs = conn.shutdown(&mut slot);
    assert_eq!(
        reqs,
        vec![
            XRequest::UngrabKey { grab_window: XWinId(1) },
            XRequest::DestroyWindow { window: XWinId(2) },
            XRequest::DeleteProperty { window: XWinId(1), property: 105 },
        ]
    );
    assert_eq!(slot.base, None);
}
