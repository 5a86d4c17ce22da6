//! Reconciliation of desired-state markers into protocol requests.
use mwm_xcb::component::{
    Border, IsManaged, IsMapped, PrefferedBorder, PrefferedSize, Size, Window, WindowEntity,
    XWinId,
};
use mwm_xcb::event::MapRequest;
use mwm_xcb::lifecycle::{map_unmanaged_windows, WindowTable};
use mwm_xcb::reconcile::{process_request_map, process_request_resize, XRequest};
use mwm_xcb::request::{RequestBorder, RequestMap, RequestSize};
use mwm_xcb::Region;

fn bare_entity(window: u32) -> WindowEntity {
    WindowEntity {
        window: Window(XWinId(window)),
        is_focused: None,
        is_managed: None,
        is_mapped: None,
        preffered_size: None,
        preffered_border: None,
        size: None,
        border: None,
        request_map: None,
        request_size: None,
        request_border: None,
    }
}

#[test]
fn map_request_marker_becomes_one_map_request() {
    // the unmanaged-window invariant, on concrete values: a map request
    // for an entity with neither marker yields exactly one map request
    let mut table = WindowTable { entities: vec![bare_entity(9)] };
    map_unmanaged_windows(&mut table, &vec![MapRequest { parent: XWinId(1), window: XWinId(9) }]);
    let reqs = process_request_map(&mut table);
    assert_eq!(reqs, vec![XRequest::MapWindow { window: XWinId(9) }]);
    // the marker was consumed: a second pass sends nothing
    let again = process_request_map(&mut table);
    assert_eq!(again, Vec::<XRequest>::new());
}

#[test]
fn map_request_on_already_mapped_window_sends_nothing() {
    let mut ent = bare_entity(9);
    ent.is_mapped = Some(IsMapped);
    ent.request_map = Some(RequestMap::MapWin);
    let mut table = WindowTable { entities: vec![ent] };
    let reqs = process_request_map(&mut table);
    assert_eq!(reqs, Vec::<XRequest>::new());
    assert!(table.entities[0].request_map.is_none());
}

#[test]
fn unmap_request_only_when_mapped() {
    let mut mapped = bare_entity(5);
    mapped.is_mapped = Some(IsMapped);
    mapped.request_map = Some(RequestMap::UnmapWin);
    let mut unmapped = bare_entity(6);
    unmapped.request_map = Some(RequestMap::UnmapWin);
    let mut table = WindowTable { entities: vec![mapped, unmapped] };
    let reqs = process_request_map(&mut table);
    assert_eq!(reqs, vec![XRequest::UnmapWindow { window: XWinId(5) }]);
    assert!(table.entities[0].request_map.is_none());
    assert!(table.entities[1].request_map.is_none());
}

#[test]
fn idempotent_resize_emits_zero_fields() {
    // reconciling an entity whose confirmed size already equals its
    // requested size emits nothing at all
    let confirmed = Region { x: 1, y: 2, w: 640, h: 480 };
    let mut ent = bare_entity(7);
    ent.size = Some(Size(confirmed));
    ent.border = Some(Border(2));
    ent.request_size = Some(RequestSize(confirmed));
    ent.request_border = Some(RequestBorder(2));
    let mut table = WindowTable { entities: vec![ent] };
    let reqs = process_request_resize(&mut table);
    assert_eq!(reqs, Vec::<XRequest>::new());
    // the markers were still consumed
    assert!(table.entities[0].request_size.is_none());
    assert!(table.entities[0].request_border.is_none());
}

#[test]
fn resize_carries_only_differing_fields() {
    let confirmed = Region { x: 1, y: 2, w: 640, h: 480 };
    let wanted = Region { x: 1, y: 9, w: 800, h: 480 };
    let mut ent = bare_entity(7);
    ent.size = Some(Size(confirmed));
    ent.border = Some(Border(2));
    ent.request_size = Some(RequestSize(wanted));
    ent.request_border = Some(RequestBorder(3));
    let mut table = WindowTable { entities: vec![ent] };
    let reqs = process_request_resize(&mut table);
    assert_eq!(
        reqs,
        vec![XRequest::ConfigureWindow {
            window: XWinId(7),
            x: None,
            y: Some(9),
            w: Some(800),
            h: None,
            border_width: Some(3),
        }]
    );
}

#[test]
fn border_only_request_diffs_against_confirmed_border() {
    let confirmed = Region { x: 0, y: 0, w: 100, h: 100 };
    let mut ent = bare_entity(7);
    ent.size = Some(Size(confirmed));
    ent.border = Some(Border(2));
    ent.request_border = Some(RequestBorder(5));
    let mut table = WindowTable { entities: vec![ent] };
    let reqs = process_request_resize(&mut table);
    assert_eq!(
        reqs,
        vec![XRequest::ConfigureWindow {
            window: XWinId(7),
            x: None,
            y: None,
            w: None,
            h: None,
            border_width: Some(5),
        }]
    );
}

#[test]
fn resize_without_confirmed_geometry_waits() {
    // an entity the server has not yet reported a size for is not
    // examined: its markers stay for a later pass
    let mut ent = bare_entity(7);
    ent.request_size = Some(RequestSize(Region { x: 0, y: 0, w: 100, h: 100 }));
    let mut table = WindowTable { entities: vec![ent] };
    let reqs = process_request_resize(&mut table);
    assert_eq!(reqs, Vec::<XRequest>::new());
    assert!(table.entities[0].request_size.is_some());
}

#[test]
fn managed_marker_does_not_block_explicit_requests() {
    // external policy may attach desired state to managed entities; the
    // reconciler honors it the same way
    let mut ent = bare_entity(7);
    ent.is_managed = Some(IsManaged);
    ent.preffered_size = Some(PrefferedSize(Region { x: 0, y: 0, w: 1, h: 1 }));
    ent.preffered_border = Some(PrefferedBorder(0));
    ent.size = Some(Size(Region { x: 0, y: 0, w: 1, h: 1 }));
    ent.border = Some(Border(0));
    ent.request_size = Some(RequestSize(Region { x: 0, y: 0, w: 2, h: 2 }));
    let mut table = WindowTable { entities: vec![ent] };
    let reqs = process_request_resize(&mut table);
    assert_eq!(reqs.len(), 1);
    match &reqs[0] {
        XRequest::ConfigureWindow { window, w, h, .. } => {
            assert_eq!(*window, XWinId(7));
            assert_eq!(*w, Some(2));
            assert_eq!(*h, Some(2));
        },
        other => panic!("unexpected request {other:?}"),
    }
}
