//! The window-entity lifecycle transition table.
use mwm_xcb::component::{Window, XWinId};
use mwm_xcb::event::{
    ConfigureNotify, ConfigureRequest, CreateNotify, DestroyNotify, DomainEvent, MapNotify,
    MapRequest, UnmapNotify,
};
use mwm_xcb::lifecycle::{
    apply_event, apply_events, despawn_windows, map_unmanaged_windows, mark_mapped_windows,
    mark_preffered_size_windows, mark_size_windows, mark_unmapped_windows, spawn_windows,
    WindowTable,
};
use mwm_xcb::request::{RequestBorder, RequestMap, RequestSize};
use mwm_xcb::Region;

fn create(window: u32, region: Region, override_redirect: bool) -> CreateNotify {
    CreateNotify {
        parent: XWinId(1),
        window: XWinId(window),
        region,
        border_width: 0,
        override_redirect,
    }
}

fn region_800_600() -> Region {
    Region { x: 0, y: 0, w: 800, h: 600 }
}

#[test]
fn managed_window_scenario() {
    // CreateNotify(window=7, override_redirect=false) spawns a managed
    // entity with the event's geometry as its preference.
    let mut table = WindowTable::new();
    spawn_windows(&mut table, &vec![create(7, region_800_600(), false)]);
    assert_eq!(table.entities.len(), 1);
    let ent = &table.entities[0];
    assert_eq!(ent.window, Window(XWinId(7)));
    assert!(ent.is_managed.is_some());
    assert_eq!(ent.preffered_size.map(|p| p.0), Some(region_800_600()));
    assert!(ent.is_mapped.is_none());

    // MapRequest(window=7): managed, so no map request is attached.
    map_unmanaged_windows(&mut table, &vec![MapRequest { parent: XWinId(1), window: XWinId(7) }]);
    assert!(table.entities[0].request_map.is_none());

    // DestroyNotify(window=7) removes the entity.
    despawn_windows(&mut table, &vec![DestroyNotify { event: XWinId(7), window: XWinId(7) }]);
    assert_eq!(table.entities.len(), 0);
}

#[test]
fn override_redirect_window_is_unmanaged() {
    // CreateNotify(window=9, override_redirect=true) spawns without the
    // managed marker; a map request is then honored unconditionally.
    let mut table = WindowTable::new();
    spawn_windows(&mut table, &vec![create(9, region_800_600(), true)]);
    assert!(table.entities[0].is_managed.is_none());

    map_unmanaged_windows(&mut table, &vec![MapRequest { parent: XWinId(1), window: XWinId(9) }]);
    assert_eq!(table.entities[0].request_map, Some(RequestMap::MapWin));

    // MapNotify attaches the mapped marker and clears the request.
    mark_mapped_windows(
        &mut table,
        &vec![MapNotify { event: XWinId(9), window: XWinId(9), override_redirect: true }],
    );
    assert!(table.entities[0].is_mapped.is_some());
    assert!(table.entities[0].request_map.is_none());
}

#[test]
fn unmap_notify_clears_mapped_and_request_together() {
    let mut table = WindowTable::new();
    spawn_windows(&mut table, &vec![create(9, region_800_600(), true)]);
    mark_mapped_windows(
        &mut table,
        &vec![MapNotify { event: XWinId(9), window: XWinId(9), override_redirect: true }],
    );
    table.entities[0].request_map = Some(RequestMap::UnmapWin);
    mark_unmapped_windows(
        &mut table,
        &vec![UnmapNotify { event: XWinId(9), window: XWinId(9), from_configure: false }],
    );
    assert!(table.entities[0].is_mapped.is_none());
    assert!(table.entities[0].request_map.is_none());
}

#[test]
fn configure_request_on_unmanaged_mirrors_desired_state() {
    let mut table = WindowTable::new();
    spawn_windows(&mut table, &vec![create(9, region_800_600(), true)]);
    let wanted = Region { x: 5, y: 6, w: 300, h: 200 };
    mark_preffered_size_windows(
        &mut table,
        &vec![ConfigureRequest {
            stack_mode: 0,
            parent: XWinId(1),
            window: XWinId(9),
            sibling: None,
            region: wanted,
            border_width: 4,
            value_mask: 0xf,
        }],
    );
    let ent = &table.entities[0];
    assert_eq!(ent.preffered_size.map(|p| p.0), Some(wanted));
    assert_eq!(ent.preffered_border.map(|p| p.0), Some(4));
    assert_eq!(ent.request_size, Some(RequestSize(wanted)));
    assert_eq!(ent.request_border, Some(RequestBorder(4)));
}

#[test]
fn configure_request_on_managed_updates_preference_only() {
    let mut table = WindowTable::new();
    spawn_windows(&mut table, &vec![create(7, region_800_600(), false)]);
    let wanted = Region { x: 5, y: 6, w: 300, h: 200 };
    mark_preffered_size_windows(
        &mut table,
        &vec![ConfigureRequest {
            stack_mode: 0,
            parent: XWinId(1),
            window: XWinId(7),
            sibling: None,
            region: wanted,
            border_width: 4,
            value_mask: 0xf,
        }],
    );
    let ent = &table.entities[0];
    assert_eq!(ent.preffered_size.map(|p| p.0), Some(wanted));
    assert!(ent.request_size.is_none());
    assert!(ent.request_border.is_none());
}

#[test]
fn configure_notify_records_confirmed_geometry() {
    let mut table = WindowTable::new();
    spawn_windows(&mut table, &vec![create(7, region_800_600(), false)]);
    let confirmed = Region { x: 1, y: 2, w: 640, h: 480 };
    mark_size_windows(
        &mut table,
        &vec![ConfigureNotify {
            event: XWinId(7),
            window: XWinId(7),
            above_sibling: None,
            region: confirmed,
            border_width: 2,
            override_redirect: false,
        }],
    );
    let ent = &table.entities[0];
    assert_eq!(ent.size.map(|s| s.0), Some(confirmed));
    assert_eq!(ent.border.map(|b| b.0), Some(2));
}

#[test]
fn events_for_unknown_windows_are_no_ops() {
    let mut table = WindowTable::new();
    spawn_windows(&mut table, &vec![create(7, region_800_600(), false)]);
    despawn_windows(&mut table, &vec![DestroyNotify { event: XWinId(8), window: XWinId(8) }]);
    mark_mapped_windows(
        &mut table,
        &vec![MapNotify { event: XWinId(8), window: XWinId(8), override_redirect: false }],
    );
    assert_eq!(table.entities.len(), 1);
    assert!(table.entities[0].is_mapped.is_none());
}

#[test]
fn create_then_destroy_sequences_leave_exact_membership() {
    // create 7, create 9, destroy 7, create 7 again: the table holds
    // exactly windows 9 and 7, one entity each.
    let mut table = WindowTable::new();
    let evs = vec![
        DomainEvent::CreateNotify(create(7, region_800_600(), false)),
        DomainEvent::CreateNotify(create(9, region_800_600(), true)),
        DomainEvent::DestroyNotify(DestroyNotify { event: XWinId(7), window: XWinId(7) }),
        DomainEvent::CreateNotify(create(7, region_800_600(), true)),
    ];
    apply_events(&mut table, &evs);
    assert_eq!(table.entities.len(), 2);
    let windows: Vec<u32> = table.entities.iter().map(|e| e.window.0 .0).collect();
    assert!(windows.contains(&7));
    assert!(windows.contains(&9));
    // the second create of 7 was fresh: it is unmanaged this time
    let seven = table.entities.iter().find(|e| e.window == Window(XWinId(7))).unwrap();
    assert!(seven.is_managed.is_none());
}

#[test]
fn duplicate_create_is_ignored() {
    let mut table = WindowTable::new();
    let mut evs = Vec::new();
    evs.push(DomainEvent::CreateNotify(create(7, region_800_600(), false)));
    evs.push(DomainEvent::CreateNotify(create(7, region_800_600(), true)));
    apply_events(&mut table, &evs);
    assert_eq!(table.entities.len(), 1);
    assert!(table.entities[0].is_managed.is_some());
}

#[test]
fn map_notify_is_the_only_source_of_mapped() {
    // a map request alone never sets the mapped marker
    let mut table = WindowTable::new();
    apply_event(&mut table, &DomainEvent::CreateNotify(create(9, region_800_600(), true)));
    apply_event(
        &mut table,
        &DomainEvent::MapRequest(MapRequest { parent: XWinId(1), window: XWinId(9) }),
    );
    assert!(table.entities[0].is_mapped.is_none());
    apply_event(
        &mut table,
        &DomainEvent::MapNotify(MapNotify {
            event: XWinId(9),
            window: XWinId(9),
            override_redirect: true,
        }),
    );
    assert!(table.entities[0].is_mapped.is_some());
}
