//! Window entity lifecycle.
//!
//! The window table holds one entity per top-level window known to the
//! manager.  Typed domain events drive a fixed per-entity transition
//! table: create spawns, destroy despawns, map/unmap notifications are
//! the sole source of truth for the mapped marker, configure requests
//! update preferences (and, for unmanaged windows only, desired state),
//! and configure notifications record the server-confirmed geometry.
//! An event naming an unknown window identifier is a no-op.
use vstd::prelude::*;
use crate::component::{
    Border, IsManaged, IsMapped, PrefferedBorder, PrefferedSize, Size, Window, WindowEntity,
};
use crate::event::{
    ConfigureNotify, ConfigureRequest, CreateNotify, DestroyNotify, DomainEvent, MapNotify,
    MapRequest, UnmapNotify,
};
use crate::request::{RequestBorder, RequestMap, RequestSize};

verus! {

/// The in-memory table of window entities.
#[derive(Debug, Clone)]
pub struct WindowTable {
    pub entities: Vec<WindowEntity>,
}

impl View for WindowTable {
    type V = Seq<WindowEntity>;

    open spec fn view(&self) -> Seq<WindowEntity> {
        self.entities@
    }
}

/// At most one entity per window identifier.
pub open spec fn wf_seq(s: Seq<WindowEntity>) -> bool {
    forall|i: int, j: int|
        0 <= i < j < s.len() ==> (#[trigger] s[i]).window != (#[trigger] s[j]).window
}

/// Some entity of the table stands for this window.
pub open spec fn id_in(s: Seq<WindowEntity>, w: Window) -> bool {
    exists|i: int| 0 <= i < s.len() && (#[trigger] s[i]).window == w
}

/// Some entity of the table stands for this window and carries the
/// mapped marker.
pub open spec fn mapped_in(s: Seq<WindowEntity>, w: Window) -> bool {
    exists|i: int| 0 <= i < s.len() && (#[trigger] s[i]).window == w && s[i].mapped()
}

/// The index of the entity for this window, scanning from the back.
/// Under [`wf_seq`] there is at most one such entity, so this is the
/// index of the only match.
pub open spec fn spec_find(s: Seq<WindowEntity>, w: Window) -> Option<int>
    decreases s.len(),
{
    if s.len() == 0 {
        None
    } else if s.last().window == w {
        Some(s.len() - 1)
    } else {
        spec_find(s.drop_last(), w)
    }
}

impl WindowTable {
    /// A table with no entities.
    pub fn new() -> (t: WindowTable)
        ensures
            t@ == Seq::<WindowEntity>::empty(),
            t.wf(),
    {
        WindowTable { entities: Vec::new() }
    }

    /// At most one entity per window identifier.
    pub open spec fn wf(self) -> bool {
        wf_seq(self@)
    }

    /// Looks the window up in the table.
    pub fn find(&self, w: Window) -> (r: Option<usize>)
        requires
            self.wf(),
        ensures
            match r {
                Some(i) => spec_find(self@, w) == Some(i as int),
                None => spec_find(self@, w) is None,
            },
    {
        let n = self.entities.len();
        let mut k: usize = 0;
        while k < n
            invariant
                self.wf(),
                n == self@.len(),
                0 <= k <= n,
                forall|j: int| 0 <= j < k ==> (#[trigger] self@[j]).window != w,
            decreases n - k,
        {
            if self.entities[k].window == w {
                proof {
                    lemma_find_unique(self@, w, k as int);
                }
                return Some(k);
            }
            k += 1;
        }
        proof {
            lemma_find_absent(self@, w);
        }
        None
    }
}

/// The result of `spec_find` is an index of an entity for the window.
pub proof fn lemma_find_props(s: Seq<WindowEntity>, w: Window)
    ensures
        match spec_find(s, w) {
            Some(i) => 0 <= i < s.len() && s[i].window == w,
            None => !id_in(s, w),
        },
    decreases s.len(),
{
    if s.len() > 0 && s.last().window != w {
        lemma_find_props(s.drop_last(), w);
        if spec_find(s, w) is None {
            assert forall|i: int| 0 <= i < s.len() implies (#[trigger] s[i]).window != w by {
                if i < s.len() - 1 {
                    assert(s.drop_last()[i] == s[i]);
                }
            }
        } else {
            let i = spec_find(s.drop_last(), w)->Some_0;
            assert(s.drop_last()[i] == s[i]);
        }
    }
}

/// Under uniqueness, `spec_find` returns the index of the one match.
pub proof fn lemma_find_unique(s: Seq<WindowEntity>, w: Window, i: int)
    requires
        wf_seq(s),
        0 <= i < s.len(),
        s[i].window == w,
    ensures
        spec_find(s, w) == Some(i),
    decreases s.len(),
{
    if i == s.len() - 1 {
    } else {
        assert(s.last().window != w);
        assert(wf_seq(s.drop_last())) by {
            assert forall|a: int, b: int|
                0 <= a < b < s.drop_last().len() implies (#[trigger] s.drop_last()[a]).window != (
            #[trigger] s.drop_last()[b]).window by {
                assert(s.drop_last()[a] == s[a]);
                assert(s.drop_last()[b] == s[b]);
            }
        }
        assert(s.drop_last()[i] == s[i]);
        lemma_find_unique(s.drop_last(), w, i);
    }
}

/// If no entity stands for the window, `spec_find` reports none.
pub proof fn lemma_find_absent(s: Seq<WindowEntity>, w: Window)
    requires
        !id_in(s, w),
    ensures
        spec_find(s, w) is None,
{
    lemma_find_props(s, w);
    match spec_find(s, w) {
        Some(i) => {
            assert(0 <= i < s.len() && s[i].window == w);
            assert(false);
        },
        None => {},
    }
}

/// The entity a create event spawns: preferences from the event's
/// geometry, the managed marker exactly when the window was created
/// without the override-redirect flag, everything else absent.
pub open spec fn spec_new_entity(e: CreateNotify) -> WindowEntity {
    WindowEntity {
        window: Window(e.window),
        is_focused: None,
        is_managed: if e.override_redirect {
            None
        } else {
            Some(IsManaged)
        },
        is_mapped: None,
        preffered_size: Some(PrefferedSize(e.region)),
        preffered_border: Some(PrefferedBorder(e.border_width)),
        size: None,
        border: None,
        request_map: None,
        request_size: None,
        request_border: None,
    }
}

/// Create: spawn an entity, unless one for the identifier exists.
pub open spec fn spec_spawn(s: Seq<WindowEntity>, e: CreateNotify) -> Seq<WindowEntity> {
    if id_in(s, Window(e.window)) {
        s
    } else {
        s.push(spec_new_entity(e))
    }
}

/// Destroy: remove the entity and all its components atomically.
pub open spec fn spec_despawn(s: Seq<WindowEntity>, e: DestroyNotify) -> Seq<WindowEntity> {
    match spec_find(s, Window(e.window)) {
        Some(i) => s.remove(i),
        None => s,
    }
}

/// Map request: an entity lacking both the mapped and the managed
/// marker gets a desired-state request to be mapped; managed windows
/// are left to external policy.
pub open spec fn spec_map_unmanaged(s: Seq<WindowEntity>, e: MapRequest) -> Seq<WindowEntity> {
    match spec_find(s, Window(e.window)) {
        Some(i) => if !s[i].mapped() && !s[i].managed() {
            s.update(i, WindowEntity { request_map: Some(RequestMap::MapWin), ..s[i] })
        } else {
            s
        },
        None => s,
    }
}

/// Map notify: attach the mapped marker, clear any map request.
pub open spec fn spec_mark_mapped(s: Seq<WindowEntity>, e: MapNotify) -> Seq<WindowEntity> {
    match spec_find(s, Window(e.window)) {
        Some(i) => s.update(
            i,
            WindowEntity { request_map: None, is_mapped: Some(IsMapped), ..s[i] },
        ),
        None => s,
    }
}

/// Unmap notify: clear the mapped marker and any map request together.
pub open spec fn spec_mark_unmapped(s: Seq<WindowEntity>, e: UnmapNotify) -> Seq<WindowEntity> {
    match spec_find(s, Window(e.window)) {
        Some(i) => s.update(i, WindowEntity { request_map: None, is_mapped: None, ..s[i] }),
        None => s,
    }
}

/// Configure request: update the preferences unconditionally; attach
/// desired-state size and border markers only when the entity is not
/// managed (redirect semantics: unmanaged requests are honored
/// verbatim, managed geometry is policy-controlled).
pub open spec fn spec_mark_preffered(s: Seq<WindowEntity>, e: ConfigureRequest) -> Seq<
    WindowEntity,
> {
    match spec_find(s, Window(e.window)) {
        Some(i) => if s[i].managed() {
            s.update(
                i,
                WindowEntity {
                    preffered_size: Some(PrefferedSize(e.region)),
                    preffered_border: Some(PrefferedBorder(e.border_width)),
                    ..s[i]
                },
            )
        } else {
            s.update(
                i,
                WindowEntity {
                    preffered_size: Some(PrefferedSize(e.region)),
                    preffered_border: Some(PrefferedBorder(e.border_width)),
                    request_size: Some(RequestSize(e.region)),
                    request_border: Some(RequestBorder(e.border_width)),
                    ..s[i]
                },
            )
        },
        None => s,
    }
}

/// Configure notify: record the server-confirmed geometry.
pub open spec fn spec_mark_size(s: Seq<WindowEntity>, e: ConfigureNotify) -> Seq<WindowEntity> {
    match spec_find(s, Window(e.window)) {
        Some(i) => s.update(
            i,
            WindowEntity {
                size: Some(Size(e.region)),
                border: Some(Border(e.border_width)),
                ..s[i]
            },
        ),
        None => s,
    }
}

/// One domain event, one transition of the table.  Events that do not
/// concern the entity table leave it unchanged.
pub open spec fn spec_apply(s: Seq<WindowEntity>, ev: DomainEvent) -> Seq<WindowEntity> {
    match ev {
        DomainEvent::CreateNotify(e) => spec_spawn(s, e),
        DomainEvent::DestroyNotify(e) => spec_despawn(s, e),
        DomainEvent::MapRequest(e) => spec_map_unmanaged(s, e),
        DomainEvent::MapNotify(e) => spec_mark_mapped(s, e),
        DomainEvent::UnmapNotify(e) => spec_mark_unmapped(s, e),
        DomainEvent::ConfigureRequest(e) => spec_mark_preffered(s, e),
        DomainEvent::ConfigureNotify(e) => spec_mark_size(s, e),
        _ => s,
    }
}

/// A whole batch of events, applied in arrival order.
pub open spec fn spec_apply_all(s: Seq<WindowEntity>, evs: Seq<DomainEvent>) -> Seq<WindowEntity>
    decreases evs.len(),
{
    if evs.len() == 0 {
        s
    } else {
        spec_apply(spec_apply_all(s, evs.drop_last()), evs.last())
    }
}

/// Every transition keeps the table well formed: the per-identifier
/// uniqueness of entities survives any single event.
pub proof fn lemma_apply_wf(s: Seq<WindowEntity>, ev: DomainEvent)
    requires
        wf_seq(s),
    ensures
        wf_seq(spec_apply(s, ev)),
{
    let s2 = spec_apply(s, ev);
    match ev {
        DomainEvent::CreateNotify(e) => {
            if !id_in(s, Window(e.window)) {
                let ent = spec_new_entity(e);
                assert forall|i: int, j: int|
                    0 <= i < j < s2.len() implies (#[trigger] s2[i]).window != (
                #[trigger] s2[j]).window by {
                    if j == s.len() {
                        assert(s2[i] == s[i]);
                        assert(!(s[i].window == ent.window));
                    } else {
                        assert(s2[i] == s[i] && s2[j] == s[j]);
                    }
                }
            }
        },
        DomainEvent::DestroyNotify(e) => {
            lemma_find_props(s, Window(e.window));
            match spec_find(s, Window(e.window)) {
                Some(k) => {
                    assert forall|i: int, j: int|
                        0 <= i < j < s2.len() implies (#[trigger] s2[i]).window != (
                    #[trigger] s2[j]).window by {
                        let i0: int = if i < k {
                            i
                        } else {
                            i + 1
                        };
                        let j0: int = if j < k {
                            j
                        } else {
                            j + 1
                        };
                        assert(s2[i] == s[i0]);
                        assert(s2[j] == s[j0]);
                    }
                },
                None => {},
            }
        },
        _ => {
            lemma_update_keeps_ids(s, ev);
        },
    }
}

/// The non-spawning, non-despawning transitions keep every entity's
/// identifier in place, so the table's shape is untouched.
pub proof fn lemma_update_keeps_ids(s: Seq<WindowEntity>, ev: DomainEvent)
    requires
        !(ev is CreateNotify),
        !(ev is DestroyNotify),
    ensures
        spec_apply(s, ev).len() == s.len(),
        forall|i: int|
            0 <= i < s.len() ==> (#[trigger] spec_apply(s, ev)[i]).window == s[i].window,
        wf_seq(s) ==> wf_seq(spec_apply(s, ev)),
{
    let s2 = spec_apply(s, ev);
    match ev {
        DomainEvent::MapRequest(e) => {
            lemma_find_props(s, Window(e.window));
        },
        DomainEvent::MapNotify(e) => {
            lemma_find_props(s, Window(e.window));
        },
        DomainEvent::UnmapNotify(e) => {
            lemma_find_props(s, Window(e.window));
        },
        DomainEvent::ConfigureRequest(e) => {
            lemma_find_props(s, Window(e.window));
        },
        DomainEvent::ConfigureNotify(e) => {
            lemma_find_props(s, Window(e.window));
        },
        _ => {},
    }
    if wf_seq(s) {
        assert forall|i: int, j: int|
            0 <= i < j < s2.len() implies (#[trigger] s2[i]).window != (#[trigger] s2[j]).window by {
            assert(s2[i].window == s[i].window);
            assert(s2[j].window == s[j].window);
        }
    }
}

/// Reacts to a create event: spawns a new window entity carrying the
/// event's geometry, managed exactly when not override-redirect.
pub fn spawn_window(table: &mut WindowTable, e: &CreateNotify)
    requires
        old(table).wf(),
    ensures
        final(table).wf(),
        final(table)@ == spec_spawn(old(table)@, *e),
{
    let w = Window(e.window);
    match table.find(w) {
        Some(_) => {
            proof {
                lemma_find_props(table@, w);
            }
        },
        None => {
            proof {
                lemma_find_props(table@, w);
                lemma_apply_wf(table@, DomainEvent::CreateNotify(*e));
            }
            let ent = WindowEntity {
                window: w,
                is_focused: None,
                is_managed: if e.override_redirect {
                    None
                } else {
                    Some(IsManaged)
                },
                is_mapped: None,
                preffered_size: Some(PrefferedSize(e.region)),
                preffered_border: Some(PrefferedBorder(e.border_width)),
                size: None,
                border: None,
                request_map: None,
                request_size: None,
                request_border: None,
            };
            table.entities.push(ent);
        },
    }
}

/// Reacts to a destroy event: despawns the window's entity together
/// with all its components.
pub fn despawn_window(table: &mut WindowTable, e: &DestroyNotify)
    requires
        old(table).wf(),
    ensures
        final(table).wf(),
        final(table)@ == spec_despawn(old(table)@, *e),
{
    let w = Window(e.window);
    proof {
        lemma_apply_wf(table@, DomainEvent::DestroyNotify(*e));
    }
    match table.find(w) {
        Some(i) => {
            proof {
                lemma_find_props(table@, w);
            }
            table.entities.remove(i);
        },
        None => {},
    }
}

/// Reacts to a map request for unmanaged, unmapped windows only and
/// requests them to be mapped unconditionally, as managers must.
pub fn map_unmanaged_window(table: &mut WindowTable, e: &MapRequest)
    requires
        old(table).wf(),
    ensures
        final(table).wf(),
        final(table)@ == spec_map_unmanaged(old(table)@, *e),
{
    let w = Window(e.window);
    proof {
        lemma_find_props(table@, w);
        lemma_update_keeps_ids(table@, DomainEvent::MapRequest(*e));
    }
    match table.find(w) {
        Some(i) => {
            if table.entities[i].is_mapped.is_none() && table.entities[i].is_managed.is_none() {
                table.entities[i].request_map = Some(RequestMap::MapWin);
            }
        },
        None => {},
    }
}

/// Reacts to a map notification: attaches the mapped marker and clears
/// any pending map request.
pub fn mark_mapped_window(table: &mut WindowTable, e: &MapNotify)
    requires
        old(table).wf(),
    ensures
        final(table).wf(),
        final(table)@ == spec_mark_mapped(old(table)@, *e),
{
    let w = Window(e.window);
    proof {
        lemma_find_props(table@, w);
        lemma_update_keeps_ids(table@, DomainEvent::MapNotify(*e));
    }
    match table.find(w) {
        Some(i) => {
            table.entities[i].request_map = None;
            table.entities[i].is_mapped = Some(IsMapped);
        },
        None => {},
    }
}

/// Reacts to an unmap notification: removes the mapped marker and any
/// pending map request together, leaving no partial state.
pub fn mark_unmapped_window(table: &mut WindowTable, e: &UnmapNotify)
    requires
        old(table).wf(),
    ensures
        final(table).wf(),
        final(table)@ == spec_mark_unmapped(old(table)@, *e),
{
    let w = Window(e.window);
    proof {
        lemma_find_props(table@, w);
        lemma_update_keeps_ids(table@, DomainEvent::UnmapNotify(*e));
    }
    match table.find(w) {
        Some(i) => {
            table.entities[i].request_map = None;
            table.entities[i].is_mapped = None;
        },
        None => {},
    }
}

/// Reacts to a configure request: updates the window's preferences
/// unconditionally and, only for entities without the managed marker,
/// mirrors the request as desired state.
pub fn mark_preffered_size_window(table: &mut WindowTable, e: &ConfigureRequest)
    requires
        old(table).wf(),
    ensures
        final(table).wf(),
        final(table)@ == spec_mark_preffered(old(table)@, *e),
{
    let w = Window(e.window);
    proof {
        lemma_find_props(table@, w);
        lemma_update_keeps_ids(table@, DomainEvent::ConfigureRequest(*e));
    }
    match table.find(w) {
        Some(i) => {
            table.entities[i].preffered_size = Some(PrefferedSize(e.region));
            table.entities[i].preffered_border = Some(PrefferedBorder(e.border_width));
            if table.entities[i].is_managed.is_none() {
                table.entities[i].request_size = Some(RequestSize(e.region));
                table.entities[i].request_border = Some(RequestBorder(e.border_width));
            }
        },
        None => {},
    }
}

/// Reacts to a configure notification: records the server-confirmed
/// geometry and border.
pub fn mark_size_window(table: &mut WindowTable, e: &ConfigureNotify)
    requires
        old(table).wf(),
    ensures
        final(table).wf(),
        final(table)@ == spec_mark_size(old(table)@, *e),
{
    let w = Window(e.window);
    proof {
        lemma_find_props(table@, w);
        lemma_update_keeps_ids(table@, DomainEvent::ConfigureNotify(*e));
    }
    match table.find(w) {
        Some(i) => {
            table.entities[i].size = Some(Size(e.region));
            table.entities[i].border = Some(Border(e.border_width));
        },
        None => {},
    }
}

/// A batch of create events, applied in arrival order.
pub open spec fn spec_spawn_all(s: Seq<WindowEntity>, evs: Seq<CreateNotify>) -> Seq<WindowEntity>
    decreases evs.len(),
{
    if evs.len() == 0 {
        s
    } else {
        spec_spawn(spec_spawn_all(s, evs.drop_last()), evs.last())
    }
}

/// A batch of destroy events, applied in arrival order.
pub open spec fn spec_despawn_all(s: Seq<WindowEntity>, evs: Seq<DestroyNotify>) -> Seq<
    WindowEntity,
>
    decreases evs.len(),
{
    if evs.len() == 0 {
        s
    } else {
        spec_despawn(spec_despawn_all(s, evs.drop_last()), evs.last())
    }
}

/// A batch of map requests, applied in arrival order.
pub open spec fn spec_map_unmanaged_all(s: Seq<WindowEntity>, evs: Seq<MapRequest>) -> Seq<
    WindowEntity,
>
    decreases evs.len(),
{
    if evs.len() == 0 {
        s
    } else {
        spec_map_unmanaged(spec_map_unmanaged_all(s, evs.drop_last()), evs.last())
    }
}

/// A batch of map notifications, applied in arrival order.
pub open spec fn spec_mark_mapped_all(s: Seq<WindowEntity>, evs: Seq<MapNotify>) -> Seq<
    WindowEntity,
>
    decreases evs.len(),
{
    if evs.len() == 0 {
        s
    } else {
        spec_mark_mapped(spec_mark_mapped_all(s, evs.drop_last()), evs.last())
    }
}

/// A batch of unmap notifications, applied in arrival order.
pub open spec fn spec_mark_unmapped_all(s: Seq<WindowEntity>, evs: Seq<UnmapNotify>) -> Seq<
    WindowEntity,
>
    decreases evs.len(),
{
    if evs.len() == 0 {
        s
    } else {
        spec_mark_unmapped(spec_mark_unmapped_all(s, evs.drop_last()), evs.last())
    }
}

/// A batch of configure requests, applied in arrival order.
pub open spec fn spec_mark_preffered_all(s: Seq<WindowEntity>, evs: Seq<ConfigureRequest>) -> Seq<
    WindowEntity,
>
    decreases evs.len(),
{
    if evs.len() == 0 {
        s
    } else {
        spec_mark_preffered(spec_mark_preffered_all(s, evs.drop_last()), evs.last())
    }
}

/// A batch of configure notifications, applied in arrival order.
pub open spec fn spec_mark_size_all(s: Seq<WindowEntity>, evs: Seq<ConfigureNotify>) -> Seq<
    WindowEntity,
>
    decreases evs.len(),
{
    if evs.len() == 0 {
        s
    } else {
        spec_mark_size(spec_mark_size_all(s, evs.drop_last()), evs.last())
    }
}

/// Reacts to the iteration's create events and spawns new window
/// entities.
pub fn spawn_windows(table: &mut WindowTable, events: &Vec<CreateNotify>)
    requires
        old(table).wf(),
    ensures
        final(table).wf(),
        final(table)@ == spec_spawn_all(old(table)@, events@),
{
    let n = events.len();
    let mut k: usize = 0;
    while k < n
        invariant
            table.wf(),
            n == events@.len(),
            0 <= k <= n,
            table@ == spec_spawn_all(old(table)@, events@.take(k as int)),
        decreases n - k,
    {
        spawn_window(table, &events[k]);
        proof {
            assert(events@.take(k as int + 1).drop_last() =~= events@.take(k as int));
        }
        k += 1;
    }
    proof {
        assert(events@.take(n as int) =~= events@);
    }
}

/// Reacts to the iteration's destroy events and despawns the window
/// entities with a matching identifier.
pub fn despawn_windows(table: &mut WindowTable, events: &Vec<DestroyNotify>)
    requires
        old(table).wf(),
    ensures
        final(table).wf(),
        final(table)@ == spec_despawn_all(old(table)@, events@),
{
    let n = events.len();
    let mut k: usize = 0;
    while k < n
        invariant
            table.wf(),
            n == events@.len(),
            0 <= k <= n,
            table@ == spec_despawn_all(old(table)@, events@.take(k as int)),
        decreases n - k,
    {
        despawn_window(table, &events[k]);
        proof {
            assert(events@.take(k as int + 1).drop_last() =~= events@.take(k as int));
        }
        k += 1;
    }
    proof {
        assert(events@.take(n as int) =~= events@);
    }
}

/// Reacts to the iteration's map requests, for unmanaged windows only.
pub fn map_unmanaged_windows(table: &mut WindowTable, events: &Vec<MapRequest>)
    requires
        old(table).wf(),
    ensures
        final(table).wf(),
        final(table)@ == spec_map_unmanaged_all(old(table)@, events@),
{
    let n = events.len();
    let mut k: usize = 0;
    while k < n
        invariant
            table.wf(),
            n == events@.len(),
            0 <= k <= n,
            table@ == spec_map_unmanaged_all(old(table)@, events@.take(k as int)),
        decreases n - k,
    {
        map_unmanaged_window(table, &events[k]);
        proof {
            assert(events@.take(k as int + 1).drop_last() =~= events@.take(k as int));
        }
        k += 1;
    }
    proof {
        assert(events@.take(n as int) =~= events@);
    }
}

/// Reacts to the iteration's map notifications.
pub fn mark_mapped_windows(table: &mut WindowTable, events: &Vec<MapNotify>)
    requires
        old(table).wf(),
    ensures
        final(table).wf(),
        final(table)@ == spec_mark_mapped_all(old(table)@, events@),
{
    let n = events.len();
    let mut k: usize = 0;
    while k < n
        invariant
            table.wf(),
            n == events@.len(),
            0 <= k <= n,
            table@ == spec_mark_mapped_all(old(table)@, events@.take(k as int)),
        decreases n - k,
    {
        mark_mapped_window(table, &events[k]);
        proof {
            assert(events@.take(k as int + 1).drop_last() =~= events@.take(k as int));
        }
        k += 1;
    }
    proof {
        assert(events@.take(n as int) =~= events@);
    }
}

/// Reacts to the iteration's unmap notifications.
pub fn mark_unmapped_windows(table: &mut WindowTable, events: &Vec<UnmapNotify>)
    requires
        old(table).wf(),
    ensures
        final(table).wf(),
        final(table)@ == spec_mark_unmapped_all(old(table)@, events@),
{
    let n = events.len();
    let mut k: usize = 0;
    while k < n
        invariant
            table.wf(),
            n == events@.len(),
            0 <= k <= n,
            table@ == spec_mark_unmapped_all(old(table)@, events@.take(k as int)),
        decreases n - k,
    {
        mark_unmapped_window(table, &events[k]);
        proof {
            assert(events@.take(k as int + 1).drop_last() =~= events@.take(k as int));
        }
        k += 1;
    }
    proof {
        assert(events@.take(n as int) =~= events@);
    }
}

/// Reacts to the iteration's configure requests.
pub fn mark_preffered_size_windows(table: &mut WindowTable, events: &Vec<ConfigureRequest>)
    requires
        old(table).wf(),
    ensures
        final(table).wf(),
        final(table)@ == spec_mark_preffered_all(old(table)@, events@),
{
    let n = events.len();
    let mut k: usize = 0;
    while k < n
        invariant
            table.wf(),
            n == events@.len(),
            0 <= k <= n,
            table@ == spec_mark_preffered_all(old(table)@, events@.take(k as int)),
        decreases n - k,
    {
        mark_preffered_size_window(table, &events[k]);
        proof {
            assert(events@.take(k as int + 1).drop_last() =~= events@.take(k as int));
        }
        k += 1;
    }
    proof {
        assert(events@.take(n as int) =~= events@);
    }
}

/// Reacts to the iteration's configure notifications.
pub fn mark_size_windows(table: &mut WindowTable, events: &Vec<ConfigureNotify>)
    requires
        old(table).wf(),
    ensures
        final(table).wf(),
        final(table)@ == spec_mark_size_all(old(table)@, events@),
{
    let n = events.len();
    let mut k: usize = 0;
    while k < n
        invariant
            table.wf(),
            n == events@.len(),
            0 <= k <= n,
            table@ == spec_mark_size_all(old(table)@, events@.take(k as int)),
        decreases n - k,
    {
        mark_size_window(table, &events[k]);
        proof {
            assert(events@.take(k as int + 1).drop_last() =~= events@.take(k as int));
        }
        k += 1;
    }
    proof {
        assert(events@.take(n as int) =~= events@);
    }
}

/// Applies one domain event to the table, as the transition table
/// prescribes.  Events of kinds the table does not track are no-ops.
pub fn apply_event(table: &mut WindowTable, ev: &DomainEvent)
    requires
        old(table).wf(),
    ensures
        final(table).wf(),
        final(table)@ == spec_apply(old(table)@, *ev),
{
    match ev {
        DomainEvent::CreateNotify(e) => spawn_window(table, e),
        DomainEvent::DestroyNotify(e) => despawn_window(table, e),
        DomainEvent::MapRequest(e) => map_unmanaged_window(table, e),
        DomainEvent::MapNotify(e) => mark_mapped_window(table, e),
        DomainEvent::UnmapNotify(e) => mark_unmapped_window(table, e),
        DomainEvent::ConfigureRequest(e) => mark_preffered_size_window(table, e),
        DomainEvent::ConfigureNotify(e) => mark_size_window(table, e),
        _ => {},
    }
}

/// Membership is insensitive to in-place component updates.
pub proof fn lemma_id_in_pointwise(s1: Seq<WindowEntity>, s2: Seq<WindowEntity>, w: Window)
    requires
        s1.len() == s2.len(),
        forall|i: int| 0 <= i < s1.len() ==> (#[trigger] s1[i]).window == s2[i].window,
    ensures
        id_in(s1, w) == id_in(s2, w),
{
    if id_in(s1, w) {
        let j = choose|j: int| 0 <= j < s1.len() && (#[trigger] s1[j]).window == w;
        assert(s2[j].window == w);
    }
    if id_in(s2, w) {
        let j = choose|j: int| 0 <= j < s2.len() && (#[trigger] s2[j]).window == w;
        assert(s1[j].window == w);
    }
}

/// Appending an entity adds exactly its identifier to the membership.
pub proof fn lemma_id_in_push(s: Seq<WindowEntity>, ent: WindowEntity, w: Window)
    ensures
        id_in(s.push(ent), w) == (id_in(s, w) || ent.window == w),
{
    let s2 = s.push(ent);
    if id_in(s, w) {
        let j = choose|j: int| 0 <= j < s.len() && (#[trigger] s[j]).window == w;
        assert(s2[j].window == w);
    }
    if ent.window == w {
        assert(s2[s.len() as int].window == w);
    }
    if id_in(s2, w) && ent.window != w {
        let j = choose|j: int| 0 <= j < s2.len() && (#[trigger] s2[j]).window == w;
        assert(j < s.len());
        assert(s[j].window == w);
    }
}

/// Removing an entity for another identifier does not change whether
/// this one is present; removing the only entity for this identifier
/// removes it from the membership.
pub proof fn lemma_id_in_remove(s: Seq<WindowEntity>, k: int, w: Window)
    requires
        0 <= k < s.len(),
    ensures
        s[k].window != w ==> id_in(s.remove(k), w) == id_in(s, w),
        s[k].window == w && wf_seq(s) ==> !id_in(s.remove(k), w),
{
    let s2 = s.remove(k);
    assert(s2.len() == s.len() - 1);
    assert forall|j: int| 0 <= j < s2.len() implies #[trigger] s2[j] == s[if j < k {
        j
    } else {
        j + 1
    }] by {}
    if s[k].window != w {
        if id_in(s, w) {
            let j = choose|j: int| 0 <= j < s.len() && (#[trigger] s[j]).window == w;
            let j2: int = if j < k {
                j
            } else {
                j - 1
            };
            assert(s2[j2].window == w);
        }
        if id_in(s2, w) {
            let j = choose|j: int| 0 <= j < s2.len() && (#[trigger] s2[j]).window == w;
            let j0: int = if j < k {
                j
            } else {
                j + 1
            };
            assert(s[j0].window == w);
        }
    }
    if s[k].window == w && wf_seq(s) {
        if id_in(s2, w) {
            let j = choose|j: int| 0 <= j < s2.len() && (#[trigger] s2[j]).window == w;
            let j0: int = if j < k {
                j
            } else {
                j + 1
            };
            assert(s[j0].window == w);
            assert(j0 != k);
            assert(false);
        }
    }
}

/// Whether some entity for the identifier carries the mapped marker is
/// insensitive to updates that keep identifier and marker.
pub proof fn lemma_mapped_in_update(s: Seq<WindowEntity>, i: int, ent: WindowEntity, w: Window)
    requires
        0 <= i < s.len(),
        ent.window == s[i].window,
        s[i].window != w || ent.mapped() == s[i].mapped(),
    ensures
        mapped_in(s.update(i, ent), w) == mapped_in(s, w),
{
    let s2 = s.update(i, ent);
    if mapped_in(s, w) {
        let j = choose|j: int|
            0 <= j < s.len() && (#[trigger] s[j]).window == w && s[j].mapped();
        if j == i {
            assert(s2[j].window == w && s2[j].mapped());
        } else {
            assert(s2[j].window == w && s2[j].mapped());
        }
    }
    if mapped_in(s2, w) {
        let j = choose|j: int|
            0 <= j < s2.len() && (#[trigger] s2[j]).window == w && s2[j].mapped();
        assert(s[j].window == w && s[j].mapped());
    }
}

/// Appending an unmapped entity does not change which identifiers have
/// a mapped entity.
pub proof fn lemma_mapped_in_push(s: Seq<WindowEntity>, ent: WindowEntity, w: Window)
    requires
        !ent.mapped(),
    ensures
        mapped_in(s.push(ent), w) == mapped_in(s, w),
{
    let s2 = s.push(ent);
    if mapped_in(s, w) {
        let j = choose|j: int|
            0 <= j < s.len() && (#[trigger] s[j]).window == w && s[j].mapped();
        assert(s2[j].window == w && s2[j].mapped());
    }
    if mapped_in(s2, w) {
        let j = choose|j: int|
            0 <= j < s2.len() && (#[trigger] s2[j]).window == w && s2[j].mapped();
        assert(j < s.len());
        assert(s[j].window == w && s[j].mapped());
    }
}

/// Removing an entity for another identifier does not change whether
/// this one has a mapped entity.
pub proof fn lemma_mapped_in_remove(s: Seq<WindowEntity>, k: int, w: Window)
    requires
        0 <= k < s.len(),
        s[k].window != w,
    ensures
        mapped_in(s.remove(k), w) == mapped_in(s, w),
{
    let s2 = s.remove(k);
    assert forall|j: int| 0 <= j < s2.len() implies #[trigger] s2[j] == s[if j < k {
        j
    } else {
        j + 1
    }] by {}
    if mapped_in(s, w) {
        let j = choose|j: int|
            0 <= j < s.len() && (#[trigger] s[j]).window == w && s[j].mapped();
        let j2: int = if j < k {
            j
        } else {
            j - 1
        };
        assert(s2[j2].window == w && s2[j2].mapped());
    }
    if mapped_in(s2, w) {
        let j = choose|j: int|
            0 <= j < s2.len() && (#[trigger] s2[j]).window == w && s2[j].mapped();
        let j0: int = if j < k {
            j
        } else {
            j + 1
        };
        assert(s[j0].window == w && s[j0].mapped());
    }
}

/// The mapped marker is attached only by a map notification for the
/// same identifier and detached only by an unmap notification for it
/// or by the entity's destruction, whatever single event is applied -
/// so the property holds under any interleaving of map requests and
/// map/unmap notifications.
pub proof fn lemma_mapped_transitions(s: Seq<WindowEntity>, ev: DomainEvent, w: Window)
    requires
        wf_seq(s),
    ensures
        (!mapped_in(s, w) && mapped_in(spec_apply(s, ev), w)) ==> (ev matches
        DomainEvent::MapNotify(e) && Window(e.window) == w),
        (mapped_in(s, w) && !mapped_in(spec_apply(s, ev), w)) ==> ((ev matches
        DomainEvent::UnmapNotify(e) && Window(e.window) == w) || (ev matches
        DomainEvent::DestroyNotify(e) && Window(e.window) == w)),
{
    let s2 = spec_apply(s, ev);
    match ev {
        DomainEvent::CreateNotify(e) => {
            if !id_in(s, Window(e.window)) {
                lemma_mapped_in_push(s, spec_new_entity(e), w);
            }
        },
        DomainEvent::DestroyNotify(e) => {
            lemma_find_props(s, Window(e.window));
            match spec_find(s, Window(e.window)) {
                Some(k) => {
                    if s[k].window != w {
                        lemma_mapped_in_remove(s, k, w);
                    }
                },
                None => {},
            }
        },
        DomainEvent::MapRequest(e) => {
            lemma_find_props(s, Window(e.window));
            match spec_find(s, Window(e.window)) {
                Some(k) => {
                    if !s[k].mapped() && !s[k].managed() {
                        lemma_mapped_in_update(
                            s,
                            k,
                            WindowEntity { request_map: Some(RequestMap::MapWin), ..s[k] },
                            w,
                        );
                    }
                },
                None => {},
            }
        },
        DomainEvent::MapNotify(e) => {
            lemma_find_props(s, Window(e.window));
            match spec_find(s, Window(e.window)) {
                Some(k) => {
                    let ent = WindowEntity {
                        request_map: None,
                        is_mapped: Some(IsMapped),
                        ..s[k]
                    };
                    if s[k].window != w {
                        lemma_mapped_in_update(s, k, ent, w);
                    } else {
                        assert(s2[k].window == w && s2[k].mapped());
                        assert(mapped_in(s2, w));
                    }
                },
                None => {},
            }
        },
        DomainEvent::UnmapNotify(e) => {
            lemma_find_props(s, Window(e.window));
            match spec_find(s, Window(e.window)) {
                Some(k) => {
                    let ent = WindowEntity { request_map: None, is_mapped: None, ..s[k] };
                    if s[k].window != w {
                        lemma_mapped_in_update(s, k, ent, w);
                    } else {
                        if mapped_in(s2, w) {
                            let j = choose|j: int|
                                0 <= j < s2.len() && (#[trigger] s2[j]).window == w
                                    && s2[j].mapped();
                            assert(j != k);
                            assert(s[j].window == w);
                            assert(false);
                        }
                        if mapped_in(s, w) {
                            let j = choose|j: int|
                                0 <= j < s.len() && (#[trigger] s[j]).window == w && s[j].mapped();
                            assert(j == k);
                        }
                    }
                },
                None => {},
            }
        },
        DomainEvent::ConfigureRequest(e) => {
            lemma_find_props(s, Window(e.window));
            match spec_find(s, Window(e.window)) {
                Some(k) => {
                    lemma_mapped_in_update(s, k, spec_mark_preffered(s, e)[k], w);
                },
                None => {},
            }
        },
        DomainEvent::ConfigureNotify(e) => {
            lemma_find_props(s, Window(e.window));
            match spec_find(s, Window(e.window)) {
                Some(k) => {
                    lemma_mapped_in_update(s, k, spec_mark_size(s, e)[k], w);
                },
                None => {},
            }
        },
        _ => {},
    }
}

/// Whether some event of the batch is a map notification for this
/// window.
pub open spec fn has_map_notify(evs: Seq<DomainEvent>, w: Window) -> bool {
    exists|k: int|
        0 <= k < evs.len() && ((#[trigger] evs[k]) matches DomainEvent::MapNotify(e) && Window(
            e.window,
        ) == w)
}

/// Whether some event of the batch unmaps or destroys this window.
pub open spec fn has_unmap_or_destroy(evs: Seq<DomainEvent>, w: Window) -> bool {
    exists|k: int|
        0 <= k < evs.len() && (((#[trigger] evs[k]) matches DomainEvent::UnmapNotify(e) && Window(
            e.window,
        ) == w) || (evs[k] matches DomainEvent::DestroyNotify(e) && Window(e.window) == w))
}

/// Under any interleaving of events: a window can only become mapped if
/// the batch held a map notification for it, and can only stop being
/// mapped if the batch held an unmap notification or destroy for it.
pub proof fn lemma_mapped_interleaving(s: Seq<WindowEntity>, evs: Seq<DomainEvent>, w: Window)
    requires
        wf_seq(s),
    ensures
        (!mapped_in(s, w) && mapped_in(spec_apply_all(s, evs), w)) ==> has_map_notify(evs, w),
        (mapped_in(s, w) && !mapped_in(spec_apply_all(s, evs), w)) ==> has_unmap_or_destroy(
            evs,
            w,
        ),
    decreases evs.len(),
{
    if evs.len() > 0 {
        let prefix = evs.drop_last();
        let s1 = spec_apply_all(s, prefix);
        let s2 = spec_apply_all(s, evs);
        lemma_apply_all_wf(s, prefix);
        lemma_mapped_interleaving(s, prefix, w);
        lemma_mapped_transitions(s1, evs.last(), w);
        if !mapped_in(s, w) && mapped_in(s2, w) {
            if mapped_in(s1, w) {
                let k = choose|k: int|
                    0 <= k < prefix.len() && ((#[trigger] prefix[k]) matches
                    DomainEvent::MapNotify(e) && Window(e.window) == w);
                assert(evs[k] == prefix[k]);
            } else {
                assert(evs[evs.len() - 1] == evs.last());
            }
        }
        if mapped_in(s, w) && !mapped_in(s2, w) {
            if !mapped_in(s1, w) {
                let k = choose|k: int|
                    0 <= k < prefix.len() && (((#[trigger] prefix[k]) matches
                    DomainEvent::UnmapNotify(e) && Window(e.window) == w) || (prefix[k] matches
                    DomainEvent::DestroyNotify(e) && Window(e.window) == w));
                assert(evs[k] == prefix[k]);
            } else {
                assert(evs[evs.len() - 1] == evs.last());
            }
        }
    }
}

/// A configure request for a managed entity updates its preferences
/// but never, by itself, attaches a size or border request; every
/// other entity is untouched.
pub proof fn lemma_managed_configure_request_policy(
    s: Seq<WindowEntity>,
    e: ConfigureRequest,
    i: int,
)
    requires
        wf_seq(s),
        0 <= i < s.len(),
        s[i].window == Window(e.window),
        s[i].managed(),
    ensures
        spec_mark_preffered(s, e)[i].preffered_size == Some(PrefferedSize(e.region)),
        spec_mark_preffered(s, e)[i].preffered_border == Some(PrefferedBorder(e.border_width)),
        spec_mark_preffered(s, e)[i].request_size == s[i].request_size,
        spec_mark_preffered(s, e)[i].request_border == s[i].request_border,
        forall|j: int|
            0 <= j < s.len() && j != i ==> #[trigger] spec_mark_preffered(s, e)[j] == s[j],
{
    lemma_find_unique(s, Window(e.window), i);
}

/// Whether a window is present after a batch of events: decided by its
/// last create or destroy event, if any; untouched otherwise.
pub open spec fn spec_status(evs: Seq<DomainEvent>, w: Window) -> Option<bool>
    decreases evs.len(),
{
    if evs.len() == 0 {
        None
    } else {
        match evs.last() {
            DomainEvent::CreateNotify(e) => if Window(e.window) == w {
                Some(true)
            } else {
                spec_status(evs.drop_last(), w)
            },
            DomainEvent::DestroyNotify(e) => if Window(e.window) == w {
                Some(false)
            } else {
                spec_status(evs.drop_last(), w)
            },
            _ => spec_status(evs.drop_last(), w),
        }
    }
}

/// Uniqueness of entities per identifier survives any event sequence.
pub proof fn lemma_apply_all_wf(s: Seq<WindowEntity>, evs: Seq<DomainEvent>)
    requires
        wf_seq(s),
    ensures
        wf_seq(spec_apply_all(s, evs)),
    decreases evs.len(),
{
    if evs.len() > 0 {
        lemma_apply_all_wf(s, evs.drop_last());
        lemma_apply_wf(spec_apply_all(s, evs.drop_last()), evs.last());
    }
}

/// After any batch of events, a window has an entity exactly when its
/// last create or destroy event was a create - or, if the batch never
/// created or destroyed it, exactly when it already had one.
pub proof fn lemma_entity_table_membership(
    s: Seq<WindowEntity>,
    evs: Seq<DomainEvent>,
    w: Window,
)
    requires
        wf_seq(s),
    ensures
        id_in(spec_apply_all(s, evs), w) == (match spec_status(evs, w) {
            Some(b) => b,
            None => id_in(s, w),
        }),
    decreases evs.len(),
{
    if evs.len() > 0 {
        let s1 = spec_apply_all(s, evs.drop_last());
        let ev = evs.last();
        let s2 = spec_apply(s1, ev);
        lemma_entity_table_membership(s, evs.drop_last(), w);
        lemma_apply_all_wf(s, evs.drop_last());
        match ev {
            DomainEvent::CreateNotify(e) => {
                if id_in(s1, Window(e.window)) {
                    assert(s2 == s1);
                    if Window(e.window) == w {
                        assert(id_in(s1, w));
                    }
                } else {
                    lemma_id_in_push(s1, spec_new_entity(e), w);
                }
            },
            DomainEvent::DestroyNotify(e) => {
                lemma_find_props(s1, Window(e.window));
                match spec_find(s1, Window(e.window)) {
                    Some(k) => {
                        lemma_id_in_remove(s1, k, w);
                        if Window(e.window) == w {
                            assert(!id_in(s2, w));
                        }
                    },
                    None => {
                        if Window(e.window) == w {
                            assert(!id_in(s1, w));
                        }
                    },
                }
            },
            _ => {
                lemma_update_keeps_ids(s1, ev);
                lemma_id_in_pointwise(s1, s2, w);
            },
        }
    }
}

/// Starting from the empty table, any event sequence leaves the table
/// holding exactly the identifiers whose last create is not yet
/// matched by a destroy, with no duplicate entities.
pub proof fn lemma_no_leaks_no_duplicates(evs: Seq<DomainEvent>, w: Window)
    ensures
        wf_seq(spec_apply_all(Seq::empty(), evs)),
        id_in(spec_apply_all(Seq::empty(), evs), w) == (spec_status(evs, w) == Some(true)),
{
    let s0 = Seq::<WindowEntity>::empty();
    lemma_apply_all_wf(s0, evs);
    lemma_entity_table_membership(s0, evs, w);
    assert(!id_in(s0, w));
}

/// Applies a whole iteration's batch of events in arrival order.
pub fn apply_events(table: &mut WindowTable, events: &Vec<DomainEvent>)
    requires
        old(table).wf(),
    ensures
        final(table).wf(),
        final(table)@ == spec_apply_all(old(table)@, events@),
{
    let n = events.len();
    let mut k: usize = 0;
    while k < n
        invariant
            table.wf(),
            n == events@.len(),
            0 <= k <= n,
            table@ == spec_apply_all(old(table)@, events@.take(k as int)),
        decreases n - k,
    {
        apply_event(table, &events[k]);
        proof {
            assert(events@.take(k as int + 1).drop_last() =~= events@.take(k as int));
            assert(events@.take(k as int + 1).last() == events@[k as int]);
        }
        k += 1;
    }
    proof {
        assert(events@.take(n as int) =~= events@);
    }
}

} // verus!
