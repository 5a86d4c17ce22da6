//! Request reconciliation.
//!
//! After the lifecycle stage has applied an iteration's events, the
//! reconciliation stage compares each entity's desired-state markers
//! against its last server-confirmed state and emits the minimal list
//! of protocol requests that closes the gap.  Markers are consumed in
//! the same pass that reads them, whether or not a request was sent,
//! so nothing is re-emitted on later iterations.
use vstd::prelude::*;
use crate::atom::Atom;
use crate::component::{Border, Size, Window, WindowEntity, XWinId};
use crate::event::MapRequest;
use crate::lifecycle::{spec_map_unmanaged, wf_seq, WindowTable};
use crate::request::{RequestBorder, RequestMap, RequestSize};
use crate::Region;

verus! {

/// An outbound protocol request, described as plain data.  The caller
/// that owns the connection serializes and sends these in order.
#[derive(Debug, Clone, Copy, PartialEq, Eq)]
pub enum XRequest {
    /// Intern one name of the fixed atom list.
    InternAtom { atom: Atom },
    /// Create the hidden 1x1 input-only check window (depth 0).
    CreateWindow { wid: XWinId, parent: XWinId },
    /// Register for output-change notifications on a window.
    SelectRandrInput { window: XWinId, mask: u32 },
    /// Replace a window's event mask.
    ChangeWindowAttributes { window: XWinId, event_mask: u32 },
    /// Map a window.
    MapWindow { window: XWinId },
    /// Unmap a window.
    UnmapWindow { window: XWinId },
    /// Configure a window: only the fields present here are sent.
    ConfigureWindow {
        window: XWinId,
        x: Option<i32>,
        y: Option<i32>,
        w: Option<u32>,
        h: Option<u32>,
        border_width: Option<u32>,
    },
    /// Release every key grab held on a window.
    UngrabKey { grab_window: XWinId },
    /// Destroy a window.
    DestroyWindow { window: XWinId },
    /// Delete a property from a window.
    DeleteProperty { window: XWinId, property: u32 },
}

/// The map or unmap request one entity's marker calls for: a map
/// request only when the window is not already mapped, an unmap
/// request only when it is (idempotent skip otherwise).
pub open spec fn spec_map_request_of(ent: WindowEntity) -> Option<XRequest> {
    match ent.request_map {
        Some(RequestMap::MapWin) => if !ent.mapped() {
            Some(XRequest::MapWindow { window: ent.window.0 })
        } else {
            None
        },
        Some(RequestMap::UnmapWin) => if ent.mapped() {
            Some(XRequest::UnmapWindow { window: ent.window.0 })
        } else {
            None
        },
        None => None,
    }
}

/// Zero or one requests, as a sequence.
pub open spec fn opt_to_seq(o: Option<XRequest>) -> Seq<XRequest> {
    match o {
        Some(r) => seq![r],
        None => Seq::empty(),
    }
}

/// The map/unmap requests a whole table calls for, in entity order.
pub open spec fn spec_map_requests(s: Seq<WindowEntity>) -> Seq<XRequest>
    decreases s.len(),
{
    if s.len() == 0 {
        Seq::empty()
    } else {
        spec_map_requests(s.drop_last()) + opt_to_seq(spec_map_request_of(s.last()))
    }
}

/// The entity with its map marker consumed.
pub open spec fn spec_clear_map(ent: WindowEntity) -> WindowEntity {
    WindowEntity { request_map: None, ..ent }
}

/// Turns the map markers of the whole table into protocol requests.
/// Every marker is removed in this same pass, whether or not a request
/// was sent; requests come out in entity order.
pub fn process_request_map(table: &mut WindowTable) -> (reqs: Vec<XRequest>)
    requires
        old(table).wf(),
    ensures
        final(table).wf(),
        final(table)@ == old(table)@.map_values(|ent: WindowEntity| spec_clear_map(ent)),
        reqs@ == spec_map_requests(old(table)@),
{
    let ghost s0 = table@;
    let mut reqs: Vec<XRequest> = Vec::new();
    let n = table.entities.len();
    let mut k: usize = 0;
    while k < n
        invariant
            n == s0.len(),
            table@.len() == n,
            0 <= k <= n,
            forall|j: int| 0 <= j < k ==> table@[j] == spec_clear_map(#[trigger] s0[j]),
            forall|j: int| k <= j < n ==> table@[j] == #[trigger] s0[j],
            reqs@ == spec_map_requests(s0.take(k as int)),
        decreases n - k,
    {
        let ent = table.entities[k];
        match ent.request_map {
            Some(RequestMap::MapWin) => {
                if ent.is_mapped.is_none() {
                    reqs.push(XRequest::MapWindow { window: ent.window.0 });
                }
            },
            Some(RequestMap::UnmapWin) => {
                if ent.is_mapped.is_some() {
                    reqs.push(XRequest::UnmapWindow { window: ent.window.0 });
                }
            },
            None => {},
        }
        table.entities[k].request_map = None;
        proof {
            assert(s0.take(k as int + 1).drop_last() =~= s0.take(k as int));
            assert(s0.take(k as int + 1).last() == s0[k as int]);
        }
        k += 1;
    }
    proof {
        assert(s0.take(n as int) =~= s0);
        assert(table@ =~= s0.map_values(|ent: WindowEntity| spec_clear_map(ent)));
        assert(wf_seq(table@)) by {
            assert forall|i: int, j: int|
                0 <= i < j < table@.len() implies (#[trigger] table@[i]).window != (
            #[trigger] table@[j]).window by {
                assert(table@[i].window == s0[i].window);
                assert(table@[j].window == s0[j].window);
            }
        }
    }
    reqs
}

/// The x field of the configure diff: present only when the requested
/// position differs from the confirmed one.
pub open spec fn spec_diff_x(rs: Option<RequestSize>, size: Region) -> Option<i32> {
    match rs {
        Some(r) => if r.0.x != size.x {
            Some(r.0.x)
        } else {
            None
        },
        None => None,
    }
}

/// The y field of the configure diff.
pub open spec fn spec_diff_y(rs: Option<RequestSize>, size: Region) -> Option<i32> {
    match rs {
        Some(r) => if r.0.y != size.y {
            Some(r.0.y)
        } else {
            None
        },
        None => None,
    }
}

/// The width field of the configure diff.
pub open spec fn spec_diff_w(rs: Option<RequestSize>, size: Region) -> Option<u32> {
    match rs {
        Some(r) => if r.0.w != size.w {
            Some(r.0.w)
        } else {
            None
        },
        None => None,
    }
}

/// The height field of the configure diff.
pub open spec fn spec_diff_h(rs: Option<RequestSize>, size: Region) -> Option<u32> {
    match rs {
        Some(r) => if r.0.h != size.h {
            Some(r.0.h)
        } else {
            None
        },
        None => None,
    }
}

/// The border-width field of the configure diff.
pub open spec fn spec_diff_border(rb: Option<RequestBorder>, border: u16) -> Option<u32> {
    match rb {
        Some(b) => if b.0 != border {
            Some(b.0 as u32)
        } else {
            None
        },
        None => None,
    }
}

/// An entity is examined by the resize pass when it carries a size or
/// border marker and the server has confirmed a size and border to
/// diff against.
pub open spec fn spec_resize_examined(ent: WindowEntity) -> bool {
    &&& (ent.request_size is Some || ent.request_border is Some)
    &&& ent.size is Some
    &&& ent.border is Some
}

/// The single configure request one entity's markers call for: only
/// the fields whose requested value differs from the confirmed state
/// are carried, and an empty diff sends nothing.
pub open spec fn spec_config_request_of(ent: WindowEntity) -> Option<XRequest> {
    match (ent.size, ent.border) {
        (Some(Size(size)), Some(Border(border))) => {
            if ent.request_size is Some || ent.request_border is Some {
                let x = spec_diff_x(ent.request_size, size);
                let y = spec_diff_y(ent.request_size, size);
                let w = spec_diff_w(ent.request_size, size);
                let h = spec_diff_h(ent.request_size, size);
                let bw = spec_diff_border(ent.request_border, border);
                if x is Some || y is Some || w is Some || h is Some || bw is Some {
                    Some(
                        XRequest::ConfigureWindow {
                            window: ent.window.0,
                            x,
                            y,
                            w,
                            h,
                            border_width: bw,
                        },
                    )
                } else {
                    None
                }
            } else {
                None
            }
        },
        _ => None,
    }
}

/// The configure requests a whole table calls for, in entity order.
pub open spec fn spec_config_requests(s: Seq<WindowEntity>) -> Seq<XRequest>
    decreases s.len(),
{
    if s.len() == 0 {
        Seq::empty()
    } else {
        spec_config_requests(s.drop_last()) + opt_to_seq(spec_config_request_of(s.last()))
    }
}

/// The entity with its size and border markers consumed, if this pass
/// examined it; an entity without a confirmed size and border keeps
/// its markers for a later pass.
pub open spec fn spec_clear_config(ent: WindowEntity) -> WindowEntity {
    if spec_resize_examined(ent) {
        WindowEntity { request_size: None, request_border: None, ..ent }
    } else {
        ent
    }
}

/// Turns the size and border markers of the whole table into configure
/// requests, one request per examined entity, carrying only the fields
/// that differ from the confirmed state.  Markers of examined entities
/// are consumed in this same pass, even when the diff was empty.
pub fn process_request_resize(table: &mut WindowTable) -> (reqs: Vec<XRequest>)
    requires
        old(table).wf(),
    ensures
        final(table).wf(),
        final(table)@ == old(table)@.map_values(|ent: WindowEntity| spec_clear_config(ent)),
        reqs@ == spec_config_requests(old(table)@),
{
    let ghost s0 = table@;
    let mut reqs: Vec<XRequest> = Vec::new();
    let n = table.entities.len();
    let mut k: usize = 0;
    while k < n
        invariant
            n == s0.len(),
            table@.len() == n,
            0 <= k <= n,
            forall|j: int| 0 <= j < k ==> table@[j] == spec_clear_config(#[trigger] s0[j]),
            forall|j: int| k <= j < n ==> table@[j] == #[trigger] s0[j],
            reqs@ == spec_config_requests(s0.take(k as int)),
        decreases n - k,
    {
        let ent = table.entities[k];
        if (ent.request_size.is_some() || ent.request_border.is_some()) && ent.size.is_some()
            && ent.border.is_some() {
            let size = match ent.size {
                Some(s) => s.0,
                None => Region { x: 0, y: 0, w: 0, h: 0 },
            };
            let border = match ent.border {
                Some(b) => b.0,
                None => 0,
            };
            let x: Option<i32> = match ent.request_size {
                Some(r) => if r.0.x != size.x {
                    Some(r.0.x)
                } else {
                    None
                },
                None => None,
            };
            let y: Option<i32> = match ent.request_size {
                Some(r) => if r.0.y != size.y {
                    Some(r.0.y)
                } else {
                    None
                },
                None => None,
            };
            let w: Option<u32> = match ent.request_size {
                Some(r) => if r.0.w != size.w {
                    Some(r.0.w)
                } else {
                    None
                },
                None => None,
            };
            let h: Option<u32> = match ent.request_size {
                Some(r) => if r.0.h != size.h {
                    Some(r.0.h)
                } else {
                    None
                },
                None => None,
            };
            let bw: Option<u32> = match ent.request_border {
                Some(b) => if b.0 != border {
                    Some(b.0 as u32)
                } else {
                    None
                },
                None => None,
            };
            if x.is_some() || y.is_some() || w.is_some() || h.is_some() || bw.is_some() {
                reqs.push(
                    XRequest::ConfigureWindow { window: ent.window.0, x, y, w, h, border_width: bw },
                );
            }
            table.entities[k].request_size = None;
            table.entities[k].request_border = None;
        }
        proof {
            assert(s0.take(k as int + 1).drop_last() =~= s0.take(k as int));
            assert(s0.take(k as int + 1).last() == s0[k as int]);
        }
        k += 1;
    }
    proof {
        assert(s0.take(n as int) =~= s0);
        assert(table@ =~= s0.map_values(|ent: WindowEntity| spec_clear_config(ent)));
        assert(wf_seq(table@)) by {
            assert forall|i: int, j: int|
                0 <= i < j < table@.len() implies (#[trigger] table@[i]).window != (
            #[trigger] table@[j]).window by {
                assert(table@[i].window == s0[i].window);
                assert(table@[j].window == s0[j].window);
            }
        }
    }
    reqs
}

/// How many map-window requests for this identifier a request list
/// holds.
pub open spec fn count_map_win(reqs: Seq<XRequest>, wid: XWinId) -> int
    decreases reqs.len(),
{
    if reqs.len() == 0 {
        0
    } else {
        count_map_win(reqs.drop_last(), wid) + if reqs.last() == (XRequest::MapWindow {
            window: wid,
        }) {
            1int
        } else {
            0int
        }
    }
}

/// Counting distributes over concatenation.
pub proof fn lemma_count_map_win_concat(a: Seq<XRequest>, b: Seq<XRequest>, wid: XWinId)
    ensures
        count_map_win(a + b, wid) == count_map_win(a, wid) + count_map_win(b, wid),
    decreases b.len(),
{
    if b.len() == 0 {
        assert(a + b =~= a);
    } else {
        lemma_count_map_win_concat(a, b.drop_last(), wid);
        assert((a + b).drop_last() =~= a + b.drop_last());
        assert((a + b).last() == b.last());
    }
}

/// What one entity's emission contributes to the count.
pub proof fn lemma_count_map_win_opt(o: Option<XRequest>, wid: XWinId)
    ensures
        count_map_win(opt_to_seq(o), wid) == (if o == Some(XRequest::MapWindow { window: wid }) {
            1int
        } else {
            0int
        }),
{
    match o {
        Some(r) => {
            assert(opt_to_seq(o).len() == 1);
            assert(opt_to_seq(o).drop_last() =~= Seq::<XRequest>::empty());
            assert(count_map_win(Seq::<XRequest>::empty(), wid) == 0);
            assert(opt_to_seq(o).last() == r);
            assert(count_map_win(opt_to_seq(o), wid) == count_map_win(
                opt_to_seq(o).drop_last(),
                wid,
            ) + if opt_to_seq(o).last() == (XRequest::MapWindow { window: wid }) {
                1int
            } else {
                0int
            });
        },
        None => {},
    }
}

/// Entities for other windows contribute no map request for this one.
pub proof fn lemma_map_requests_no_window(s: Seq<WindowEntity>, wid: XWinId)
    requires
        forall|k: int| 0 <= k < s.len() ==> (#[trigger] s[k]).window != Window(wid),
    ensures
        count_map_win(spec_map_requests(s), wid) == 0,
    decreases s.len(),
{
    if s.len() > 0 {
        assert forall|k: int|
            0 <= k < s.drop_last().len() implies (#[trigger] s.drop_last()[k]).window != Window(
            wid,
        ) by {
            assert(s.drop_last()[k] == s[k]);
        }
        lemma_map_requests_no_window(s.drop_last(), wid);
        lemma_count_map_win_concat(
            spec_map_requests(s.drop_last()),
            opt_to_seq(spec_map_request_of(s.last())),
            wid,
        );
        lemma_count_map_win_opt(spec_map_request_of(s.last()), wid);
        assert(s.last().window != Window(wid));
        assert(spec_map_request_of(s.last()) != Some(XRequest::MapWindow { window: wid }));
    }
}

/// Under per-identifier uniqueness, an entity that calls for a map
/// request is the only source of map requests for its window: the pass
/// emits exactly one.
pub proof fn lemma_map_requests_unique(s: Seq<WindowEntity>, i: int, wid: XWinId)
    requires
        wf_seq(s),
        0 <= i < s.len(),
        s[i].window == Window(wid),
        spec_map_request_of(s[i]) == Some(XRequest::MapWindow { window: wid }),
    ensures
        count_map_win(spec_map_requests(s), wid) == 1,
    decreases s.len(),
{
    lemma_count_map_win_concat(
        spec_map_requests(s.drop_last()),
        opt_to_seq(spec_map_request_of(s.last())),
        wid,
    );
    lemma_count_map_win_opt(spec_map_request_of(s.last()), wid);
    if i == s.len() - 1 {
        assert forall|k: int|
            0 <= k < s.drop_last().len() implies (#[trigger] s.drop_last()[k]).window != Window(
            wid,
        ) by {
            assert(s.drop_last()[k] == s[k]);
        }
        lemma_map_requests_no_window(s.drop_last(), wid);
    } else {
        assert(wf_seq(s.drop_last())) by {
            assert forall|a: int, b: int|
                0 <= a < b < s.drop_last().len() implies (#[trigger] s.drop_last()[a]).window != (
            #[trigger] s.drop_last()[b]).window by {
                assert(s.drop_last()[a] == s[a]);
                assert(s.drop_last()[b] == s[b]);
            }
        }
        assert(s.drop_last()[i] == s[i]);
        lemma_map_requests_unique(s.drop_last(), i, wid);
        assert(s.last().window != Window(wid));
        assert(spec_map_request_of(s.last()) != Some(XRequest::MapWindow { window: wid }));
    }
}

/// A map request for an entity carrying neither the mapped nor the
/// managed marker results in exactly one outbound map-window request in
/// the reconciliation pass that follows the lifecycle update.
pub proof fn lemma_unmanaged_map_request_once(s: Seq<WindowEntity>, e: MapRequest, i: int)
    requires
        wf_seq(s),
        0 <= i < s.len(),
        s[i].window == Window(e.window),
        !s[i].mapped(),
        !s[i].managed(),
    ensures
        count_map_win(spec_map_requests(spec_map_unmanaged(s, e)), e.window) == 1,
{
    crate::lifecycle::lemma_find_unique(s, Window(e.window), i);
    let s2 = spec_map_unmanaged(s, e);
    assert(s2 == s.update(i, WindowEntity { request_map: Some(RequestMap::MapWin), ..s[i] }));
    assert(s2[i].request_map == Some(RequestMap::MapWin));
    assert(!s2[i].mapped());
    assert(spec_map_request_of(s2[i]) == Some(XRequest::MapWindow { window: e.window }));
    assert(wf_seq(s2)) by {
        assert forall|a: int, b: int|
            0 <= a < b < s2.len() implies (#[trigger] s2[a]).window != (#[trigger] s2[b]).window by {
            assert(s2[a].window == s[a].window);
            assert(s2[b].window == s[b].window);
        }
    }
    lemma_map_requests_unique(s2, i, e.window);
}

/// Reconciling an entity whose confirmed size already equals its
/// requested size - and whose confirmed border equals any requested
/// border - emits zero configure-window fields: nothing is sent.
pub proof fn lemma_idempotent_resize(ent: WindowEntity)
    requires
        ent.request_size matches Some(r) && ent.size == Some(Size(r.0)),
        ent.request_border matches Some(b) ==> ent.border == Some(Border(b.0)),
    ensures
        spec_config_request_of(ent) is None,
{
}

} // verus!
