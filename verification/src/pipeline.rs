//! The staged per-iteration pipeline.
//!
//! Each iteration of the event loop runs, in strict order: decode the
//! batch of raw packets the caller collected, apply the resulting
//! domain events to the window table, then reconcile desired state into
//! protocol requests.  The caller performs the blocking wait, sends the
//! returned requests and flushes the wire.
use vstd::prelude::*;
use crate::atom::AtomRegistry;
use crate::component::{WindowEntity, XWinId};
use crate::decode::{
    process_xcb_events, spec_batch_decodes, spec_filter_matches, spec_filter_outcomes,
    DecodeError, DecodeOutcome,
};
use crate::event::DomainEvent;
use crate::lifecycle::{apply_events, spec_apply_all, WindowTable};
use crate::reconcile::{
    process_request_map, process_request_resize, spec_clear_config, spec_clear_map,
    spec_config_requests, spec_map_requests, XRequest,
};
use crate::xconn::XConn;

verus! {

/// The batch of raw packets decodes to exactly these domain events.
pub open spec fn spec_batch_yields(
    raws: Seq<Vec<u8>>,
    randr_base: u8,
    root: XWinId,
    reg: AtomRegistry,
    evs: Seq<DomainEvent>,
) -> bool {
    exists|os: Seq<DecodeOutcome>|
        #[trigger] spec_batch_decodes(raws, randr_base, root, reg, os) && spec_filter_outcomes(os)
            == Ok::<Seq<DomainEvent>, u8>(evs)
}

/// The window table an iteration leaves behind: the events applied,
/// then every desired-state marker the reconciliation passes read
/// consumed.
pub open spec fn spec_table_after(s: Seq<WindowEntity>, evs: Seq<DomainEvent>) -> Seq<
    WindowEntity,
> {
    spec_apply_all(s, evs).map_values(|ent: WindowEntity| spec_clear_map(ent)).map_values(
        |ent: WindowEntity| spec_clear_config(ent),
    )
}

/// The requests an iteration sends: the map/unmap requests of the
/// updated table, then its configure requests, in entity order.
pub open spec fn spec_requests_after(s: Seq<WindowEntity>, evs: Seq<DomainEvent>) -> Seq<
    XRequest,
> {
    spec_map_requests(spec_apply_all(s, evs)) + spec_config_requests(
        spec_apply_all(s, evs).map_values(|ent: WindowEntity| spec_clear_map(ent)),
    )
}

/// One iteration of the pipeline's computational core: decode, apply,
/// reconcile.  On a malformed packet the iteration fails before
/// touching the table; the caller must treat that as fatal.
pub fn run_iteration(table: &mut WindowTable, conn: &XConn, raws: &Vec<Vec<u8>>) -> (r: Result<
    Vec<XRequest>,
    DecodeError,
>)
    requires
        old(table).wf(),
        conn.wf(),
    ensures
        final(table).wf(),
        r matches Err(e) ==> *final(table) == *old(table) && (e matches
        DecodeError::MalformedEvent(t) && exists|os: Seq<DecodeOutcome>|
            #[trigger] spec_batch_decodes(raws@, conn.randr_base, conn.root, conn.atoms, os)
                && spec_filter_outcomes(os) == Err::<Seq<DomainEvent>, u8>(t)),
        r matches Ok(reqs) ==> exists|evs: Seq<DomainEvent>|
            #[trigger] spec_batch_yields(raws@, conn.randr_base, conn.root, conn.atoms, evs) &&
            final(table)@ == spec_table_after(old(table)@, evs) && reqs@ == spec_requests_after(
                old(table)@,
                evs,
            ),
{
    let decoded = process_xcb_events(raws, conn);
    let ghost gdec = decoded;
    let evs = match decoded {
        Ok(evs) => evs,
        Err(e) => {
            proof {
                let os = choose|os: Seq<DecodeOutcome>|
                    #[trigger] spec_batch_decodes(
                        raws@,
                        conn.randr_base,
                        conn.root,
                        conn.atoms,
                        os,
                    ) && spec_filter_matches(os, gdec);
                assert(spec_filter_outcomes(os) is Err);
            }
            return Err(e);
        },
    };
    apply_events(table, &evs);
    let ghost t1 = table@;
    let mut reqs = process_request_map(table);
    let ghost t2 = table@;
    let mut more = process_request_resize(table);
    let ghost t3 = table@;
    reqs.append(&mut more);
    proof {
        let os = choose|os: Seq<DecodeOutcome>|
            #[trigger] spec_batch_decodes(raws@, conn.randr_base, conn.root, conn.atoms, os)
                && spec_filter_matches(os, gdec);
        assert(spec_filter_outcomes(os) == Ok::<Seq<DomainEvent>, u8>(evs@));
        assert(spec_batch_yields(raws@, conn.randr_base, conn.root, conn.atoms, evs@));
        assert(t1 == spec_apply_all(old(table)@, evs@));
        assert(t2 =~= t1.map_values(|ent: WindowEntity| spec_clear_map(ent)));
        assert(t3 =~= t2.map_values(|ent: WindowEntity| spec_clear_config(ent)));
        assert(t3 =~= spec_table_after(old(table)@, evs@));
        assert(reqs@ == spec_map_requests(t1) + spec_config_requests(t2));
        assert(reqs@ == spec_requests_after(old(table)@, evs@));
    }
    Ok(reqs)
}

} // verus!
