//! Session bootstrap.
//!
//! Establishing window-manager authority takes one round of protocol
//! work: intern the fixed atom list, create a hidden check window,
//! register for output-change notifications, and claim substructure
//! redirect on the root window.  The connection itself and the wire
//! traffic live outside the library; this module holds the decision
//! logic, fed with the collected replies, and the session data every
//! other component reads.
use vstd::prelude::*;
use crate::atom::{Atom, AtomRegistry, ATOM_COUNT};
use crate::component::XWinId;
use crate::reconcile::XRequest;
use crate::xcb_event_type::{reset_randr_base, set_randr_base, RandrSlot};

verus! {

/// Root event mask bit: property changes.
pub const PROPERTY_CHANGE_MASK: u32 = 0x400000;

/// Root event mask bit: substructure notifications.
pub const SUBSTRUCTURE_NOTIFY_MASK: u32 = 0x80000;

/// Root event mask bit: substructure redirect, the authority that makes
/// this client the window manager.
pub const SUBSTRUCTURE_REDIRECT_MASK: u32 = 0x100000;

/// The event mask the manager claims on the root window.
pub const ROOT_EVENT_MASK: u32 = PROPERTY_CHANGE_MASK | SUBSTRUCTURE_REDIRECT_MASK
    | SUBSTRUCTURE_NOTIFY_MASK;

/// Output extension notification mask bit: screen changes.
pub const RANDR_SCREEN_CHANGE_MASK: u32 = 0x1;

/// Output extension notification mask bit: output/crtc changes.
pub const RANDR_CRTC_CHANGE_MASK: u32 = 0x2;

/// The output extension notifications the manager subscribes to.
pub const RANDR_SELECT_MASK: u32 = RANDR_CRTC_CHANGE_MASK | RANDR_SCREEN_CHANGE_MASK;

/// Why bootstrap aborted.  Every one of these is fatal: continuing
/// would leave the manager unauthorized or inconsistent.
#[derive(Debug, Clone, Copy, PartialEq, Eq, Structural)]
pub enum BootstrapError {
    /// A name of the fixed atom list could not be interned.
    InternAtom,
    /// The hidden check window could not be created.
    CreateCheckWindow,
    /// Output-change notifications could not be registered.
    SelectInput,
    /// Substructure redirect was refused: very likely another window
    /// manager is already running.
    SubstructureRedirect,
    /// Another active connection already holds the extension base code.
    ActiveConnectionExists,
}

/// Every atom-interning reply arrived and carried an identifier.
pub open spec fn spec_replies_ok(replies: Seq<Option<u32>>) -> bool {
    &&& replies.len() == ATOM_COUNT
    &&& forall|i: int| 0 <= i < ATOM_COUNT ==> replies[i] is Some
}

/// The first failure of the bootstrap checks, in checking order.
pub open spec fn spec_init_error(
    replies: Seq<Option<u32>>,
    create_win_ok: bool,
    select_input_ok: bool,
    substructure_redirect_ok: bool,
    slot_free: bool,
) -> BootstrapError {
    if !spec_replies_ok(replies) {
        BootstrapError::InternAtom
    } else if !create_win_ok {
        BootstrapError::CreateCheckWindow
    } else if !select_input_ok {
        BootstrapError::SelectInput
    } else if !substructure_redirect_ok {
        BootstrapError::SubstructureRedirect
    } else {
        BootstrapError::ActiveConnectionExists
    }
}

/// The session data for one established connection: plain values that
/// the decoding and reconciliation components read.  The raw
/// request/reply channel stays with the caller that owns the socket.
#[derive(Debug, Clone, PartialEq, Eq)]
pub struct XConn {
    /// The root window of the first screen.
    pub root: XWinId,
    /// The hidden 1x1 input-only check window this manager created.
    pub check_win: XWinId,
    /// The output extension's base event code for this connection.
    pub randr_base: u8,
    /// The interned-atom registry, immutable after bootstrap.
    pub atoms: AtomRegistry,
}

impl XConn {
    /// The registry is complete.
    pub open spec fn wf(self) -> bool {
        self.atoms.wf()
    }

    /// Validates the collected bootstrap replies and, when every check
    /// passes, claims the extension base-code slot and produces the
    /// session data.  Every reply is checked; the first failure, in
    /// checking order, aborts startup and leaves the slot unchanged, so
    /// no partial session is ever exposed.
    pub fn init(
        root: XWinId,
        check_win: XWinId,
        randr_base: u8,
        slot: &mut RandrSlot,
        atom_replies: &Vec<Option<u32>>,
        create_win_ok: bool,
        select_input_ok: bool,
        substructure_redirect_ok: bool,
    ) -> (r: Result<XConn, BootstrapError>)
        ensures
            r is Ok <==> (spec_replies_ok(atom_replies@) && create_win_ok && select_input_ok
                && substructure_redirect_ok && old(slot).base is None),
            r matches Ok(conn) ==> {
                &&& conn.wf()
                &&& conn.root == root
                &&& conn.check_win == check_win
                &&& conn.randr_base == randr_base
                &&& forall|i: int|
                    0 <= i < ATOM_COUNT ==> Some(conn.atoms.ids@[i]) == atom_replies@[i]
                &&& final(slot).base == Some(randr_base)
            },
            r matches Err(e) ==> {
                &&& *final(slot) == *old(slot)
                &&& e == spec_init_error(
                    atom_replies@,
                    create_win_ok,
                    select_input_ok,
                    substructure_redirect_ok,
                    old(slot).base is None,
                )
            },
    {
        let atoms = match AtomRegistry::from_replies(atom_replies) {
            Some(atoms) => atoms,
            None => {
                return Err(BootstrapError::InternAtom);
            },
        };
        if !create_win_ok {
            return Err(BootstrapError::CreateCheckWindow);
        }
        if !select_input_ok {
            return Err(BootstrapError::SelectInput);
        }
        if !substructure_redirect_ok {
            return Err(BootstrapError::SubstructureRedirect);
        }
        match set_randr_base(slot, randr_base) {
            Ok(_) => Ok(XConn { root, check_win, randr_base, atoms }),
            Err(e) => Err(e),
        }
    }

    /// The identifier the server assigned to an atom; the registry is
    /// consistent for the connection's lifetime, so this cannot fail.
    pub fn atom_id(&self, atom: Atom) -> (r: u32)
        requires
            self.wf(),
        ensures
            r == self.atoms.spec_id_of(atom),
    {
        self.atoms.atom_id(atom)
    }

    /// The requests to send when the connection is dropped: release all
    /// key grabs on the root window, destroy the check window, and
    /// delete the active-window property, in that order.  The extension
    /// base-code slot is released so a future connection may reacquire
    /// it; the caller flushes and closes the socket.
    pub fn shutdown(self, slot: &mut RandrSlot) -> (reqs: Vec<XRequest>)
        requires
            self.wf(),
        ensures
            final(slot).base is None,
            reqs@ =~= seq![
                XRequest::UngrabKey { grab_window: self.root },
                XRequest::DestroyWindow { window: self.check_win },
                XRequest::DeleteProperty {
                    window: self.root,
                    property: self.atoms.spec_id_of(Atom::NetActiveWindow),
                },
            ],
    {
        let mut reqs: Vec<XRequest> = Vec::new();
        reqs.push(XRequest::UngrabKey { grab_window: self.root });
        reqs.push(XRequest::DestroyWindow { window: self.check_win });
        reqs.push(
            XRequest::DeleteProperty {
                window: self.root,
                property: self.atoms.atom_id(Atom::NetActiveWindow),
            },
        );
        reset_randr_base(slot);
        reqs
    }
}

/// The requests bootstrap fires before collecting any reply, in order:
/// one intern-atom request per entry of the fixed name list, the check
/// window creation, the output-change subscription, and the root event
/// mask that claims substructure redirect.
pub fn bootstrap_requests(root: XWinId, check_win: XWinId) -> (reqs: Vec<XRequest>)
    ensures
        reqs@.len() == ATOM_COUNT + 3,
        forall|i: int|
            0 <= i < ATOM_COUNT ==> reqs@[i] == (XRequest::InternAtom {
                atom: crate::atom::spec_all_atoms()[i],
            }),
        reqs@[ATOM_COUNT as int] == (XRequest::CreateWindow { wid: check_win, parent: root }),
        reqs@[ATOM_COUNT as int + 1] == (XRequest::SelectRandrInput {
            window: root,
            mask: RANDR_SELECT_MASK,
        }),
        reqs@[ATOM_COUNT as int + 2] == (XRequest::ChangeWindowAttributes {
            window: root,
            event_mask: ROOT_EVENT_MASK,
        }),
{
    let atoms = Atom::all();
    let mut reqs: Vec<XRequest> = Vec::new();
    let mut k: usize = 0;
    while k < atoms.len()
        invariant
            atoms@ == crate::atom::spec_all_atoms(),
            0 <= k <= atoms@.len(),
            reqs@.len() == k,
            forall|i: int|
                0 <= i < k ==> reqs@[i] == (XRequest::InternAtom { atom: atoms@[i] }),
        decreases atoms@.len() - k,
    {
        reqs.push(XRequest::InternAtom { atom: atoms[k] });
        k += 1;
    }
    reqs.push(XRequest::CreateWindow { wid: check_win, parent: root });
    reqs.push(XRequest::SelectRandrInput { window: root, mask: RANDR_SELECT_MASK });
    reqs.push(XRequest::ChangeWindowAttributes { window: root, event_mask: ROOT_EVENT_MASK });
    reqs
}

} // verus!
