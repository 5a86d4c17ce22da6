//! The fixed atom vocabulary and the interned-atom registry.
//!
//! The manager interns a closed list of named protocol properties at
//! bootstrap.  The registry built from the server's replies is a
//! bidirectional mapping between that list and the server-assigned
//! numeric identifiers; it is immutable for the connection's lifetime.
use vstd::prelude::*;

verus! {

/// How many named atoms the manager interns at bootstrap.
pub const ATOM_COUNT: usize = 9;

/// The closed list of named protocol properties the manager uses.
#[derive(Debug, Clone, Copy, Hash, PartialEq, Eq, Structural)]
pub enum Atom {
    Manager,
    UTF8String,
    WmClass,
    WmProtocols,
    WmName,
    NetActiveWindow,
    NetWmName,
    NetWmState,
    NetWmStateFullscreen,
}

/// The atoms in interning order.
pub open spec fn spec_all_atoms() -> Seq<Atom> {
    seq![
        Atom::Manager,
        Atom::UTF8String,
        Atom::WmClass,
        Atom::WmProtocols,
        Atom::WmName,
        Atom::NetActiveWindow,
        Atom::NetWmName,
        Atom::NetWmState,
        Atom::NetWmStateFullscreen,
    ]
}

impl Atom {
    /// The protocol name this atom is interned under.
    pub open spec fn spec_name(self) -> Seq<char> {
        match self {
            Atom::Manager => "MANAGER"@,
            Atom::UTF8String => "UTF8_STRING"@,
            Atom::WmClass => "WM_CLASS"@,
            Atom::WmProtocols => "WM_PROTOCOLS"@,
            Atom::WmName => "WM_NAME"@,
            Atom::NetActiveWindow => "_NET_ACTIVE_WINDOW"@,
            Atom::NetWmName => "_NET_WM_NAME"@,
            Atom::NetWmState => "_NET_WM_STATE"@,
            Atom::NetWmStateFullscreen => "_NET_WM_STATE_FULLSCREEN"@,
        }
    }

    /// The protocol name this atom is interned under.
    pub fn as_str(self) -> (r: &'static str)
        ensures
            r@ == self.spec_name(),
    {
        match self {
            Atom::Manager => "MANAGER",
            Atom::UTF8String => "UTF8_STRING",
            Atom::WmClass => "WM_CLASS",
            Atom::WmProtocols => "WM_PROTOCOLS",
            Atom::WmName => "WM_NAME",
            Atom::NetActiveWindow => "_NET_ACTIVE_WINDOW",
            Atom::NetWmName => "_NET_WM_NAME",
            Atom::NetWmState => "_NET_WM_STATE",
            Atom::NetWmStateFullscreen => "_NET_WM_STATE_FULLSCREEN",
        }
    }

    /// This atom's position in the interning order.
    pub open spec fn spec_index(self) -> int {
        match self {
            Atom::Manager => 0,
            Atom::UTF8String => 1,
            Atom::WmClass => 2,
            Atom::WmProtocols => 3,
            Atom::WmName => 4,
            Atom::NetActiveWindow => 5,
            Atom::NetWmName => 6,
            Atom::NetWmState => 7,
            Atom::NetWmStateFullscreen => 8,
        }
    }

    /// This atom's position in the interning order.
    pub fn index(self) -> (i: usize)
        ensures
            i == self.spec_index(),
            i < ATOM_COUNT,
            spec_all_atoms()[i as int] == self,
    {
        match self {
            Atom::Manager => 0,
            Atom::UTF8String => 1,
            Atom::WmClass => 2,
            Atom::WmProtocols => 3,
            Atom::WmName => 4,
            Atom::NetActiveWindow => 5,
            Atom::NetWmName => 6,
            Atom::NetWmState => 7,
            Atom::NetWmStateFullscreen => 8,
        }
    }

    /// The atom at a position of the interning order.
    pub fn from_index(i: usize) -> (a: Atom)
        requires
            i < ATOM_COUNT,
        ensures
            a == spec_all_atoms()[i as int],
            a.spec_index() == i,
    {
        match i {
            0 => Atom::Manager,
            1 => Atom::UTF8String,
            2 => Atom::WmClass,
            3 => Atom::WmProtocols,
            4 => Atom::WmName,
            5 => Atom::NetActiveWindow,
            6 => Atom::NetWmName,
            7 => Atom::NetWmState,
            _ => Atom::NetWmStateFullscreen,
        }
    }

    /// Every atom the manager interns, in interning order.
    pub fn all() -> (r: Vec<Atom>)
        ensures
            r@ == spec_all_atoms(),
    {
        let mut v: Vec<Atom> = Vec::new();
        v.push(Atom::Manager);
        v.push(Atom::UTF8String);
        v.push(Atom::WmClass);
        v.push(Atom::WmProtocols);
        v.push(Atom::WmName);
        v.push(Atom::NetActiveWindow);
        v.push(Atom::NetWmName);
        v.push(Atom::NetWmState);
        v.push(Atom::NetWmStateFullscreen);
        proof {
            assert(v@ =~= spec_all_atoms());
        }
        v
    }
}

/// The interned-atom registry: for each atom of the fixed list, the
/// numeric identifier the server assigned to it, in interning order.
#[derive(Debug, Clone, PartialEq, Eq)]
pub struct AtomRegistry {
    pub ids: Vec<u32>,
}

impl AtomRegistry {
    /// The registry holds one identifier per atom of the fixed list.
    pub open spec fn wf(self) -> bool {
        self.ids@.len() == ATOM_COUNT
    }

    /// The identifier the server assigned to an atom.
    pub open spec fn spec_id_of(self, atom: Atom) -> u32 {
        self.ids@[atom.spec_index()]
    }

    /// Builds the registry from the interning replies, one per atom of
    /// the fixed list in interning order.  Fails (with `None`) if any
    /// single name could not be interned, so a partial registry is
    /// never produced.
    pub fn from_replies(replies: &Vec<Option<u32>>) -> (r: Option<AtomRegistry>)
        ensures
            r is Some <==> (replies@.len() == ATOM_COUNT
                && forall|i: int| 0 <= i < ATOM_COUNT ==> replies@[i] is Some),
            r matches Some(reg) ==> reg.wf()
                && forall|i: int| 0 <= i < ATOM_COUNT ==> Some(reg.ids@[i]) == replies@[i],
    {
        if replies.len() != ATOM_COUNT {
            return None;
        }
        let mut ids: Vec<u32> = Vec::new();
        let mut i: usize = 0;
        while i < ATOM_COUNT
            invariant
                0 <= i <= ATOM_COUNT,
                replies@.len() == ATOM_COUNT,
                ids@.len() == i,
                forall|j: int| 0 <= j < i ==> replies@[j] is Some,
                forall|j: int| 0 <= j < i ==> Some(ids@[j]) == replies@[j],
            decreases ATOM_COUNT - i,
        {
            match replies[i] {
                Some(id) => ids.push(id),
                None => {
                    return None;
                },
            }
            i += 1;
        }
        Some(AtomRegistry { ids })
    }

    /// The identifier the server assigned to an atom.  The registry is
    /// total over the fixed list, so this lookup always succeeds.
    pub fn atom_id(&self, atom: Atom) -> (r: u32)
        requires
            self.wf(),
        ensures
            r == self.spec_id_of(atom),
    {
        let i = atom.index();
        self.ids[i]
    }

    /// The first atom of the fixed list, if any, that the server
    /// assigned this identifier to.
    pub fn atom_of_id(&self, id: u32) -> (r: Option<Atom>)
        requires
            self.wf(),
        ensures
            r matches Some(a) ==> self.spec_id_of(a) == id,
            r is None ==> forall|a: Atom| self.spec_id_of(a) != id,
            r == self.spec_atom_of_id(id),
    {
        let mut i: usize = 0;
        while i < ATOM_COUNT
            invariant
                self.wf(),
                0 <= i <= ATOM_COUNT,
                forall|j: int| 0 <= j < i ==> self.ids@[j] != id,
                spec_find_atom(self.ids@, id, 0) == spec_find_atom(self.ids@, id, i as int),
            decreases ATOM_COUNT - i,
        {
            if self.ids[i] == id {
                let a = Atom::from_index(i);
                proof {
                    reveal_with_fuel(spec_find_atom, 2);
                }
                return Some(a);
            }
            i += 1;
            proof {
                reveal_with_fuel(spec_find_atom, 2);
            }
        }
        proof {
            reveal_with_fuel(spec_find_atom, 2);
            assert forall|a: Atom| self.spec_id_of(a) != id by {
                assert(0 <= a.spec_index() < ATOM_COUNT);
            }
        }
        None
    }

    /// The first atom, in interning order, that the server assigned
    /// this identifier to.
    pub open spec fn spec_atom_of_id(self, id: u32) -> Option<Atom> {
        spec_find_atom(self.ids@, id, 0)
    }
}

/// Scans the identifier list from position `i` for the first entry
/// equal to `id`.
pub open spec fn spec_find_atom(ids: Seq<u32>, id: u32, i: int) -> Option<Atom>
    decreases ATOM_COUNT - i,
{
    if i < 0 || i >= ATOM_COUNT || ids.len() != ATOM_COUNT {
        None
    } else if ids[i] == id {
        Some(spec_all_atoms()[i])
    } else {
        spec_find_atom(ids, id, i + 1)
    }
}

} // verus!
