//! The persisted state: the item counts, the principals who hold authority,
//! and the store that keeps both between commands.

use vstd::prelude::*;

verus! {

/// One kind of item that the machine dispenses.
#[derive(Clone, Copy, Debug, PartialEq, Eq, Structural)]
pub enum Category {
    ChocolateBar,
    WaterBottle,
    ChipsPacket,
}

/// How many items of each category the machine holds.
#[derive(Clone, Copy, Debug, PartialEq, Eq, Structural)]
pub struct MachineItems {
    pub chocolate_bars: u64,
    pub water_bottles: u64,
    pub chips_packets: u64,
}

/// Who may perform privileged operations: one fixed owner, or a list of
/// administrators that its members can extend and leave.
#[derive(Clone, Debug, PartialEq, Eq)]
pub enum Authority {
    Owner(String),
    Admins(Vec<String>),
}

/// The two persisted entities, each absent until the machine is
/// instantiated.
#[derive(Clone, Debug, PartialEq, Eq)]
pub struct Store {
    pub authority: Option<Authority>,
    pub machine: Option<MachineItems>,
}

/// The principals of a list, each as its text.
pub open spec fn principals(list: Seq<String>) -> Seq<Seq<char>> {
    Seq::new(list.len(), |i: int| list[i]@)
}

/// An authority as plain values.
pub enum AuthorityView {
    Owner(Seq<char>),
    Admins(Seq<Seq<char>>),
}

impl AuthorityView {
    /// The principals who hold authority, in order.
    pub open spec fn members(self) -> Seq<Seq<char>> {
        match self {
            AuthorityView::Owner(owner) => seq![owner],
            AuthorityView::Admins(list) => list,
        }
    }

    /// Whether `who` may perform privileged operations.
    pub open spec fn permits(self, who: Seq<char>) -> bool {
        self.members().contains(who)
    }

    /// An administrator list names nobody twice.
    pub open spec fn wf(self) -> bool {
        self.members().no_duplicates()
    }
}

impl View for Authority {
    type V = AuthorityView;

    open spec fn view(&self) -> AuthorityView {
        match *self {
            Authority::Owner(owner) => AuthorityView::Owner(owner@),
            Authority::Admins(list) => AuthorityView::Admins(principals(list@)),
        }
    }
}

/// A store as plain values.
pub struct StoreView {
    pub authority: Option<AuthorityView>,
    pub machine: Option<MachineItems>,
}

impl View for Store {
    type V = StoreView;

    open spec fn view(&self) -> StoreView {
        StoreView {
            authority: match self.authority {
                Some(authority) => Some(authority@),
                None => None,
            },
            machine: self.machine,
        }
    }
}

impl Store {
    /// The stored administrator list, if there is one, names nobody twice.
    pub open spec fn wf(&self) -> bool {
        match self@.authority {
            Some(authority) => authority.wf(),
            None => true,
        }
    }

    /// A store in which nothing has been saved yet.
    pub fn new() -> (store: Store)
        ensures
            store@.authority is None,
            store@.machine is None,
            store.wf(),
    {
        Store { authority: None, machine: None }
    }
}

} // verus!
