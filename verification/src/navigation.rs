//! The navigation menu: a catalog of entries, each with an optional submenu,
//! the level that is being browsed and the entry selected on it.

use vstd::prelude::*;

verus! {

/// The level of the menu that is being browsed.
#[derive(Clone, Copy, Debug, PartialEq, Eq, Structural)]
pub enum NavigationState {
    /// The top level.
    Main,
    /// The submenu of the top-level entry with index `parent_index`.
    Submenu { parent_index: usize },
}

/// An entry of the menu: its label and, for some entries, a submenu.
#[derive(Debug)]
pub struct NavigationItem {
    pub name: String,
    pub submenu: Option<Vec<NavigationItem>>,
}

/// What the menu shows of a top-level entry: its label and the labels of its
/// submenu. The menu has two levels: nothing below a submenu is part of it.
pub struct ItemView {
    pub name: Seq<char>,
    pub children: Option<Seq<Seq<char>>>,
}

impl View for NavigationItem {
    type V = ItemView;

    open spec fn view(&self) -> ItemView {
        ItemView {
            name: self.name@,
            children: match self.submenu {
                Some(entries) => Some(labels(entries@)),
                None => None,
            },
        }
    }
}

/// The labels of `entries`, in order.
pub open spec fn labels(entries: Seq<NavigationItem>) -> Seq<Seq<char>> {
    Seq::new(entries.len(), |i: int| entries[i].name@)
}

/// The views of `entries`, in order.
pub open spec fn item_views(entries: Seq<NavigationItem>) -> Seq<ItemView> {
    Seq::new(entries.len(), |i: int| entries[i]@)
}

impl NavigationItem {
    /// An entry without a submenu.
    pub fn new(name: &str) -> (item: NavigationItem)
        ensures
            item.name@ == name@,
            item.submenu is None,
            item@ == (ItemView { name: name@, children: None }),
    {
        NavigationItem { name: name.to_owned(), submenu: None }
    }

    /// An entry that opens `submenu`.
    pub fn with_submenu(name: &str, submenu: Vec<NavigationItem>) -> (item: NavigationItem)
        ensures
            item.name@ == name@,
            item.submenu == Some(submenu),
            item@ == (ItemView { name: name@, children: Some(labels(submenu@)) }),
    {
        NavigationItem { name: name.to_owned(), submenu: Some(submenu) }
    }
}

/// What a [`NavigationTree`] holds, as mathematics.
pub struct NavView {
    /// The top-level entries.
    pub items: Seq<ItemView>,
    /// The level being browsed.
    pub state: NavigationState,
    /// The index of the selected entry on that level.
    pub selection: nat,
}

impl NavView {
    /// The top-level entry with index `index` exists and has a submenu with
    /// at least one entry: the only kind of entry that can be entered.
    pub open spec fn has_submenu(self, index: int) -> bool {
        &&& 0 <= index < self.items.len()
        &&& self.items[index].children matches Some(children)
        &&& children.len() > 0
    }

    /// The labels on the level being browsed.
    pub open spec fn current_names(self) -> Seq<Seq<char>> {
        match self.state {
            NavigationState::Main => Seq::new(self.items.len(), |i: int| self.items[i].name),
            NavigationState::Submenu { parent_index } => {
                if 0 <= parent_index < self.items.len() {
                    match self.items[parent_index as int].children {
                        Some(children) => children,
                        None => Seq::empty(),
                    }
                } else {
                    Seq::empty()
                }
            },
        }
    }

    /// The number of entries on the level being browsed.
    pub open spec fn current_count(self) -> nat {
        self.current_names().len()
    }

    /// The catalog fits the machine's indices, a submenu is browsed only
    /// where there is one, and the selection points at an entry of the level
    /// being browsed (or is 0 on a level without entries).
    pub open spec fn wf(self) -> bool {
        &&& self.items.len() <= usize::MAX
        &&& self.state matches NavigationState::Submenu { parent_index } ==> self.has_submenu(
            parent_index as int,
        )
        &&& if self.current_count() == 0 {
            self.selection == 0
        } else {
            self.selection < self.current_count()
        }
    }

    /// The menu as it starts: on the top level, with the first entry
    /// selected.
    pub open spec fn initial(items: Seq<ItemView>) -> NavView {
        NavView { items, state: NavigationState::Main, selection: 0 }
    }

    /// `index` brought into the level being browsed: an index past the last
    /// entry becomes the last entry's, and on a level without entries every
    /// index becomes 0.
    pub open spec fn clamp(self, index: int) -> nat {
        if self.current_count() == 0 || index < 0 {
            0
        } else if index >= self.current_count() {
            (self.current_count() - 1) as nat
        } else {
            index as nat
        }
    }

    /// The entry with index `index` selected, or the nearest there is.
    pub open spec fn select(self, index: int) -> NavView {
        NavView { selection: self.clamp(index), ..self }
    }

    /// The selection moved by `delta` entries. It stops at the first and at
    /// the last entry and never wraps around.
    pub open spec fn move_selection(self, delta: int) -> NavView {
        self.select(self.selection + delta)
    }

    /// Whether entering a submenu does anything: the top level is being
    /// browsed and the selected entry has a submenu with entries.
    pub open spec fn can_enter(self) -> bool {
        self.state is Main && self.has_submenu(self.selection as int)
    }

    /// The submenu of the selected entry entered, with its first entry
    /// selected. Nothing changes where there is nothing to enter.
    pub open spec fn enter_submenu(self) -> NavView {
        if self.can_enter() {
            NavView {
                state: NavigationState::Submenu { parent_index: self.selection as usize },
                selection: 0,
                ..self
            }
        } else {
            self
        }
    }

    /// Back on the top level, with the entry selected whose submenu was
    /// being browsed. Nothing changes on the top level.
    pub open spec fn exit_submenu(self) -> NavView {
        match self.state {
            NavigationState::Submenu { parent_index } => NavView {
                state: NavigationState::Main,
                selection: parent_index as nat,
                ..self
            },
            NavigationState::Main => self,
        }
    }
}

/// The level being browsed and the entry selected on it. The two change
/// together.
#[derive(Clone, Copy)]
struct Place {
    state: NavigationState,
    selection: usize,
}

/// The navigation menu.
pub struct NavigationTree {
    items: Vec<NavigationItem>,
    place: Place,
}

impl View for NavigationTree {
    type V = NavView;

    closed spec fn view(&self) -> NavView {
        NavView {
            items: item_views(self.items@),
            state: self.place.state,
            selection: self.place.selection as nat,
        }
    }
}

/// The labels of `entries`, each copied.
fn names_of(entries: &Vec<NavigationItem>) -> (names: Vec<String>)
    ensures
        names.deep_view() == labels(entries@),
{
    let mut names: Vec<String> = Vec::new();
    let mut i: usize = 0;
    while i < entries.len()
        invariant
            i <= entries@.len(),
            names@.len() == i,
            forall|k: int| 0 <= k < i ==> (#[trigger] names@[k])@ == entries@[k].name@,
        decreases entries@.len() - i,
    {
        names.push(entries[i].name.clone());
        i = i + 1;
    }
    assert(names.deep_view() =~= labels(entries@));
    names
}

impl NavigationTree {
    #[verifier::type_invariant]
    spec fn well_formed(self) -> bool {
        self@.wf()
    }

    /// The menu over `items`, on the top level and with the first entry
    /// selected.
    pub fn new(items: Vec<NavigationItem>) -> (tree: NavigationTree)
        ensures
            tree@ == NavView::initial(item_views(items@)),
            tree@.wf(),
    {
        assert(items@.len() == items.len());
        NavigationTree { items, place: Place { state: NavigationState::Main, selection: 0 } }
    }

    /// The level being browsed.
    pub fn state(&self) -> (state: NavigationState)
        ensures
            state == self@.state,
            self@.wf(),
    {
        proof {
            use_type_invariant(self);
        }
        self.place.state
    }

    /// The index of the selected entry on the level being browsed.
    pub fn selection(&self) -> (index: usize)
        ensures
            index == self@.selection,
            self@.wf(),
    {
        proof {
            use_type_invariant(self);
        }
        self.place.selection
    }

    /// Whether a submenu is being browsed.
    pub fn is_in_submenu(&self) -> (inside: bool)
        ensures
            inside == (self@.state is Submenu),
    {
        match self.place.state {
            NavigationState::Submenu { .. } => true,
            NavigationState::Main => false,
        }
    }

    /// The labels on the level being browsed, in order.
    pub fn current_items(&self) -> (names: Vec<String>)
        ensures
            names.deep_view() == self@.current_names(),
            self@.wf(),
    {
        proof {
            use_type_invariant(self);
        }
        match self.place.state {
            NavigationState::Main => {
                let names = names_of(&self.items);
                assert(labels(self.items@) =~= self@.current_names());
                names
            },
            NavigationState::Submenu { parent_index } => {
                match &self.items[parent_index].submenu {
                    Some(entries) => names_of(entries),
                    None => Vec::new(),
                }
            },
        }
    }

    /// The number of entries on the level being browsed.
    pub fn current_count(&self) -> (count: usize)
        ensures
            count == self@.current_count(),
            self@.wf(),
    {
        proof {
            use_type_invariant(self);
        }
        match self.place.state {
            NavigationState::Main => self.items.len(),
            NavigationState::Submenu { parent_index } => {
                match &self.items[parent_index].submenu {
                    Some(entries) => entries.len(),
                    None => 0,
                }
            },
        }
    }

    /// The label of the entry whose submenu is being browsed, if one is.
    pub fn parent_name(&self) -> (name: Option<String>)
        ensures
            self@.wf(),
            match self@.state {
                NavigationState::Submenu { parent_index } => name matches Some(label) && label@
                    == self@.items[parent_index as int].name,
                NavigationState::Main => name is None,
            },
    {
        proof {
            use_type_invariant(self);
        }
        match self.place.state {
            NavigationState::Submenu { parent_index } => Some(
                self.items[parent_index].name.clone(),
            ),
            NavigationState::Main => None,
        }
    }

    /// Selects the entry with index `index`. An index past the last entry
    /// selects the last entry; on a level without entries the selection is 0.
    pub fn select(&mut self, index: usize)
        ensures
            final(self)@ == old(self)@.select(index as int),
            final(self)@.wf(),
    {
        let count = self.current_count();
        let selection = if count == 0 {
            0
        } else if index >= count {
            count - 1
        } else {
            index
        };
        self.place = Place { state: self.place.state, selection };
    }

    /// Moves the selection by `delta` entries, down the list for a positive
    /// `delta` and up for a negative one. The selection stops at the first
    /// and at the last entry and never wraps around.
    pub fn move_selection(&mut self, delta: isize)
        ensures
            final(self)@ == old(self)@.move_selection(delta as int),
            final(self)@.wf(),
    {
        let current = self.selection();
        let target: usize = if delta >= 0 {
            match current.checked_add(delta as usize) {
                Some(sum) => sum,
                None => usize::MAX,
            }
        } else {
            let back: usize = (-(delta + 1)) as usize + 1;
            if back > current {
                0
            } else {
                current - back
            }
        };
        proof {
            // The level being browsed is held in a vector, whose length the
            // machine can count.
            use_type_invariant(&*self);
            match self.place.state {
                NavigationState::Main => {
                    assert(self.items@.len() == self.items.len());
                },
                NavigationState::Submenu { parent_index } => {
                    let entries = self.items@[parent_index as int].submenu->0;
                    assert(entries@.len() == entries.len());
                },
            }
        }
        self.select(target);
    }

    /// Enters the submenu of the selected entry and selects its first entry.
    /// Does nothing unless the top level is being browsed and the selected
    /// entry has a submenu with entries. Returns whether it entered.
    pub fn enter_submenu(&mut self) -> (entered: bool)
        ensures
            entered == old(self)@.can_enter(),
            final(self)@ == old(self)@.enter_submenu(),
            final(self)@.wf(),
    {
        proof {
            use_type_invariant(&*self);
        }
        match self.place.state {
            NavigationState::Submenu { .. } => false,
            NavigationState::Main => {
                let parent_index = self.place.selection;
                if parent_index >= self.items.len() {
                    return false;
                }
                let enterable = match &self.items[parent_index].submenu {
                    Some(entries) => entries.len() > 0,
                    None => false,
                };
                if enterable {
                    self.place = Place {
                        state: NavigationState::Submenu { parent_index },
                        selection: 0,
                    };
                }
                enterable
            },
        }
    }

    /// Leaves the submenu and selects the entry it belongs to. Does nothing
    /// on the top level. Returns whether it left a submenu.
    pub fn exit_submenu(&mut self) -> (left: bool)
        ensures
            left == (old(self)@.state is Submenu),
            final(self)@ == old(self)@.exit_submenu(),
            final(self)@.wf(),
    {
        proof {
            use_type_invariant(&*self);
        }
        match self.place.state {
            NavigationState::Submenu { parent_index } => {
                self.place = Place { state: NavigationState::Main, selection: parent_index };
                true
            },
            NavigationState::Main => false,
        }
    }
}

/// Every operation of the menu keeps its state well formed.
pub proof fn lemma_operations_keep_wf(nav: NavView, index: int, delta: int)
    requires
        nav.wf(),
    ensures
        nav.select(index).wf(),
        nav.move_selection(delta).wf(),
        nav.enter_submenu().wf(),
        nav.exit_submenu().wf(),
{
}

/// Entering a submenu from the top level and leaving it at once gives back
/// the menu as it was, with the same entry selected.
pub proof fn lemma_enter_then_exit_restores(nav: NavView)
    requires
        nav.wf(),
        nav.state is Main,
    ensures
        nav.enter_submenu().exit_submenu() == nav,
        nav.enter_submenu().exit_submenu().selection == nav.selection,
{
}

/// Entering and leaving at once, from any level: the selection afterwards is
/// the one before exactly when the top level was being browsed, or the
/// selected entry of the submenu had the index of the submenu's own entry.
pub proof fn lemma_enter_then_exit_selection(nav: NavView)
    requires
        nav.wf(),
    ensures
        nav.enter_submenu().exit_submenu().selection == nav.selection <==> (nav.state
            matches NavigationState::Submenu { parent_index } ==> nav.selection == parent_index),
{
}

/// At the last entry a move down changes nothing, however often it is
/// repeated; at the first entry the same holds of a move up.
pub proof fn lemma_move_selection_saturates(nav: NavView, delta: int)
    requires
        nav.wf(),
        (delta >= 0 && nav.selection + 1 >= nav.current_count()) || (delta <= 0 && nav.selection
            == 0),
    ensures
        nav.move_selection(delta) == nav,
        nav.move_selection(delta).move_selection(delta) == nav,
{
}

/// A move of the selection, repeated, ends where the first move that
/// reached a bound ended: moving on from a bound is idempotent.
pub proof fn lemma_move_selection_idempotent_at_bound(nav: NavView, delta: int)
    requires
        nav.wf(),
        nav.selection + delta < 0 || nav.selection + delta >= nav.current_count(),
    ensures
        nav.move_selection(delta).move_selection(delta) == nav.move_selection(delta),
{
}

} // verus!
