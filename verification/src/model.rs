//! The static data model: item states, groups, cursors, key events.

use vstd::prelude::*;

verus! {

/// The state of one selectable item.
#[derive(Debug, Clone, Default, PartialEq, Eq)]
pub enum ItemState {
    /// An ordinary item: the cursor can rest on it and it can be toggled.
    #[default]
    Normal,
    /// A disabled item: the cursor skips it and toggles leave it unchanged.
    Disabled {
        /// Why the item cannot be selected; shown beside it.
        reason: String,
    },
    /// A selectable item that carries a warning message.
    Warning {
        /// The warning to show beside the item.
        message: String,
    },
}

impl ItemState {
    /// An exact copy; unlike the derived `Clone`, its contract says so.
    pub fn duplicate(&self) -> (r: ItemState)
        ensures
            r == *self,
    {
        match self {
            ItemState::Normal => ItemState::Normal,
            ItemState::Disabled { reason } => ItemState::Disabled { reason: reason.clone() },
            ItemState::Warning { message } => ItemState::Warning { message: message.clone() },
        }
    }
}

/// The three-valued summary of one group's selection.
#[derive(Debug, Clone, Copy, PartialEq, Eq)]
pub enum GroupState {
    /// No item of the group is checked (or the group is empty).
    NoneSelected,
    /// Some items are checked, some are not.
    Partial,
    /// Every item of the group is checked.
    All,
}

/// One labeled group: an ordered list of items with one state per item.
#[derive(Debug, Clone)]
pub struct Group {
    pub label: String,
    pub items: Vec<String>,
    pub states: Vec<ItemState>,
}

impl Group {
    /// A group is well formed when it has exactly one state per item.
    pub open spec fn wf(&self) -> bool {
        self.states@.len() == self.items@.len()
    }

    /// Build a group whose items are all in the `Normal` state.
    pub fn new(label: String, items: Vec<String>) -> (g: Group)
        ensures
            g.label == label,
            g.items == items,
            g.states@.len() == items@.len(),
            forall|i: int| 0 <= i < g.states@.len() ==> g.states@[i] is Normal,
            g.wf(),
    {
        let n = items.len();
        let mut states: Vec<ItemState> = Vec::new();
        let mut k: usize = 0;
        while k < n
            invariant
                k <= n,
                states@.len() == k as int,
                forall|i: int| 0 <= i < k as int ==> states@[i] is Normal,
            decreases n - k,
        {
            states.push(ItemState::Normal);
            k += 1;
        }
        Group { label, items, states }
    }

    /// Build a group from parallel item and state lists.
    pub fn with_states(label: String, items: Vec<String>, states: Vec<ItemState>) -> (g: Group)
        ensures
            g.label == label,
            g.items == items,
            g.states == states,
    {
        Group { label, items, states }
    }
}

/// The focused row: a group index plus, for item rows, the item's index
/// within that group.  `item_idx == None` means the group's header row.
#[derive(Debug, Clone, Copy, PartialEq, Eq)]
pub struct Cursor {
    pub group_idx: usize,
    pub item_idx: Option<usize>,
}

impl Default for Cursor {
    /// The starting position: the first group's header row.
    fn default() -> (c: Cursor)
        ensures
            c == (Cursor { group_idx: 0, item_idx: None }),
    {
        Cursor { group_idx: 0, item_idx: None }
    }
}

/// The mathematical value of a list of boolean lists, such as the per-group
/// checked flags: the outer view with every inner vector replaced by its view.
pub open spec fn nested_view<T>(v: Vec<Vec<T>>) -> Seq<Seq<T>> {
    Seq::new(v@.len(), |g: int| v@[g]@)
}

/// One key press, already classified by the caller's terminal layer.
#[derive(Debug, Clone, Copy, PartialEq, Eq)]
pub enum KeyEvent {
    ArrowUp,
    ArrowDown,
    Enter,
    Escape,
    Char(char),
    Other,
}

} // verus!
