//! The widget itself: builder-style configuration, the flat-index/cursor
//! coordinate engine, cursor movement, toggling, and the pager.

use vstd::prelude::*;

use crate::model::nested_view;
use crate::model::Cursor;
use crate::model::Group;
use crate::model::GroupState;
use crate::model::ItemState;

verus! {

/// A grouped multi-selection widget.
///
/// The group list and the per-item states are fixed once building is done;
/// the mutable session data (checked flags, cursor, page offset) lives in
/// [`crate::session::SessionState`] and is threaded through the methods.
pub struct GroupMultiSelect {
    pub groups: Vec<Group>,
    pub defaults: Vec<Vec<bool>>,
    pub prompt: String,
    pub report: bool,
    pub clear: bool,
    pub max_length: Option<usize>,
}

impl Default for GroupMultiSelect {
    /// The same empty widget as [`GroupMultiSelect::new`].
    fn default() -> (r: GroupMultiSelect)
        ensures
            r.groups@.len() == 0,
            r.defaults@.len() == 0,
            r.prompt@ == Seq::<char>::empty(),
            r.report == true,
            r.clear == true,
            r.max_length is None,
            r.wf(),
    {
        GroupMultiSelect::new()
    }
}

impl GroupMultiSelect {
    /// Every group has exactly one state per item.
    pub open spec fn wf(&self) -> bool {
        forall|g: int| 0 <= g < self.groups@.len() ==> (#[trigger] self.groups@[g]).wf()
    }

    pub open spec fn num_groups(&self) -> int {
        self.groups@.len() as int
    }

    /// How many items group `g` holds.
    pub open spec fn group_size(&self, g: int) -> int {
        self.groups@[g].items@.len() as int
    }

    /// The state of item `i` of group `g`.
    pub open spec fn state_of(&self, g: int, i: int) -> ItemState {
        self.groups@[g].states@[i]
    }

    pub open spec fn item_disabled(&self, g: int, i: int) -> bool {
        self.state_of(g, i) is Disabled
    }

    /// How many flat rows the groups before group `g` contribute: one header
    /// row plus one row per item, for each of them.
    pub open spec fn rows_before(&self, g: int) -> int
        decreases g,
    {
        if g <= 0 {
            0
        } else {
            self.rows_before(g - 1) + 1 + self.group_size(g - 1)
        }
    }

    /// The length of the flat sequence of rows.
    pub open spec fn total_rows_spec(&self) -> int {
        self.rows_before(self.num_groups())
    }

    /// The cursor points at an existing header or item row.
    pub open spec fn cursor_valid(&self, c: Cursor) -> bool {
        &&& (c.group_idx as int) < self.num_groups()
        &&& match c.item_idx {
            Option::None => true,
            Option::Some(i) => (i as int) < self.group_size(c.group_idx as int),
        }
    }

    /// The flat index of the row the cursor points at: headers sort before
    /// their own items, groups sort in registration order.
    pub open spec fn flat_of(&self, c: Cursor) -> int {
        self.rows_before(c.group_idx as int) + match c.item_idx {
            Option::None => 0int,
            Option::Some(i) => 1 + i as int,
        }
    }

    /// Walk the groups from `g` on, consuming `rem` rows; the inverse of
    /// [`Self::flat_of`], with the first group's header as fallback for an
    /// out-of-range index.
    pub open spec fn cursor_at_from(&self, g: int, rem: int) -> Cursor
        decreases self.num_groups() - g,
    {
        if g < 0 || g >= self.num_groups() {
            Cursor { group_idx: 0, item_idx: None }
        } else if rem == 0 {
            Cursor { group_idx: g as usize, item_idx: None }
        } else if rem <= self.group_size(g) {
            Cursor { group_idx: g as usize, item_idx: Some((rem - 1) as usize) }
        } else {
            self.cursor_at_from(g + 1, rem - 1 - self.group_size(g))
        }
    }

    /// The cursor for flat index `f`.
    pub open spec fn cursor_at(&self, f: int) -> Cursor {
        self.cursor_at_from(0, f)
    }

    /// Whether the cursor rests on a disabled item row.  Header rows are
    /// never disabled; an item index beyond the state list counts as enabled.
    pub open spec fn cursor_disabled(&self, c: Cursor) -> bool {
        match c.item_idx {
            Option::None => false,
            Option::Some(i) => (i as int) < self.groups@[c.group_idx as int].states@.len()
                && self.item_disabled(c.group_idx as int, i as int),
        }
    }

    /// Whether the row at flat index `f` is a disabled item row.
    pub open spec fn row_disabled(&self, f: int) -> bool {
        self.cursor_disabled(self.cursor_at(f))
    }

    pub proof fn lemma_rows_before_mono(&self, g1: int, g2: int)
        requires
            0 <= g1 <= g2,
        ensures
            self.rows_before(g1) <= self.rows_before(g2),
        decreases g2 - g1,
    {
        if g1 < g2 {
            self.lemma_rows_before_mono(g1, g2 - 1);
        }
    }

    /// Each group contributes at least its header row.
    pub proof fn lemma_rows_before_ge(&self, g: int)
        requires
            0 <= g,
        ensures
            self.rows_before(g) >= g,
        decreases g,
    {
        if g > 0 {
            self.lemma_rows_before_ge(g - 1);
        }
    }

    /// A valid cursor's flat index lies in `[0, total_rows)`.
    pub proof fn lemma_flat_of_in_range(&self, c: Cursor)
        requires
            self.cursor_valid(c),
        ensures
            0 <= self.flat_of(c) < self.total_rows_spec(),
    {
        let g = c.group_idx as int;
        self.lemma_rows_before_mono(0, g);
        self.lemma_rows_before_mono(g + 1, self.num_groups());
    }

    proof fn lemma_cursor_at_from_inverse(&self, g: int, rem: int)
        requires
            0 <= g <= self.num_groups(),
            0 <= rem,
            self.rows_before(g) + rem < self.total_rows_spec(),
            self.rows_before(g) + rem <= usize::MAX,
        ensures
            self.cursor_valid(self.cursor_at_from(g, rem)),
            self.flat_of(self.cursor_at_from(g, rem)) == self.rows_before(g) + rem,
        decreases self.num_groups() - g,
    {
        self.lemma_rows_before_mono(g, self.num_groups());
        if g == self.num_groups() {
            // rows_before(g) + rem < total_rows contradicts rem >= 0.
            assert(false);
        } else if rem == 0 {
            self.lemma_rows_before_ge(g);
        } else if rem <= self.group_size(g) {
            self.lemma_rows_before_ge(g);
            assert(self.rows_before(g) >= 0) by {
                self.lemma_rows_before_mono(0, g);
            }
        } else {
            self.lemma_cursor_at_from_inverse(g + 1, rem - 1 - self.group_size(g));
        }
    }

    /// Unflattening a flat index in range gives a valid cursor that flattens
    /// back to the same index.
    pub proof fn lemma_cursor_at_round_trip(&self, f: int)
        requires
            0 <= f < self.total_rows_spec(),
            f <= usize::MAX,
        ensures
            self.cursor_valid(self.cursor_at(f)),
            self.flat_of(self.cursor_at(f)) == f,
    {
        self.lemma_cursor_at_from_inverse(0, f);
    }

    proof fn lemma_cursor_at_from_of_cursor(&self, c: Cursor, g: int)
        requires
            self.cursor_valid(c),
            0 <= g <= c.group_idx as int,
        ensures
            self.cursor_at_from(g, self.flat_of(c) - self.rows_before(g)) == c,
        decreases c.group_idx as int - g,
    {
        let gi = c.group_idx as int;
        if g == gi {
            self.lemma_rows_before_mono(0, g);
        } else {
            // flat_of(c) >= rows_before(g + 1), so this group is passed over.
            self.lemma_rows_before_mono(g + 1, gi);
            self.lemma_cursor_at_from_of_cursor(c, g + 1);
        }
    }

    /// Flattening a valid cursor and unflattening the result gives the same
    /// cursor back.
    pub proof fn lemma_flat_of_round_trip(&self, c: Cursor)
        requires
            self.cursor_valid(c),
        ensures
            self.cursor_at(self.flat_of(c)) == c,
    {
        self.lemma_cursor_at_from_of_cursor(c, 0);
    }

    /// An empty widget: no groups, no defaults, report and clear switched on.
    pub fn new() -> (r: GroupMultiSelect)
        ensures
            r.groups@.len() == 0,
            r.defaults@.len() == 0,
            r.prompt@ == Seq::<char>::empty(),
            r.report == true,
            r.clear == true,
            r.max_length is None,
            r.wf(),
    {
        GroupMultiSelect {
            groups: Vec::new(),
            defaults: Vec::new(),
            prompt: String::new(),
            report: true,
            clear: true,
            max_length: None,
        }
    }

    /// Register a group whose items are all in the `Normal` state.
    pub fn group(self, label: String, items: Vec<String>) -> (r: GroupMultiSelect)
        ensures
            r.groups@.len() == self.groups@.len() + 1,
            forall|k: int| 0 <= k < self.groups@.len() ==> r.groups@[k] == self.groups@[k],
            r.groups@.last().label == label,
            r.groups@.last().items == items,
            r.groups@.last().states@.len() == items@.len(),
            forall|i: int| 0 <= i < items@.len() ==> r.groups@.last().states@[i] is Normal,
            r.defaults == self.defaults,
            r.prompt == self.prompt,
            r.report == self.report,
            r.clear == self.clear,
            r.max_length == self.max_length,
            self.wf() ==> r.wf(),
    {
        let mut s = self;
        s.groups.push(Group::new(label, items));
        s
    }

    /// Register a group from (item, state) pairs.
    pub fn group_with_states(self, label: String, items: Vec<(String, ItemState)>) -> (r:
        GroupMultiSelect)
        ensures
            r.groups@.len() == self.groups@.len() + 1,
            forall|k: int| 0 <= k < self.groups@.len() ==> r.groups@[k] == self.groups@[k],
            r.groups@.last().label == label,
            r.groups@.last().items@.len() == items@.len(),
            r.groups@.last().states@.len() == items@.len(),
            forall|i: int| 0 <= i < items@.len() ==> r.groups@.last().items@[i] == items@[i].0,
            forall|i: int| 0 <= i < items@.len() ==> r.groups@.last().states@[i] == items@[i].1,
            r.defaults == self.defaults,
            r.prompt == self.prompt,
            r.report == self.report,
            r.clear == self.clear,
            r.max_length == self.max_length,
            self.wf() ==> r.wf(),
    {
        let n = items.len();
        let mut texts: Vec<String> = Vec::new();
        let mut states: Vec<ItemState> = Vec::new();
        let mut k: usize = 0;
        while k < n
            invariant
                n == items@.len(),
                k <= n,
                texts@.len() == k as int,
                states@.len() == k as int,
                forall|i: int| 0 <= i < k as int ==> texts@[i] == items@[i].0,
                forall|i: int| 0 <= i < k as int ==> states@[i] == items@[i].1,
            decreases n - k,
        {
            let pair = &items[k];
            texts.push(pair.0.clone());
            states.push(pair.1.duplicate());
            k += 1;
        }
        let mut s = self;
        s.groups.push(Group::with_states(label, texts, states));
        s
    }

    /// Seed the initial checked flags, one list of booleans per group.
    /// A missing or out-of-range entry counts as unchecked.
    pub fn defaults(self, defaults: Vec<Vec<bool>>) -> (r: GroupMultiSelect)
        ensures
            r.defaults == defaults,
            r.groups == self.groups,
            r.prompt == self.prompt,
            r.report == self.report,
            r.clear == self.clear,
            r.max_length == self.max_length,
    {
        let mut s = self;
        s.defaults = defaults;
        s
    }

    /// Set the prompt text shown above the rows.
    pub fn with_prompt(self, prompt: String) -> (r: GroupMultiSelect)
        ensures
            r.prompt == prompt,
            r.groups == self.groups,
            r.defaults == self.defaults,
            r.report == self.report,
            r.clear == self.clear,
            r.max_length == self.max_length,
    {
        let mut s = self;
        s.prompt = prompt;
        s
    }

    /// Choose whether a selection report is produced after committing.
    pub fn report(self, val: bool) -> (r: GroupMultiSelect)
        ensures
            r.report == val,
            r.groups == self.groups,
            r.defaults == self.defaults,
            r.prompt == self.prompt,
            r.clear == self.clear,
            r.max_length == self.max_length,
    {
        let mut s = self;
        s.report = val;
        s
    }

    /// Choose whether the drawn rows are cleared from the terminal at the end.
    pub fn clear(self, val: bool) -> (r: GroupMultiSelect)
        ensures
            r.clear == val,
            r.groups == self.groups,
            r.defaults == self.defaults,
            r.prompt == self.prompt,
            r.report == self.report,
            r.max_length == self.max_length,
    {
        let mut s = self;
        s.clear = val;
        s
    }

    /// Cap the number of visible rows regardless of the terminal's height.
    pub fn max_length(self, val: usize) -> (r: GroupMultiSelect)
        ensures
            r.max_length == Some(val),
            r.groups == self.groups,
            r.defaults == self.defaults,
            r.prompt == self.prompt,
            r.report == self.report,
            r.clear == self.clear,
    {
        let mut s = self;
        s.max_length = Some(val);
        s
    }

    /// The length of the flat row sequence: one header row per group plus
    /// one row per item.
    pub fn total_rows(&self) -> (n: usize)
        requires
            self.total_rows_spec() <= usize::MAX,
        ensures
            n as int == self.total_rows_spec(),
    {
        let mut n: usize = 0;
        let mut g: usize = 0;
        while g < self.groups.len()
            invariant
                (g as int) <= self.num_groups(),
                n as int == self.rows_before(g as int),
                self.total_rows_spec() <= usize::MAX,
            decreases self.num_groups() - g as int,
        {
            proof {
                self.lemma_rows_before_mono(g as int + 1, self.num_groups());
            }
            n = n + 1 + self.groups[g].items.len();
            g += 1;
        }
        n
    }

    /// Flatten a cursor into its flat row index.
    pub fn cursor_to_flat(&self, cursor: Cursor) -> (flat: usize)
        requires
            self.cursor_valid(cursor),
            self.total_rows_spec() <= usize::MAX,
        ensures
            flat as int == self.flat_of(cursor),
            (flat as int) < self.total_rows_spec(),
    {
        proof {
            self.lemma_flat_of_in_range(cursor);
        }
        let mut flat: usize = 0;
        let mut g: usize = 0;
        while g < cursor.group_idx
            invariant
                g <= cursor.group_idx,
                self.cursor_valid(cursor),
                flat as int == self.rows_before(g as int),
                self.total_rows_spec() <= usize::MAX,
            decreases cursor.group_idx - g,
        {
            proof {
                self.lemma_rows_before_mono(g as int + 1, self.num_groups());
            }
            flat = flat + 1 + self.groups[g].items.len();
            g += 1;
        }
        match cursor.item_idx {
            None => flat,
            Some(i) => {
                proof {
                    self.lemma_flat_of_in_range(cursor);
                }
                flat + 1 + i
            },
        }
    }

    /// Unflatten a flat row index into a cursor; an out-of-range index falls
    /// back to the first group's header.
    pub fn flat_to_cursor(&self, flat_idx: usize) -> (c: Cursor)
        ensures
            c == self.cursor_at(flat_idx as int),
            flat_idx < self.total_rows_spec() ==> self.cursor_valid(c) && self.flat_of(c)
                == flat_idx,
    {
        proof {
            if (flat_idx as int) < self.total_rows_spec() {
                self.lemma_cursor_at_round_trip(flat_idx as int);
            }
        }
        let mut remaining: usize = flat_idx;
        let mut g: usize = 0;
        while g < self.groups.len()
            invariant
                (g as int) <= self.num_groups(),
                self.cursor_at(flat_idx as int) == self.cursor_at_from(g as int, remaining as int),
                (flat_idx as int) < self.total_rows_spec() ==> self.cursor_valid(
                    self.cursor_at(flat_idx as int),
                ) && self.flat_of(self.cursor_at(flat_idx as int)) == flat_idx,
            decreases self.num_groups() - g as int,
        {
            if remaining == 0 {
                return Cursor { group_idx: g, item_idx: None };
            }
            if remaining - 1 < self.groups[g].items.len() {
                return Cursor { group_idx: g, item_idx: Some(remaining - 1) };
            }
            remaining = remaining - 1 - self.groups[g].items.len();
            g += 1;
        }
        Cursor { group_idx: 0, item_idx: None }
    }

    /// Whether the cursor rests on a disabled item row.
    pub fn is_item_disabled(&self, cursor: Cursor) -> (r: bool)
        requires
            (cursor.group_idx as int) < self.num_groups(),
        ensures
            r == self.cursor_disabled(cursor),
    {
        match cursor.item_idx {
            None => false,
            Some(item_idx) => {
                let grp = &self.groups[cursor.group_idx];
                if item_idx < grp.states.len() {
                    match &grp.states[item_idx] {
                        ItemState::Disabled { .. } => true,
                        _ => false,
                    }
                } else {
                    false
                }
            },
        }
    }

    /// What a downward move leaves behind: either the first non-disabled row
    /// after the cursor, or, when only disabled rows remain below it, the
    /// cursor unchanged.
    pub open spec fn move_down_post(&self, c: Cursor, r: Cursor) -> bool {
        let f = self.flat_of(c);
        ||| (r == c && forall|h: int| f < h < self.total_rows_spec() ==> self.row_disabled(h))
        ||| {
            &&& self.cursor_valid(r)
            &&& f < self.flat_of(r) < self.total_rows_spec()
            &&& !self.cursor_disabled(r)
            &&& forall|h: int| f < h < self.flat_of(r) ==> self.row_disabled(h)
        }
    }

    /// What an upward move leaves behind, symmetrically.
    pub open spec fn move_up_post(&self, c: Cursor, r: Cursor) -> bool {
        let f = self.flat_of(c);
        ||| (r == c && forall|h: int| 0 <= h < f ==> self.row_disabled(h))
        ||| {
            &&& self.cursor_valid(r)
            &&& 0 <= self.flat_of(r) < f
            &&& !self.cursor_disabled(r)
            &&& forall|h: int| self.flat_of(r) < h < f ==> self.row_disabled(h)
        }
    }

    /// Move the cursor to the next non-disabled row below it; a move past the
    /// last such row leaves the cursor unchanged.
    pub fn move_cursor_down(&self, cursor: Cursor) -> (r: Cursor)
        requires
            self.cursor_valid(cursor),
            self.total_rows_spec() <= usize::MAX,
        ensures
            self.move_down_post(cursor, r),
    {
        let total = self.total_rows();
        let mut flat = self.cursor_to_flat(cursor);
        loop
            invariant
                self.cursor_valid(cursor),
                self.total_rows_spec() <= usize::MAX,
                total as int == self.total_rows_spec(),
                self.flat_of(cursor) <= flat as int,
                (flat as int) < total as int,
                forall|h: int| self.flat_of(cursor) < h <= flat as int ==> self.row_disabled(h),
            decreases total - flat,
        {
            if flat + 1 >= total {
                return cursor;
            }
            flat += 1;
            let new_cursor = self.flat_to_cursor(flat);
            if !self.is_item_disabled(new_cursor) {
                return new_cursor;
            }
        }
    }

    /// Move the cursor to the nearest non-disabled row above it; a move past
    /// the first such row leaves the cursor unchanged.
    pub fn move_cursor_up(&self, cursor: Cursor) -> (r: Cursor)
        requires
            self.cursor_valid(cursor),
            self.total_rows_spec() <= usize::MAX,
        ensures
            self.move_up_post(cursor, r),
    {
        let mut flat = self.cursor_to_flat(cursor);
        loop
            invariant
                self.cursor_valid(cursor),
                self.total_rows_spec() <= usize::MAX,
                0 <= flat as int,
                (flat as int) <= self.flat_of(cursor),
                (flat as int) < self.total_rows_spec(),
                forall|h: int| (flat as int) <= h < self.flat_of(cursor) ==> self.row_disabled(h),
            decreases flat,
        {
            if flat == 0 {
                return cursor;
            }
            flat -= 1;
            let new_cursor = self.flat_to_cursor(flat);
            if !self.is_item_disabled(new_cursor) {
                return new_cursor;
            }
        }
    }

    /// The checked flags mirror the group shapes: one list per group, one
    /// flag per item.
    pub open spec fn checked_wf(&self, checked: Seq<Seq<bool>>) -> bool {
        &&& checked.len() == self.num_groups()
        &&& forall|g: int|
            0 <= g < checked.len() ==> (#[trigger] checked[g]).len() == self.group_size(g)
    }

    /// Every non-disabled item of group `g` is checked in `row`.
    pub open spec fn row_all_selected(&self, g: int, row: Seq<bool>) -> bool {
        forall|i: int| 0 <= i < row.len() && !self.item_disabled(g, i) ==> #[trigger] row[i]
    }

    /// The row with every non-disabled entry set to `b`; disabled entries
    /// keep their value.
    pub open spec fn set_row(&self, g: int, row: Seq<bool>, b: bool) -> Seq<bool> {
        Seq::new(row.len(), |i: int| if self.item_disabled(g, i) { row[i] } else { b })
    }

    /// The effect of toggling group `g`'s header on that group's row: a bulk
    /// switch over the non-disabled items, and a no-op on an empty group.
    pub open spec fn toggle_header_row(&self, g: int, row: Seq<bool>) -> Seq<bool> {
        if row.len() == 0 {
            row
        } else {
            self.set_row(g, row, !self.row_all_selected(g, row))
        }
    }

    /// The effect of one toggle at cursor `c` on the checked flags.
    pub open spec fn toggle_spec(&self, checked: Seq<Seq<bool>>, c: Cursor) -> Seq<Seq<bool>> {
        let g = c.group_idx as int;
        match c.item_idx {
            Option::None => checked.update(g, self.toggle_header_row(g, checked[g])),
            Option::Some(i) => if self.item_disabled(g, i as int) {
                checked
            } else {
                checked.update(g, checked[g].update(i as int, !checked[g][i as int]))
            },
        }
    }

    /// Every non-disabled item of the whole widget is checked.
    pub open spec fn all_selected_everywhere(&self, checked: Seq<Seq<bool>>) -> bool {
        forall|g: int| 0 <= g < checked.len() ==> self.row_all_selected(g, #[trigger] checked[g])
    }

    /// The effect of the select-all action: if every non-disabled item is
    /// already checked, uncheck them all, else check them all; disabled items
    /// keep their value either way.
    pub open spec fn select_all_spec(&self, checked: Seq<Seq<bool>>) -> Seq<Seq<bool>> {
        let b = !self.all_selected_everywhere(checked);
        Seq::new(checked.len(), |g: int| self.set_row(g, checked[g], b))
    }

    fn state_disabled_at(&self, g: usize, i: usize) -> (r: bool)
        requires
            self.wf(),
            (g as int) < self.num_groups(),
            (i as int) < self.group_size(g as int),
        ensures
            r == self.item_disabled(g as int, i as int),
    {
        match &self.groups[g].states[i] {
            ItemState::Disabled { .. } => true,
            _ => false,
        }
    }

    fn row_all_selected_exec(&self, checked: &Vec<Vec<bool>>, g: usize) -> (r: bool)
        requires
            self.wf(),
            self.checked_wf(nested_view(*checked)),
            (g as int) < self.num_groups(),
        ensures
            r == self.row_all_selected(g as int, checked@[g as int]@),
    {
        proof {
            assert(nested_view(*checked)[g as int] == checked@[g as int]@);
        }
        let len = checked[g].len();
        let mut all_sel = true;
        let mut i: usize = 0;
        while i < len
            invariant
                self.wf(),
                self.checked_wf(nested_view(*checked)),
                (g as int) < self.num_groups(),
                len as int == checked@[g as int]@.len(),
                len as int == self.group_size(g as int),
                i <= len,
                all_sel == (forall|j: int|
                    0 <= j < i as int && !self.item_disabled(g as int, j)
                        ==> #[trigger] checked@[g as int]@[j]),
            decreases len - i,
        {
            let dis = self.state_disabled_at(g, i);
            if !dis && !checked[g][i] {
                all_sel = false;
            }
            i += 1;
        }
        all_sel
    }

    fn set_row_exec(&self, checked: &mut Vec<Vec<bool>>, g: usize, b: bool)
        requires
            self.wf(),
            self.checked_wf(nested_view(*old(checked))),
            (g as int) < self.num_groups(),
        ensures
            nested_view(*final(checked)) == nested_view(*old(checked)).update(
                g as int,
                self.set_row(g as int, nested_view(*old(checked))[g as int], b),
            ),
            self.checked_wf(nested_view(*final(checked))),
    {
        proof {
            assert(nested_view(*old(checked))[g as int] == checked@[g as int]@);
        }
        let len = checked[g].len();
        let mut i: usize = 0;
        while i < len
            invariant
                self.wf(),
                (g as int) < self.num_groups(),
                i <= len,
                checked@.len() == old(checked)@.len(),
                old(checked)@.len() == self.num_groups(),
                forall|g2: int|
                    0 <= g2 < checked@.len() && g2 != g as int ==> checked@[g2] == old(checked)@[g2],
                checked@[g as int]@.len() == old(checked)@[g as int]@.len(),
                len as int == old(checked)@[g as int]@.len(),
                len as int == self.group_size(g as int),
                forall|j: int|
                    0 <= j < i as int ==> #[trigger] checked@[g as int]@[j] == (if self.item_disabled(
                        g as int,
                        j,
                    ) {
                        old(checked)@[g as int]@[j]
                    } else {
                        b
                    }),
                forall|j: int|
                    i as int <= j < len as int ==> #[trigger] checked@[g as int]@[j] == old(
                        checked,
                    )@[g as int]@[j],
            decreases len - i,
        {
            let dis = self.state_disabled_at(g, i);
            if !dis {
                checked[g][i] = b;
            }
            i += 1;
        }
        proof {
            assert(nested_view(*checked) =~~= nested_view(*old(checked)).update(
                g as int,
                self.set_row(g as int, nested_view(*old(checked))[g as int], b),
            ));
        }
    }

    /// Apply one toggle at the cursor: on a header row, a bulk switch over
    /// the group's non-disabled items (no-op on an empty group); on an item
    /// row, flip that item's flag unless the item is disabled.
    pub fn toggle(&self, checked: &mut Vec<Vec<bool>>, cursor: Cursor)
        requires
            self.wf(),
            self.cursor_valid(cursor),
            self.checked_wf(nested_view(*old(checked))),
        ensures
            nested_view(*final(checked)) == self.toggle_spec(
                nested_view(*old(checked)),
                cursor,
            ),
            self.checked_wf(nested_view(*final(checked))),
    {
        let g = cursor.group_idx;
        match cursor.item_idx {
            None => {
                let len = checked[g].len();
                if len == 0 {
                    proof {
                        assert(nested_view(*checked) =~~= self.toggle_spec(
                            nested_view(*old(checked)),
                            cursor,
                        ));
                    }
                    return;
                }
                let all_sel = self.row_all_selected_exec(checked, g);
                self.set_row_exec(checked, g, !all_sel);
                proof {
                    assert(nested_view(*checked) =~~= self.toggle_spec(
                        nested_view(*old(checked)),
                        cursor,
                    ));
                }
            },
            Some(i) => {
                proof {
                    assert(nested_view(*checked)[g as int].len() == self.group_size(g as int));
                    assert(checked@[g as int]@.len() == self.group_size(g as int));
                }
                let dis = self.state_disabled_at(g, i);
                if !dis {
                    let cur = checked[g][i];
                    checked[g][i] = !cur;
                }
                proof {
                    assert(nested_view(*checked) =~~= self.toggle_spec(
                        nested_view(*old(checked)),
                        cursor,
                    ));
                }
            },
        }
    }

    /// The select-all action: if every non-disabled item across the whole
    /// widget is checked, uncheck all of them, else check all of them.
    /// Disabled items are never changed.
    pub fn select_all(&self, checked: &mut Vec<Vec<bool>>)
        requires
            self.wf(),
            self.checked_wf(nested_view(*old(checked))),
        ensures
            nested_view(*final(checked)) == self.select_all_spec(nested_view(*old(checked))),
            self.checked_wf(nested_view(*final(checked))),
    {
        let n = self.groups.len();
        let mut all_sel = true;
        let mut g: usize = 0;
        while g < n
            invariant
                self.wf(),
                self.checked_wf(nested_view(*checked)),
                *checked == *old(checked),
                n as int == self.num_groups(),
                g <= n,
                all_sel == (forall|g2: int|
                    0 <= g2 < g as int ==> self.row_all_selected(
                        g2,
                        #[trigger] nested_view(*checked)[g2],
                    )),
            decreases n - g,
        {
            let row_sel = self.row_all_selected_exec(checked, g);
            proof {
                assert(nested_view(*checked)[g as int] == checked@[g as int]@);
            }
            if !row_sel {
                all_sel = false;
            }
            g += 1;
        }
        let b = !all_sel;
        let ghost orig = nested_view(*checked);
        let mut g: usize = 0;
        while g < n
            invariant
                self.wf(),
                orig == nested_view(*old(checked)),
                self.checked_wf(orig),
                n as int == self.num_groups(),
                g <= n,
                b == !self.all_selected_everywhere(orig),
                checked@.len() == n as int,
                forall|g2: int|
                    0 <= g2 < g as int ==> #[trigger] nested_view(*checked)[g2] == self.set_row(
                        g2,
                        orig[g2],
                        b,
                    ),
                forall|g2: int|
                    g as int <= g2 < n as int ==> #[trigger] nested_view(*checked)[g2] == orig[g2],
            decreases n - g,
        {
            proof {
                assert(nested_view(*checked)[g as int] == orig[g as int]);
                assert(self.checked_wf(nested_view(*checked))) by {
                    assert(forall|g2: int|
                        0 <= g2 < n as int ==> (#[trigger] nested_view(*checked)[g2]).len()
                            == orig[g2].len());
                }
            }
            self.set_row_exec(checked, g, b);
            g += 1;
        }
        proof {
            assert(nested_view(*checked) =~~= self.select_all_spec(nested_view(*old(checked))));
        }
    }

    /// The tri-state summary of one group's checked flags: `NoneSelected` if
    /// the row is empty or nothing is checked, `All` if everything is
    /// checked, `Partial` otherwise.
    pub open spec fn group_state_spec(row: Seq<bool>) -> GroupState {
        if forall|i: int| 0 <= i < row.len() ==> !(#[trigger] row[i]) {
            GroupState::NoneSelected
        } else if forall|i: int| 0 <= i < row.len() ==> #[trigger] row[i] {
            GroupState::All
        } else {
            GroupState::Partial
        }
    }

    /// Classify one group's checked flags into its tri-state summary.
    pub fn group_state(checked: &Vec<bool>) -> (r: GroupState)
        ensures
            r == Self::group_state_spec(checked@),
    {
        let mut any_sel = false;
        let mut all_sel = true;
        let mut i: usize = 0;
        while i < checked.len()
            invariant
                i as int <= checked@.len(),
                any_sel == !(forall|j: int| 0 <= j < i as int ==> !(#[trigger] checked@[j])),
                all_sel == (forall|j: int| 0 <= j < i as int ==> #[trigger] checked@[j]),
            decreases checked@.len() - i as int,
        {
            if checked[i] {
                any_sel = true;
            } else {
                all_sel = false;
            }
            i += 1;
        }
        if !any_sel {
            GroupState::NoneSelected
        } else if all_sel {
            GroupState::All
        } else {
            GroupState::Partial
        }
    }

    /// Where the visible window starts after a cursor move: `0` when
    /// everything fits, otherwise the old offset, moved just far enough to
    /// keep the cursor's row inside the window.
    pub open spec fn adjust_offset_spec(flat: int, current: int, capacity: int, total: int) -> int {
        if capacity >= total {
            0
        } else if flat < current {
            flat
        } else if flat >= current + capacity {
            flat - capacity + 1
        } else {
            current
        }
    }

    /// Recompute the scroll offset so the cursor's row stays visible.
    pub fn adjust_page_offset(&self, cursor: Cursor, current_offset: usize, capacity: usize) -> (r:
        usize)
        requires
            self.cursor_valid(cursor),
            self.total_rows_spec() <= usize::MAX,
        ensures
            r as int == Self::adjust_offset_spec(
                self.flat_of(cursor),
                current_offset as int,
                capacity as int,
                self.total_rows_spec(),
            ),
            capacity >= 1 && self.total_rows_spec() > 0 ==> (r as int) < self.total_rows_spec(),
    {
        let flat = self.cursor_to_flat(cursor);
        let total = self.total_rows();
        if capacity >= total {
            0
        } else if flat < current_offset {
            flat
        } else if flat - current_offset >= capacity {
            flat - capacity + 1
        } else {
            current_offset
        }
    }
}

} // verus!
