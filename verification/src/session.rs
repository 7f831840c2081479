//! One interactive session: its mutable state, the key-event state machine
//! that drives it, and the plain data handed to the caller's renderer.

use vstd::prelude::*;

use crate::model::nested_view;
use crate::model::Cursor;
use crate::model::GroupState;
use crate::model::ItemState;
use crate::model::KeyEvent;
use crate::widget::GroupMultiSelect;

verus! {

/// The mutable state of one running session.
pub struct SessionState {
    pub checked: Vec<Vec<bool>>,
    pub cursor: Cursor,
    pub page_offset: usize,
}

/// How a session begins.
pub enum SessionStart {
    /// No groups were registered: a configuration error.
    NoGroups,
    /// Every group is empty, so nothing is selectable: the result is final
    /// at once, one empty list per group.
    Immediate(Vec<Vec<usize>>),
    /// There are rows to walk: run the interactive loop over this state.
    Active(SessionState),
}

/// What one key press led to.
pub enum StepAction {
    /// The session goes on: redraw and read the next key.
    Continue,
    /// Enter committed the selection; these are the selected indices,
    /// ascending, one list per group.
    Committed(Vec<Vec<usize>>),
    /// Escape or `q` cancelled the session.
    Cancelled,
}

/// One visible row, described by the semantic facts a renderer needs.  The
/// strings are copies of the widget's own labels and texts.
#[derive(Debug, Clone, PartialEq, Eq)]
pub enum RenderRow {
    Header { label: String, state: GroupState, active: bool },
    Item { text: String, checked: bool, active: bool },
    DisabledItem { text: String, reason: String, active: bool },
    WarningItem { text: String, message: String, checked: bool, active: bool },
}

/// Everything one redraw needs: the page numbers, when the rows overflow the
/// window, and the visible rows in order.
pub struct RenderFrame {
    pub paging: Option<(usize, usize)>,
    pub rows: Vec<RenderRow>,
}

impl GroupMultiSelect {
    /// The initial checked flags: the caller's default where present and in
    /// range, `false` everywhere else.
    pub open spec fn seeded_checked(&self) -> Seq<Seq<bool>> {
        Seq::new(
            self.num_groups() as nat,
            |g: int|
                Seq::new(
                    self.group_size(g) as nat,
                    |i: int|
                        g < self.defaults@.len() && i < self.defaults@[g]@.len()
                            && self.defaults@[g]@[i],
                ),
        )
    }

    /// Build the initial checked flags from the registered defaults.
    pub fn init_checked(&self) -> (checked: Vec<Vec<bool>>)
        ensures
            nested_view(checked) == self.seeded_checked(),
            self.checked_wf(nested_view(checked)),
    {
        let mut checked: Vec<Vec<bool>> = Vec::new();
        let mut g: usize = 0;
        while g < self.groups.len()
            invariant
                (g as int) <= self.num_groups(),
                checked@.len() == g as int,
                forall|g2: int|
                    0 <= g2 < g as int ==> #[trigger] checked@[g2]@ == self.seeded_checked()[g2],
            decreases self.num_groups() - g as int,
        {
            let size = self.groups[g].items.len();
            let mut row: Vec<bool> = Vec::new();
            let mut i: usize = 0;
            while i < size
                invariant
                    (g as int) < self.num_groups(),
                    size as int == self.group_size(g as int),
                    i <= size,
                    row@.len() == i as int,
                    forall|j: int|
                        0 <= j < i as int ==> #[trigger] row@[j] == ((g as int)
                            < self.defaults@.len() && j < self.defaults@[g as int]@.len()
                            && self.defaults@[g as int]@[j]),
                decreases size - i,
            {
                let val = if g < self.defaults.len() {
                    let drow = &self.defaults[g];
                    if i < drow.len() {
                        drow[i]
                    } else {
                        false
                    }
                } else {
                    false
                };
                row.push(val);
                i += 1;
            }
            proof {
                assert(row@ =~= self.seeded_checked()[g as int]);
            }
            checked.push(row);
            g += 1;
        }
        proof {
            assert(nested_view(checked) =~= self.seeded_checked());
        }
        checked
    }

    /// The indices of the checked entries among the first `n` of one row,
    /// ascending.
    pub open spec fn selected_indices_prefix(row: Seq<bool>, n: int) -> Seq<usize>
        decreases n,
    {
        if n <= 0 {
            Seq::empty()
        } else {
            Self::selected_indices_prefix(row, n - 1) + if row[n - 1] {
                seq![(n - 1) as usize]
            } else {
                Seq::empty()
            }
        }
    }

    /// The indices of the checked entries of one row, ascending.
    pub open spec fn selected_indices(row: Seq<bool>) -> Seq<usize> {
        Self::selected_indices_prefix(row, row.len() as int)
    }

    /// The committed result: for each group, the indices of its checked
    /// items, ascending.
    pub open spec fn result_spec(checked: Seq<Seq<bool>>) -> Seq<Seq<usize>> {
        Seq::new(checked.len(), |g: int| Self::selected_indices(checked[g]))
    }

    /// Project the checked flags into the per-group lists of selected
    /// indices.  A pure projection: it cannot fail.
    pub fn build_result(&self, checked: &Vec<Vec<bool>>) -> (r: Vec<Vec<usize>>)
        ensures
            nested_view(r) == Self::result_spec(nested_view(*checked)),
    {
        let mut r: Vec<Vec<usize>> = Vec::new();
        let mut g: usize = 0;
        while g < checked.len()
            invariant
                (g as int) <= checked@.len(),
                r@.len() == g as int,
                forall|g2: int|
                    0 <= g2 < g as int ==> #[trigger] r@[g2]@ == Self::selected_indices(
                        checked@[g2]@,
                    ),
            decreases checked@.len() - g as int,
        {
            let row = &checked[g];
            let mut sel: Vec<usize> = Vec::new();
            let mut i: usize = 0;
            while i < row.len()
                invariant
                    i as int <= row@.len(),
                    sel@ == Self::selected_indices_prefix(row@, i as int),
                decreases row@.len() - i as int,
            {
                if row[i] {
                    sel.push(i);
                }
                i += 1;
                proof {
                    assert(sel@ =~= Self::selected_indices_prefix(row@, i as int));
                }
            }
            r.push(sel);
            g += 1;
        }
        proof {
            assert(nested_view(r) =~= Self::result_spec(nested_view(*checked)));
        }
        r
    }

    /// The texts of the checked items among the first `n` of one group,
    /// ascending.
    pub open spec fn selected_texts_prefix(items: Seq<String>, row: Seq<bool>, n: int) -> Seq<
        String,
    >
        decreases n,
    {
        if n <= 0 {
            Seq::empty()
        } else {
            Self::selected_texts_prefix(items, row, n - 1) + if row[n - 1] {
                seq![items[n - 1]]
            } else {
                Seq::empty()
            }
        }
    }

    /// The texts of every checked item of the groups before group `g`, in
    /// group order then item order.
    pub open spec fn report_texts_prefix(&self, checked: Seq<Seq<bool>>, g: int) -> Seq<String>
        decreases g,
    {
        if g <= 0 {
            Seq::empty()
        } else {
            self.report_texts_prefix(checked, g - 1) + Self::selected_texts_prefix(
                self.groups@[g - 1].items@,
                checked[g - 1],
                checked[g - 1].len() as int,
            )
        }
    }

    /// The texts of every checked item, in group order then item order.
    pub open spec fn report_texts(&self, checked: Seq<Seq<bool>>) -> Seq<String> {
        self.report_texts_prefix(checked, self.num_groups())
    }

    /// The selection report: the text of every checked item, in order.
    pub fn render_report(&self, checked: &Vec<Vec<bool>>) -> (texts: Vec<String>)
        requires
            self.wf(),
            self.checked_wf(nested_view(*checked)),
        ensures
            texts@ == self.report_texts(nested_view(*checked)),
    {
        let mut texts: Vec<String> = Vec::new();
        let mut g: usize = 0;
        while g < self.groups.len()
            invariant
                self.wf(),
                self.checked_wf(nested_view(*checked)),
                (g as int) <= self.num_groups(),
                texts@ == self.report_texts_prefix(nested_view(*checked), g as int),
            decreases self.num_groups() - g as int,
        {
            proof {
                assert(nested_view(*checked)[g as int] == checked@[g as int]@);
            }
            let row = &checked[g];
            let items = &self.groups[g].items;
            let len = row.len();
            let ghost base = self.report_texts_prefix(nested_view(*checked), g as int);
            let mut i: usize = 0;
            while i < len
                invariant
                    self.wf(),
                    (g as int) < self.num_groups(),
                    row@ == checked@[g as int]@,
                    items@ == self.groups@[g as int].items@,
                    row@.len() == self.group_size(g as int),
                    len as int == row@.len(),
                    i <= len,
                    texts@ == base + Self::selected_texts_prefix(items@, row@, i as int),
                decreases len - i,
            {
                if row[i] {
                    texts.push(items[i].clone());
                }
                i += 1;
                proof {
                    assert(texts@ =~= base + Self::selected_texts_prefix(items@, row@, i as int));
                }
            }
            g += 1;
            proof {
                assert(texts@ =~= self.report_texts_prefix(nested_view(*checked), g as int));
            }
        }
        texts
    }

    /// How many pages the rows fill at `capacity` rows per page.
    pub open spec fn total_pages_spec(total: int, capacity: int) -> int {
        total / capacity + if total % capacity == 0 {
            0int
        } else {
            1int
        }
    }

    /// The advisory page numbers shown beside the prompt: the window's page
    /// and the page count, present only when the rows overflow the window.
    pub open spec fn paging_spec(&self, offset: int, capacity: int) -> Option<(usize, usize)> {
        if capacity < self.total_rows_spec() {
            Some(
                (
                    ((offset / capacity) + 1) as usize,
                    Self::total_pages_spec(self.total_rows_spec(), capacity) as usize,
                ),
            )
        } else {
            None
        }
    }

    /// The flat index one past the last visible row.
    pub open spec fn visible_end_spec(&self, offset: int, capacity: int) -> int {
        if offset + capacity <= self.total_rows_spec() {
            offset + capacity
        } else {
            self.total_rows_spec()
        }
    }

    /// What the row at flat index `f` shows: the label and tri-state summary
    /// for a header, or the text, checked flag and state for an item, each
    /// with whether the cursor is on that row.
    pub open spec fn render_row_spec(&self, checked: Seq<Seq<bool>>, cursor: Cursor, f: int) -> RenderRow {
        let pos = self.cursor_at(f);
        let g = pos.group_idx as int;
        let active = pos == cursor;
        match pos.item_idx {
            Option::None => RenderRow::Header {
                label: self.groups@[g].label,
                state: Self::group_state_spec(checked[g]),
                active,
            },
            Option::Some(i) => match self.groups@[g].states@[i as int] {
                ItemState::Normal => RenderRow::Item {
                    text: self.groups@[g].items@[i as int],
                    checked: checked[g][i as int],
                    active,
                },
                ItemState::Disabled { reason } => RenderRow::DisabledItem {
                    text: self.groups@[g].items@[i as int],
                    reason,
                    active,
                },
                ItemState::Warning { message } => RenderRow::WarningItem {
                    text: self.groups@[g].items@[i as int],
                    message,
                    checked: checked[g][i as int],
                    active,
                },
            },
        }
    }

    /// Compute one frame: the page numbers and, for each visible row, the
    /// facts a renderer needs to draw it.
    pub fn render(
        &self,
        checked: &Vec<Vec<bool>>,
        cursor: Cursor,
        page_offset: usize,
        capacity: usize,
    ) -> (frame: RenderFrame)
        requires
            self.wf(),
            self.checked_wf(nested_view(*checked)),
            self.total_rows_spec() <= usize::MAX,
            page_offset as int <= self.total_rows_spec(),
            self.total_rows_spec() > 0 ==> (page_offset as int) < self.total_rows_spec(),
            capacity >= 1 || self.total_rows_spec() == 0,
        ensures
            frame.paging == self.paging_spec(page_offset as int, capacity as int),
            frame.rows@.len() == self.visible_end_spec(page_offset as int, capacity as int)
                - page_offset,
            forall|k: int|
                0 <= k < frame.rows@.len() ==> frame.rows@[k] == self.render_row_spec(
                    nested_view(*checked),
                    cursor,
                    page_offset + k,
                ),
    {
        let total = self.total_rows();
        let paging: Option<(usize, usize)> = if capacity < total {
            proof {
                assert((page_offset as int) / (capacity as int) <= page_offset as int)
                    by (nonlinear_arith)
                    requires
                        (capacity as int) >= 1,
                        (page_offset as int) >= 0,
                ;
                assert((total as int) / (capacity as int) + (if (total as int) % (capacity as int)
                    == 0 {
                    0int
                } else {
                    1int
                }) <= total as int) by (nonlinear_arith)
                    requires
                        (capacity as int) >= 1,
                        (total as int) >= 1,
                ;
            }
            let rem = total % capacity;
            let total_pages = total / capacity + if rem == 0 {
                0
            } else {
                1
            };
            let current_page = page_offset / capacity + 1;
            Some((current_page, total_pages))
        } else {
            None
        };
        let end = if capacity >= total - page_offset {
            total
        } else {
            page_offset + capacity
        };
        let mut rows: Vec<RenderRow> = Vec::new();
        let mut flat = page_offset;
        while flat < end
            invariant
                self.wf(),
                self.checked_wf(nested_view(*checked)),
                self.total_rows_spec() <= usize::MAX,
                page_offset <= flat,
                flat <= end,
                end as int == self.visible_end_spec(page_offset as int, capacity as int),
                end as int <= self.total_rows_spec(),
                rows@.len() == flat - page_offset,
                forall|k: int|
                    0 <= k < rows@.len() ==> rows@[k] == self.render_row_spec(
                        nested_view(*checked),
                        cursor,
                        page_offset + k,
                    ),
            decreases end - flat,
        {
            let pos = self.flat_to_cursor(flat);
            let active = pos.group_idx == cursor.group_idx && match (pos.item_idx, cursor.item_idx) {
                (None, None) => true,
                (Some(a), Some(b)) => a == b,
                _ => false,
            };
            proof {
                assert(active == (pos == cursor));
                assert(nested_view(*checked)[pos.group_idx as int] == checked@[pos.group_idx as int]@);
            }
            let grp = &self.groups[pos.group_idx];
            let row = match pos.item_idx {
                None => {
                    let state = Self::group_state(&checked[pos.group_idx]);
                    RenderRow::Header { label: grp.label.clone(), state, active }
                },
                Some(i) => {
                    let text = grp.items[i].clone();
                    let is_checked = checked[pos.group_idx][i];
                    match &grp.states[i] {
                        ItemState::Normal => RenderRow::Item { text, checked: is_checked, active },
                        ItemState::Disabled { reason } => RenderRow::DisabledItem {
                            text,
                            reason: reason.clone(),
                            active,
                        },
                        ItemState::Warning { message } => RenderRow::WarningItem {
                            text,
                            message: message.clone(),
                            checked: is_checked,
                            active,
                        },
                    }
                },
            };
            proof {
                assert(row == self.render_row_spec(nested_view(*checked), cursor, flat as int));
            }
            rows.push(row);
            flat += 1;
        }
        RenderFrame { paging, rows }
    }

    /// Whether every registered group has zero items.
    pub open spec fn all_groups_empty(&self) -> bool {
        forall|g: int| 0 <= g < self.num_groups() ==> self.group_size(g) == 0
    }

    /// Start one session.  A widget with no groups is a configuration error;
    /// one where nothing is selectable finishes at once with one empty list
    /// per group, needing no key input; otherwise the session state starts
    /// with the seeded checked flags, the cursor on the first group's header,
    /// and the window at the top.
    pub fn begin(&self) -> (r: SessionStart)
        requires
            self.wf(),
            self.total_rows_spec() <= usize::MAX,
        ensures
            (r is NoGroups) <==> self.num_groups() == 0,
            self.num_groups() > 0 && self.all_groups_empty() ==> (r matches SessionStart::Immediate(
                v,
            ) && v@.len() == self.num_groups() && (forall|g: int|
                0 <= g < v@.len() ==> (#[trigger] v@[g]@).len() == 0)),
            self.num_groups() > 0 && !self.all_groups_empty() ==> (r matches SessionStart::Active(
                st,
            ) && nested_view(st.checked) == self.seeded_checked() && self.checked_wf(
                nested_view(st.checked),
            ) && st.cursor == (Cursor { group_idx: 0, item_idx: None }) && self.cursor_valid(
                st.cursor,
            ) && st.page_offset == 0),
    {
        let n = self.groups.len();
        if n == 0 {
            return SessionStart::NoGroups;
        }
        let mut all_empty = true;
        let mut g: usize = 0;
        while g < n
            invariant
                n as int == self.num_groups(),
                g <= n,
                all_empty == (forall|g2: int|
                    #![trigger self.group_size(g2)]
                    0 <= g2 < g as int ==> self.group_size(g2) == 0),
            decreases n - g,
        {
            let sz = self.groups[g].items.len();
            if sz > 0 {
                all_empty = false;
            }
            g += 1;
            proof {
                if sz > 0 {
                    assert(self.group_size(g as int - 1) != 0);
                    assert(!(forall|g2: int|
                        #![trigger self.group_size(g2)]
                        0 <= g2 < g as int ==> self.group_size(g2) == 0));
                }
            }
        }
        if all_empty {
            let mut v: Vec<Vec<usize>> = Vec::new();
            let mut g: usize = 0;
            while g < n
                invariant
                    g <= n,
                    v@.len() == g as int,
                    forall|g2: int| 0 <= g2 < g as int ==> (#[trigger] v@[g2]@).len() == 0,
                decreases n - g,
            {
                v.push(Vec::new());
                g += 1;
            }
            return SessionStart::Immediate(v);
        }
        SessionStart::Active(
            SessionState {
                checked: self.init_checked(),
                cursor: Cursor { group_idx: 0, item_idx: None },
                page_offset: 0,
            },
        )
    }

    /// Whether a key does nothing in the current configuration.
    pub open spec fn key_noop(key: KeyEvent, allow_quit: bool) -> bool {
        match key {
            KeyEvent::ArrowUp | KeyEvent::ArrowDown | KeyEvent::Enter => false,
            KeyEvent::Escape => !allow_quit,
            KeyEvent::Char(c) => !(c == 'j' || c == 'k' || c == ' ' || c == 'a' || (c == 'q'
                && allow_quit)),
            KeyEvent::Other => true,
        }
    }

    /// Drive the session one key press forward: arrows (or `j`/`k`) move the
    /// cursor and re-aim the window, space toggles at the cursor, `a` is the
    /// global select-all, Enter commits the selection, Escape or `q` cancels
    /// when cancellation is allowed, and every other key is a no-op.
    pub fn step(&self, st: &mut SessionState, key: KeyEvent, capacity: usize, allow_quit: bool) -> (r: StepAction)
        requires
            self.wf(),
            self.total_rows_spec() <= usize::MAX,
            self.cursor_valid(old(st).cursor),
            self.checked_wf(nested_view(old(st).checked)),
        ensures
            self.cursor_valid(final(st).cursor),
            self.checked_wf(nested_view(final(st).checked)),
            (key == KeyEvent::ArrowDown || key == KeyEvent::Char('j')) ==> {
                &&& self.move_down_post(old(st).cursor, final(st).cursor)
                &&& final(st).page_offset as int == Self::adjust_offset_spec(
                    self.flat_of(final(st).cursor),
                    old(st).page_offset as int,
                    capacity as int,
                    self.total_rows_spec(),
                )
                &&& final(st).checked == old(st).checked
                &&& r is Continue
            },
            (key == KeyEvent::ArrowUp || key == KeyEvent::Char('k')) ==> {
                &&& self.move_up_post(old(st).cursor, final(st).cursor)
                &&& final(st).page_offset as int == Self::adjust_offset_spec(
                    self.flat_of(final(st).cursor),
                    old(st).page_offset as int,
                    capacity as int,
                    self.total_rows_spec(),
                )
                &&& final(st).checked == old(st).checked
                &&& r is Continue
            },
            key == KeyEvent::Char(' ') ==> {
                &&& nested_view(final(st).checked) == self.toggle_spec(
                    nested_view(old(st).checked),
                    old(st).cursor,
                )
                &&& final(st).cursor == old(st).cursor
                &&& final(st).page_offset == old(st).page_offset
                &&& r is Continue
            },
            key == KeyEvent::Char('a') ==> {
                &&& nested_view(final(st).checked) == self.select_all_spec(
                    nested_view(old(st).checked),
                )
                &&& final(st).cursor == old(st).cursor
                &&& final(st).page_offset == old(st).page_offset
                &&& r is Continue
            },
            key == KeyEvent::Enter ==> (r matches StepAction::Committed(v) && nested_view(v)
                == Self::result_spec(nested_view(old(st).checked)) && *final(st) == *old(st)),
            ((key == KeyEvent::Escape || key == KeyEvent::Char('q')) && allow_quit) ==> (r
                is Cancelled && *final(st) == *old(st)),
            Self::key_noop(key, allow_quit) ==> (r is Continue && *final(st) == *old(st)),
            capacity >= 1 && self.total_rows_spec() > 0 && (old(st).page_offset as int)
                < self.total_rows_spec() ==> (final(st).page_offset as int)
                < self.total_rows_spec(),
    {
        match key {
            KeyEvent::ArrowDown => {
                st.cursor = self.move_cursor_down(st.cursor);
                st.page_offset = self.adjust_page_offset(st.cursor, st.page_offset, capacity);
                StepAction::Continue
            },
            KeyEvent::ArrowUp => {
                st.cursor = self.move_cursor_up(st.cursor);
                st.page_offset = self.adjust_page_offset(st.cursor, st.page_offset, capacity);
                StepAction::Continue
            },
            KeyEvent::Enter => {
                let v = self.build_result(&st.checked);
                StepAction::Committed(v)
            },
            KeyEvent::Escape => {
                if allow_quit {
                    StepAction::Cancelled
                } else {
                    StepAction::Continue
                }
            },
            KeyEvent::Char(c) => {
                if c == 'j' {
                    st.cursor = self.move_cursor_down(st.cursor);
                    st.page_offset = self.adjust_page_offset(st.cursor, st.page_offset, capacity);
                    StepAction::Continue
                } else if c == 'k' {
                    st.cursor = self.move_cursor_up(st.cursor);
                    st.page_offset = self.adjust_page_offset(st.cursor, st.page_offset, capacity);
                    StepAction::Continue
                } else if c == ' ' {
                    self.toggle(&mut st.checked, st.cursor);
                    StepAction::Continue
                } else if c == 'a' {
                    self.select_all(&mut st.checked);
                    StepAction::Continue
                } else if c == 'q' && allow_quit {
                    StepAction::Cancelled
                } else {
                    StepAction::Continue
                }
            },
            KeyEvent::Other => StepAction::Continue,
        }
    }
}

} // verus!
