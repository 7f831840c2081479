//! General laws of the widget, stated over the specification functions that
//! the executable methods' contracts use, and proved once and for all.
//!
//! The flatten/unflatten bijection has its own lemmas beside the coordinate
//! engine: [`GroupMultiSelect::lemma_cursor_at_round_trip`] and
//! [`GroupMultiSelect::lemma_flat_of_round_trip`].

use vstd::prelude::*;

use crate::model::Cursor;
use crate::widget::GroupMultiSelect;

verus! {

/// Toggling a group's header twice restores the row, provided the
/// non-disabled entries all agree beforehand.  (After one header toggle they
/// always do; a row with disagreeing entries is first driven to all-checked,
/// and from there to all-unchecked, not back.)
pub proof fn lemma_group_toggle_pairing(w: GroupMultiSelect, g: int, row: Seq<bool>)
    requires
        forall|i: int, j: int|
            #![trigger row[i], row[j]]
            0 <= i < row.len() && 0 <= j < row.len() && !w.item_disabled(g, i)
                && !w.item_disabled(g, j) ==> row[i] == row[j],
    ensures
        w.toggle_header_row(g, w.toggle_header_row(g, row)) == row,
{
    let n = row.len() as int;
    if n == 0 {
    } else if exists|k: int| 0 <= k < n && !w.item_disabled(g, k) {
        let k = choose|k: int| 0 <= k < n && !w.item_disabled(g, k);
        if row[k] {
            assert(w.row_all_selected(g, row));
            let row1 = w.set_row(g, row, false);
            assert(!row1[k]);
            assert(!w.row_all_selected(g, row1));
            assert(w.set_row(g, row1, true) =~= row);
        } else {
            assert(!w.row_all_selected(g, row));
            let row1 = w.set_row(g, row, true);
            assert(w.row_all_selected(g, row1));
            assert(w.set_row(g, row1, false) =~= row);
        }
    } else {
        // Nothing in the row is selectable: both toggles change nothing.
        assert(w.row_all_selected(g, row));
        assert(w.set_row(g, row, false) =~= row);
    }
}

/// After a header toggle, the non-disabled entries of the row all agree:
/// the bulk switch drives them to one shared value.  Together with
/// [`lemma_group_toggle_pairing`] this says that from the first header
/// toggle on, a further pair of header toggles is always a round trip.
pub proof fn lemma_header_toggle_uniform(w: GroupMultiSelect, g: int, row: Seq<bool>)
    ensures
        ({
            let after = w.toggle_header_row(g, row);
            forall|i: int, j: int|
                #![trigger after[i], after[j]]
                0 <= i < after.len() && 0 <= j < after.len() && !w.item_disabled(g, i)
                    && !w.item_disabled(g, j) ==> after[i] == after[j]
        }),
{
}

/// Toggling item `i` of group `g` changes that flag alone: every other
/// entry, in its group and in every other group, keeps its value; the
/// toggled flag flips exactly when the item is not disabled.
pub proof fn lemma_item_toggle_isolation(
    w: GroupMultiSelect,
    checked: Seq<Seq<bool>>,
    g: usize,
    i: usize,
)
    requires
        w.checked_wf(checked),
        w.cursor_valid(Cursor { group_idx: g, item_idx: Some(i) }),
    ensures
        ({
            let after = w.toggle_spec(checked, Cursor { group_idx: g, item_idx: Some(i) });
            &&& after.len() == checked.len()
            &&& forall|g2: int|
                0 <= g2 < checked.len() ==> (#[trigger] after[g2]).len() == checked[g2].len()
            &&& forall|g2: int, i2: int|
                #![trigger after[g2][i2]]
                0 <= g2 < checked.len() && 0 <= i2 < checked[g2].len() && !(g2 == g as int && i2
                    == i as int) ==> after[g2][i2] == checked[g2][i2]
            &&& !w.item_disabled(g as int, i as int) ==> after[g as int][i as int] == !(checked[
                g as int
            ][i as int])
        }),
{
}

/// A disabled item's checked flag survives a toggle at any cursor: a direct
/// toggle on the item itself, a bulk toggle through its group's header, and
/// a toggle anywhere else all leave it as it was.
pub proof fn lemma_toggle_disabled_immutable(
    w: GroupMultiSelect,
    checked: Seq<Seq<bool>>,
    c: Cursor,
    g: int,
    i: int,
)
    requires
        w.checked_wf(checked),
        w.cursor_valid(c),
        0 <= g < checked.len(),
        0 <= i < checked[g].len(),
        w.item_disabled(g, i),
    ensures
        w.toggle_spec(checked, c)[g][i] == checked[g][i],
{
}

/// A disabled item's checked flag survives the select-all action.
pub proof fn lemma_select_all_disabled_immutable(
    w: GroupMultiSelect,
    checked: Seq<Seq<bool>>,
    g: int,
    i: int,
)
    requires
        w.checked_wf(checked),
        0 <= g < checked.len(),
        0 <= i < checked[g].len(),
        w.item_disabled(g, i),
    ensures
        w.select_all_spec(checked)[g][i] == checked[g][i],
{
}

/// A downward move never lands the cursor on a disabled item: either the
/// cursor did not move at all, or its new row is not disabled.
pub proof fn lemma_move_down_avoids_disabled(w: GroupMultiSelect, c: Cursor, r: Cursor)
    requires
        w.move_down_post(c, r),
    ensures
        r == c || !w.cursor_disabled(r),
{
}

/// An upward move never lands the cursor on a disabled item.
pub proof fn lemma_move_up_avoids_disabled(w: GroupMultiSelect, c: Cursor, r: Cursor)
    requires
        w.move_up_post(c, r),
    ensures
        r == c || !w.cursor_disabled(r),
{
}

/// When the rows overflow the window (and the window holds at least one
/// row), the adjusted offset keeps the cursor's row inside the visible span.
pub proof fn lemma_pager_containment(flat: int, current: int, capacity: int, total: int)
    requires
        1 <= capacity < total,
        0 <= flat < total,
        0 <= current,
    ensures
        ({
            let off = GroupMultiSelect::adjust_offset_spec(flat, current, capacity, total);
            off <= flat < off + capacity
        }),
{
}

} // verus!
