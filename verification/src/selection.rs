use crate::open_entry::{OpenEntry, OpenEntryView};
use crate::scope_state::entry_of;
use crate::variable::{entry_row_views, row_entry_id, VariableListEntry, VariableListEntryView};
use vstd::prelude::*;

verus! {

/// Position of the first row that shows the node `key`, if any does.
pub open spec fn position_of(rows: Seq<VariableListEntryView>, key: OpenEntryView) -> Option<int>
    decreases rows.len(),
{
    if rows.len() == 0 {
        None
    } else if row_entry_id(rows.last()) == key && position_of(rows.drop_last(), key) is None {
        Some(rows.len() - 1)
    } else {
        position_of(rows.drop_last(), key)
    }
}

/// `position_of` finds the first row with the identity, and finds none only
/// if no row has it.
pub proof fn position_of_is_first(rows: Seq<VariableListEntryView>, key: OpenEntryView)
    ensures
        match position_of(rows, key) {
            Some(at) => {
                &&& 0 <= at < rows.len()
                &&& row_entry_id(rows[at]) == key
                &&& forall|j: int| 0 <= j < at ==> row_entry_id(#[trigger] rows[j]) != key
            },
            None => forall|j: int| 0 <= j < rows.len() ==> row_entry_id(#[trigger] rows[j]) != key,
        },
    decreases rows.len(),
{
    if rows.len() > 0 {
        let front = rows.drop_last();
        position_of_is_first(front, key);
        match position_of(front, key) {
            Some(at) => {
                assert(front[at] == rows[at]);
                assert forall|j: int| 0 <= j < at implies row_entry_id(#[trigger] rows[j])
                    != key by {
                    assert(front[j] == rows[j]);
                }
            },
            None => {
                assert forall|j: int| 0 <= j < rows.len() - 1 implies row_entry_id(
                    #[trigger] rows[j],
                ) != key by {
                    assert(front[j] == rows[j]);
                }
            },
        }
    }
}

/// Selection after "select first": the first row, or nothing if there is no
/// row.
pub open spec fn first_selection(rows: Seq<VariableListEntryView>) -> Option<OpenEntryView> {
    if rows.len() == 0 {
        None
    } else {
        Some(row_entry_id(rows[0]))
    }
}

/// Selection after "select last": the last row, or nothing if there is no
/// row.
pub open spec fn last_selection(rows: Seq<VariableListEntryView>) -> Option<OpenEntryView> {
    if rows.len() == 0 {
        None
    } else {
        Some(row_entry_id(rows.last()))
    }
}

/// Selection after "select next": one row down from the first row that shows
/// the selected node, staying on the last row; the first row if nothing is
/// selected; unchanged if no row shows the selected node.
pub open spec fn next_selection(
    rows: Seq<VariableListEntryView>,
    selection: Option<OpenEntryView>,
) -> Option<OpenEntryView> {
    match selection {
        None => first_selection(rows),
        Some(key) => match position_of(rows, key) {
            None => selection,
            Some(at) => if at + 1 < rows.len() {
                Some(row_entry_id(rows[at + 1]))
            } else {
                selection
            },
        },
    }
}

/// Selection after "select previous": one row up from the first row that
/// shows the selected node, staying on the first row; the first row if
/// nothing is selected; unchanged if no row shows the selected node.
pub open spec fn previous_selection(
    rows: Seq<VariableListEntryView>,
    selection: Option<OpenEntryView>,
) -> Option<OpenEntryView> {
    match selection {
        None => first_selection(rows),
        Some(key) => match position_of(rows, key) {
            None => selection,
            Some(at) => if at > 0 {
                Some(row_entry_id(rows[at - 1]))
            } else {
                selection
            },
        },
    }
}

/// Finds the first row that shows the node `key`.
pub fn find_row(rows: &Vec<VariableListEntry>, key: &OpenEntry) -> (r: Option<usize>)
    ensures
        match r {
            Some(at) => at < rows.len() && position_of(entry_row_views(rows@), key@) == Some(
                at as int,
            ),
            None => position_of(entry_row_views(rows@), key@) is None,
        },
{
    let ghost views = entry_row_views(rows@);
    let mut i: usize = 0;
    while i < rows.len()
        invariant
            0 <= i <= rows.len(),
            views == entry_row_views(rows@),
            forall|j: int| 0 <= j < i ==> row_entry_id(#[trigger] views[j]) != key@,
        decreases rows.len() - i,
    {
        let id = rows[i].entry_id();
        if id.same(key) {
            proof {
                position_of_is_first(views, key@);
                assert(row_entry_id(views[i as int]) == key@);
                let at = position_of(views, key@)->0;
                assert(row_entry_id(views[at]) == key@);
            }
            return Some(i);
        }
        i += 1;
    }
    proof {
        position_of_is_first(views, key@);
    }
    None
}

/// The selection that "select first" makes.
pub fn select_first(rows: &Vec<VariableListEntry>) -> (r: Option<OpenEntry>)
    ensures
        entry_of(r) == first_selection(entry_row_views(rows@)),
{
    if rows.len() == 0 {
        None
    } else {
        Some(rows[0].entry_id())
    }
}

/// The selection that "select last" makes.
pub fn select_last(rows: &Vec<VariableListEntry>) -> (r: Option<OpenEntry>)
    ensures
        entry_of(r) == last_selection(entry_row_views(rows@)),
{
    if rows.len() == 0 {
        None
    } else {
        Some(rows[rows.len() - 1].entry_id())
    }
}

/// The selection that "select next" makes of `selection`.
pub fn select_next(rows: &Vec<VariableListEntry>, selection: &Option<OpenEntry>) -> (r: Option<
    OpenEntry,
>)
    ensures
        entry_of(r) == next_selection(entry_row_views(rows@), entry_of(*selection)),
{
    match selection {
        None => select_first(rows),
        Some(key) => match find_row(rows, key) {
            None => Some(key.clone()),
            Some(at) => if at + 1 < rows.len() {
                Some(rows[at + 1].entry_id())
            } else {
                Some(key.clone())
            },
        },
    }
}

/// The selection that "select previous" makes of `selection`.
pub fn select_prev(rows: &Vec<VariableListEntry>, selection: &Option<OpenEntry>) -> (r: Option<
    OpenEntry,
>)
    ensures
        entry_of(r) == previous_selection(entry_row_views(rows@), entry_of(*selection)),
{
    match selection {
        None => select_first(rows),
        Some(key) => match find_row(rows, key) {
            None => Some(key.clone()),
            Some(at) => if at > 0 {
                Some(rows[at - 1].entry_id())
            } else {
                Some(key.clone())
            },
        },
    }
}

} // verus!
