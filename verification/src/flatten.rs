use crate::open_entries::OpenEntries;
use crate::open_entry::{OpenEntry, OpenEntryView};
use crate::scope_state::{scope_state_views, scope_states_wf, ScopeState, ScopeStateView};
use crate::scope_variable_index::ScopeVariableIndex;
use crate::variable::{
    entry_row_views, row_entry_id, row_has_children, variable_views, Variable, VariableListEntry,
    VariableListEntryView, VariableView,
};
use vstd::prelude::*;

verus! {

/// Levels below its scope at which an identity lives; a scope is at level 0.
pub open spec fn entry_level(key: OpenEntryView) -> nat {
    match key {
        OpenEntryView::Scope { .. } => 0,
        OpenEntryView::Variable { depth, .. } => depth,
    }
}

/// One more than the deepest level among the expanded identities; 0 if
/// nothing is expanded.
pub open spec fn depth_limit(open: Seq<OpenEntryView>) -> nat
    decreases open.len(),
{
    if open.len() == 0 {
        0
    } else {
        let rest = depth_limit(open.drop_last());
        let here = entry_level(open.last()) + 1;
        if here > rest {
            here
        } else {
            rest
        }
    }
}

/// Every expanded identity lives above the depth limit.
pub proof fn level_below_limit(open: Seq<OpenEntryView>, key: OpenEntryView)
    requires
        open.contains(key),
    ensures
        entry_level(key) < depth_limit(open),
    decreases open.len(),
{
    if open.last() != key {
        let p = choose|p: int| 0 <= p < open.len() && open[p] == key;
        assert(open.drop_last()[p] == key);
        level_below_limit(open.drop_last(), key);
    }
}

/// Whether the children of the node shown by `row` are listed below it: the
/// node is expanded, can have children, and they have been fetched.
pub open spec fn expands(
    index: Map<u64, Seq<VariableView>>,
    open: Seq<OpenEntryView>,
    row: VariableListEntryView,
) -> bool {
    &&& open.contains(row_entry_id(row))
    &&& row_has_children(row)
    &&& index.contains_key(row_reference(row))
}

/// Handle under which the children of the node shown by `row` are fetched.
pub open spec fn row_reference(row: VariableListEntryView) -> u64 {
    match row {
        VariableListEntryView::Scope(scope) => scope.container_reference,
        VariableListEntryView::Variable { variable, .. } => variable.container_reference,
    }
}

/// Rows for the variables `children`, all at `depth`, listed under the scope
/// called `scope_name`: each variable is followed by the rows of its own
/// children, if it expands, before its next sibling.
pub open spec fn child_rows(
    index: Map<u64, Seq<VariableView>>,
    open: Seq<OpenEntryView>,
    scope_name: Seq<char>,
    children: Seq<VariableView>,
    depth: nat,
) -> Seq<VariableListEntryView>
    decreases depth_limit(open) - depth, children.len(),
    via child_rows_terminates
{
    if children.len() == 0 {
        Seq::empty()
    } else {
        let row = VariableListEntryView::Variable { scope_name, variable: children[0], depth };
        let below = if expands(index, open, row) {
            child_rows(index, open, scope_name, index[children[0].container_reference], depth + 1)
        } else {
            Seq::empty()
        };
        seq![row] + below + child_rows(index, open, scope_name, children.drop_first(), depth)
    }
}

#[via_fn]
proof fn child_rows_terminates(
    index: Map<u64, Seq<VariableView>>,
    open: Seq<OpenEntryView>,
    scope_name: Seq<char>,
    children: Seq<VariableView>,
    depth: nat,
) {
    if children.len() > 0 {
        let row = VariableListEntryView::Variable { scope_name, variable: children[0], depth };
        if expands(index, open, row) {
            level_below_limit(open, row_entry_id(row));
        }
    }
}

/// Rows for one scope: its header, then the rows of its variables if it
/// expands.
pub open spec fn scope_rows(
    state: ScopeStateView,
    open: Seq<OpenEntryView>,
) -> Seq<VariableListEntryView> {
    let row = VariableListEntryView::Scope(state.scope);
    let below = if expands(state.children, open, row) {
        child_rows(
            state.children,
            open,
            state.scope.name,
            state.children[state.scope.container_reference],
            1,
        )
    } else {
        Seq::empty()
    };
    seq![row] + below
}

/// Rows for the scopes of one stack frame, scope after scope in the order
/// given.
pub open spec fn frame_rows(
    states: Seq<ScopeStateView>,
    open: Seq<OpenEntryView>,
) -> Seq<VariableListEntryView>
    decreases states.len(),
{
    if states.len() == 0 {
        Seq::empty()
    } else {
        frame_rows(states.drop_last(), open) + scope_rows(states.last(), open)
    }
}

/// Number of expanded identities that live above level `n`.
spec fn levels_above(open: Seq<OpenEntryView>, n: nat) -> nat
    decreases open.len(),
{
    if open.len() == 0 {
        0
    } else {
        let here: nat = if entry_level(open.last()) < n {
            1
        } else {
            0
        };
        levels_above(open.drop_last(), n) + here
    }
}

proof fn levels_above_bounded(open: Seq<OpenEntryView>, n: nat)
    ensures
        levels_above(open, n) <= open.len(),
    decreases open.len(),
{
    if open.len() > 0 {
        levels_above_bounded(open.drop_last(), n);
    }
}

proof fn levels_above_monotone(open: Seq<OpenEntryView>, n: nat)
    ensures
        levels_above(open, n) <= levels_above(open, n + 1),
    decreases open.len(),
{
    if open.len() > 0 {
        levels_above_monotone(open.drop_last(), n);
    }
}

/// An expanded identity at level `n` is counted above level `n + 1` and not
/// above level `n`.
proof fn levels_above_grows(open: Seq<OpenEntryView>, key: OpenEntryView)
    requires
        open.contains(key),
    ensures
        levels_above(open, entry_level(key)) + 1 <= levels_above(open, entry_level(key) + 1),
    decreases open.len(),
{
    let n = entry_level(key);
    if open.last() == key {
        levels_above_monotone(open.drop_last(), n);
    } else {
        let p = choose|p: int| 0 <= p < open.len() && open[p] == key;
        assert(open.drop_last()[p] == key);
        levels_above_grows(open.drop_last(), key);
    }
}

/// Appends to `out` the rows for `children`, all at `depth`.
fn push_child_rows(
    index: &ScopeVariableIndex,
    open: &OpenEntries,
    scope_name: &String,
    children: &[Variable],
    depth: usize,
    out: &mut Vec<VariableListEntry>,
)
    requires
        index.wf(),
        open.wf(),
        depth <= levels_above(open@, depth as nat),
    ensures
        entry_row_views(final(out)@) == entry_row_views(old(out)@) + child_rows(
            index@,
            open@,
            scope_name@,
            variable_views(children@),
            depth as nat,
        ),
    decreases depth_limit(open@) - depth,
{
    let ghost all = variable_views(children@);
    let ghost total = entry_row_views(out@) + child_rows(
        index@,
        open@,
        scope_name@,
        all,
        depth as nat,
    );
    let mut i: usize = 0;
    proof {
        assert(all.skip(0) =~= all);
    }
    while i < children.len()
        invariant
            index.wf(),
            open.wf(),
            depth <= levels_above(open@, depth as nat),
            0 <= i <= children.len(),
            all == variable_views(children@),
            entry_row_views(out@) + child_rows(
                index@,
                open@,
                scope_name@,
                all.skip(i as int),
                depth as nat,
            ) == total,
        decreases children.len() - i,
    {
        let child = &children[i];
        let ghost rest = all.skip(i as int);
        let ghost row = VariableListEntryView::Variable {
            scope_name: scope_name@,
            variable: child@,
            depth: depth as nat,
        };
        let ghost before = entry_row_views(out@);
        proof {
            assert(rest[0] == child@);
            assert(rest.drop_first() =~= all.skip(i + 1));
        }
        let key = OpenEntry::Variable {
            scope_name: scope_name.clone(),
            name: child.name.clone(),
            depth,
        };
        out.push(
            VariableListEntry::Variable {
                scope_name: scope_name.clone(),
                variable: child.clone(),
                depth,
            },
        );
        assert(entry_row_views(out@) =~= before.push(row));
        let mut descended = false;
        if child.container_reference > 0 && open.is_open(&key) {
            match index.get_children(child.container_reference) {
                Some(list) => {
                    proof {
                        level_below_limit(open@, key@);
                        levels_above_grows(open@, key@);
                        levels_above_bounded(open@, (depth + 1) as nat);
                        open.len_is_bounded();
                    }
                    push_child_rows(index, open, scope_name, list, depth + 1, out);
                    descended = true;
                },
                None => {},
            }
        }
        proof {
            let below = if expands(index@, open@, row) {
                child_rows(
                    index@,
                    open@,
                    scope_name@,
                    index@[child@.container_reference],
                    (depth + 1) as nat,
                )
            } else {
                Seq::empty()
            };
            assert(descended == expands(index@, open@, row));
            assert(entry_row_views(out@) =~= before.push(row) + below);
            assert(before.push(row) + below + child_rows(
                index@,
                open@,
                scope_name@,
                all.skip(i + 1),
                depth as nat,
            ) =~= before + (seq![row] + below + child_rows(
                index@,
                open@,
                scope_name@,
                rest.drop_first(),
                depth as nat,
            )));
        }
        i += 1;
    }
    proof {
        assert(all.skip(children.len() as int) =~= Seq::<VariableView>::empty());
        assert(entry_row_views(out@) + Seq::<VariableListEntryView>::empty() =~= entry_row_views(
            out@,
        ));
    }
}

/// Appends to `out` the rows for one scope.
fn push_scope_rows(state: &ScopeState, open: &OpenEntries, out: &mut Vec<VariableListEntry>)
    requires
        state.wf(),
        open.wf(),
    ensures
        entry_row_views(final(out)@) == entry_row_views(old(out)@) + scope_rows(state@, open@),
{
    let ghost before = entry_row_views(out@);
    let ghost row = VariableListEntryView::Scope(state@.scope);
    let scope = state.scope();
    let index = state.index();
    let key = scope.entry_id();
    out.push(VariableListEntry::Scope(scope.clone()));
    assert(entry_row_views(out@) =~= before.push(row));
    let mut descended = false;
    if scope.container_reference > 0 && open.is_open(&key) {
        match index.get_children(scope.container_reference) {
            Some(list) => {
                proof {
                    levels_above_grows(open@, key@);
                }
                push_child_rows(index, open, &scope.name, list, 1, out);
                descended = true;
            },
            None => {},
        }
    }
    proof {
        assert(descended == expands(state@.children, open@, row));
        assert(entry_row_views(out@) =~= before + scope_rows(state@, open@));
    }
}

/// The rows to display for the scopes of one stack frame: a depth-first,
/// pre-order walk over what is expanded and fetched. Reads the cache and the
/// expanded set only; fetches nothing and changes nothing.
pub fn flatten(states: &Vec<ScopeState>, open: &OpenEntries) -> (rows: Vec<VariableListEntry>)
    requires
        scope_states_wf(states@),
        open.wf(),
    ensures
        entry_row_views(rows@) == frame_rows(scope_state_views(states@), open@),
{
    let mut rows: Vec<VariableListEntry> = Vec::new();
    let ghost all = scope_state_views(states@);
    let mut i: usize = 0;
    assert(all.take(0) =~= Seq::<ScopeStateView>::empty());
    assert(entry_row_views(rows@) =~= Seq::<VariableListEntryView>::empty());
    while i < states.len()
        invariant
            scope_states_wf(states@),
            open.wf(),
            0 <= i <= states.len(),
            all == scope_state_views(states@),
            entry_row_views(rows@) == frame_rows(all.take(i as int), open@),
        decreases states.len() - i,
    {
        proof {
            assert(all.take(i + 1).drop_last() =~= all.take(i as int));
            assert(all.take(i + 1).last() == states[i as int]@);
        }
        push_scope_rows(&states[i], open, &mut rows);
        i += 1;
    }
    assert(all.take(states.len() as int) =~= all);
    rows
}

} // verus!
