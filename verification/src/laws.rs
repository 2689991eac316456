use crate::flatten::{
    child_rows, depth_limit, expands, frame_rows, level_below_limit, row_reference, scope_rows,
};
use crate::frame_state::{
    distinct_scopes, nothing_cached, scope_position, scope_position_is_first, FetchRequest,
    FrameStateView, PendingFetchView, ScopeId, StackFrameId,
};
use crate::open_entries::{sorted_order_is_unique, strictly_sorted};
use crate::open_entry::OpenEntryView;
use crate::scope_state::ScopeStateView;
use crate::selection::position_of;
use crate::variable::{row_entry_id, VariableListEntryView, VariableView};
use crate::variable_list::{
    cached_children, current_rows, entry_toggled, fetch_failure_step, fetch_success_step,
    fetching, frame_shown, frames_invalidated, outstanding, row_disclosed,
    rows_of, scope_above, scope_state, settled, toggle_request_step, toggle_step, valid,
    with_children, ToggleOutcome, VariableListError, VariableListView,
};
use vstd::prelude::*;

verus! {

/// Flattening twice with nothing changed in between gives the same rows:
/// whatever two walks over the same list return, they return the same.
pub proof fn flatten_is_repeatable(
    v: VariableListView,
    stack_frame_id: StackFrameId,
    first: Seq<VariableListEntryView>,
    second: Seq<VariableListEntryView>,
)
    requires
        first == rows_of(v, stack_frame_id),
        second == rows_of(v, stack_frame_id),
    ensures
        first == second,
{
}

/// The rows of a stack frame are a function of the expanded set and the
/// cache alone: they do not depend on what is selected, on which frame is
/// shown, on what is being edited, nor on the fetches outstanding.
pub proof fn rows_depend_on_open_and_cache(
    a: VariableListView,
    b: VariableListView,
    stack_frame_id: StackFrameId,
)
    requires
        a.open == b.open,
        a.frames.contains_key(stack_frame_id) == b.frames.contains_key(stack_frame_id),
        a.frames.contains_key(stack_frame_id) ==> a.frames[stack_frame_id].scopes
            == b.frames[stack_frame_id].scopes,
    ensures
        rows_of(a, stack_frame_id) == rows_of(b, stack_frame_id),
{
}

/// Identity stability: toggling the same identity twice leaves the whole
/// list as it was, so that three toggles are one.
pub proof fn toggle_entry_twice_restores(
    start: VariableListView,
    once: VariableListView,
    twice: VariableListView,
    key: OpenEntryView,
)
    requires
        strictly_sorted(start.open),
        entry_toggled(start, once, key),
        entry_toggled(once, twice, key),
    ensures
        twice == start,
{
    assert(twice.open.to_set() =~= start.open.to_set());
    sorted_order_is_unique(twice.open, start.open);
}

/// Replacing the state of one scope by a state of the same scope leaves
/// every scope where it was.
pub proof fn positions_survive_update(
    states: Seq<ScopeStateView>,
    at: int,
    state: ScopeStateView,
    scope_id: ScopeId,
)
    requires
        0 <= at < states.len(),
        state.scope.container_reference == states[at].scope.container_reference,
    ensures
        scope_position(states.update(at, state), scope_id) == scope_position(states, scope_id),
{
    let after = states.update(at, state);
    scope_position_is_first(states, scope_id);
    scope_position_is_first(after, scope_id);
    assert forall|j: int| 0 <= j < states.len() implies (
    #[trigger] after[j]).scope.container_reference == states[j].scope.container_reference by {}
    match (scope_position(states, scope_id), scope_position(after, scope_id)) {
        (Some(p), Some(q)) => {
            assert(after[p].scope.container_reference == scope_id);
            assert(states[q].scope.container_reference == after[q].scope.container_reference);
        },
        (Some(p), None) => {
            assert(after[p].scope.container_reference == scope_id);
        },
        (None, Some(q)) => {
            assert(states[q].scope.container_reference == after[q].scope.container_reference);
        },
        (None, None) => {},
    }
}

/// Once children are cached for a container reference of a known scope,
/// that exact list is what the cache returns for it.
pub proof fn cached_after_insert(
    v: VariableListView,
    stack_frame_id: StackFrameId,
    scope_id: ScopeId,
    container_reference: u64,
    children: Seq<VariableView>,
)
    requires
        scope_state(v, stack_frame_id, scope_id) is Some,
    ensures
        cached_children(
            with_children(v, stack_frame_id, scope_id, container_reference, children),
            stack_frame_id,
            scope_id,
            container_reference,
        ) == Some(children),
{
    let states = v.frames[stack_frame_id].scopes;
    let at = scope_position(states, scope_id)->0;
    scope_position_is_first(states, scope_id);
    let state = states[at];
    let full = ScopeStateView {
        children: state.children.insert(container_reference, children),
        ..state
    };
    positions_survive_update(states, at, full, scope_id);
}

/// Caching children for one container reference leaves the list cached for
/// every other place as it was.
pub proof fn insert_keeps_other_lists(
    v: VariableListView,
    stack_frame_id: StackFrameId,
    scope_id: ScopeId,
    container_reference: u64,
    children: Seq<VariableView>,
    other_frame: StackFrameId,
    other_scope: ScopeId,
    other_reference: u64,
)
    requires
        (other_frame, other_scope, other_reference) != (
            stack_frame_id,
            scope_id,
            container_reference,
        ),
    ensures
        cached_children(
            with_children(v, stack_frame_id, scope_id, container_reference, children),
            other_frame,
            other_scope,
            other_reference,
        ) == cached_children(v, other_frame, other_scope, other_reference),
{
    if scope_state(v, stack_frame_id, scope_id) is Some {
        let states = v.frames[stack_frame_id].scopes;
        let at = scope_position(states, scope_id)->0;
        scope_position_is_first(states, scope_id);
        let state = states[at];
        let full = ScopeStateView {
            children: state.children.insert(container_reference, children),
            ..state
        };
        positions_survive_update(states, at, full, other_scope);
        scope_position_is_first(states, other_scope);
    }
}

/// No toggle request changes what the cache returns, whatever it does to
/// the expanded set and to the fetches outstanding.
pub proof fn cache_survives_toggle(
    pre: VariableListView,
    post: VariableListView,
    scope_id: ScopeId,
    key: OpenEntryView,
    reference: u64,
    outcome: ToggleOutcome,
    stack_frame_id: StackFrameId,
    other_scope: ScopeId,
    container_reference: u64,
)
    requires
        toggle_step(pre, post, scope_id, key, reference, outcome),
    ensures
        cached_children(post, stack_frame_id, other_scope, container_reference) == cached_children(
            pre,
            stack_frame_id,
            other_scope,
            container_reference,
        ),
{
}

/// No toggle request made by identity changes what the cache returns.
pub proof fn cache_survives_toggle_request(
    pre: VariableListView,
    post: VariableListView,
    key: OpenEntryView,
    outcome: ToggleOutcome,
    stack_frame_id: StackFrameId,
    scope_id: ScopeId,
    container_reference: u64,
)
    requires
        toggle_request_step(pre, post, key, outcome),
    ensures
        cached_children(post, stack_frame_id, scope_id, container_reference) == cached_children(
            pre,
            stack_frame_id,
            scope_id,
            container_reference,
        ),
{
}

/// A failed fetch changes nothing in what the cache returns nor in what is
/// expanded.
pub proof fn cache_survives_fetch_failure(
    pre: VariableListView,
    post: VariableListView,
    request: FetchRequest,
    error: VariableListError,
    stack_frame_id: StackFrameId,
    scope_id: ScopeId,
    container_reference: u64,
)
    requires
        fetch_failure_step(pre, post, request, error),
    ensures
        post.open == pre.open,
        cached_children(post, stack_frame_id, scope_id, container_reference) == cached_children(
            pre,
            stack_frame_id,
            scope_id,
            container_reference,
        ),
{
}

/// Children that arrive for a stack frame that is no longer shown, or for a
/// fetch that is not outstanding, change neither the cache nor the expanded
/// set.
pub proof fn stale_result_is_dropped(
    pre: VariableListView,
    post: VariableListView,
    request: FetchRequest,
    children: Seq<VariableView>,
    result: Result<(), VariableListError>,
    stack_frame_id: StackFrameId,
    scope_id: ScopeId,
    container_reference: u64,
)
    requires
        fetch_success_step(pre, post, request, children, result),
        result is Err,
    ensures
        result == Err::<(), VariableListError>(VariableListError::StaleFrame),
        post.open == pre.open,
        cached_children(post, stack_frame_id, scope_id, container_reference) == cached_children(
            pre,
            stack_frame_id,
            scope_id,
            container_reference,
        ),
{
}

/// Children arrive exactly for an outstanding fetch of the stack frame
/// shown. Where that fetch was made for a scope of the frame, they are what
/// the cache returns from then on; and the fetch is outstanding no more.
pub proof fn fetched_children_are_cached(
    pre: VariableListView,
    post: VariableListView,
    request: FetchRequest,
    children: Seq<VariableView>,
    result: Result<(), VariableListError>,
)
    requires
        fetch_success_step(pre, post, request, children, result),
    ensures
        result is Ok <==> outstanding(pre, request) is Some && request.stack_frame_id
            == pre.current_stack_frame_id,
        result is Ok && scope_state(pre, request.stack_frame_id, request.scope_id) is Some
            ==> cached_children(
            post,
            request.stack_frame_id,
            request.scope_id,
            request.container_reference,
        ) == Some(children),
        !fetching(post, request.stack_frame_id, request.container_reference) || outstanding(
            pre,
            request,
        ) is None,
{
    if result is Ok && scope_state(pre, request.stack_frame_id, request.scope_id) is Some {
        let mid = settled(pre, request);
        cached_after_insert(
            mid,
            request.stack_frame_id,
            request.scope_id,
            request.container_reference,
            children,
        );
    }
}

/// Children that arrive change the list cached for their own container
/// reference only.
pub proof fn fetch_success_keeps_other_lists(
    pre: VariableListView,
    post: VariableListView,
    request: FetchRequest,
    children: Seq<VariableView>,
    result: Result<(), VariableListError>,
    stack_frame_id: StackFrameId,
    scope_id: ScopeId,
    container_reference: u64,
)
    requires
        fetch_success_step(pre, post, request, children, result),
        (stack_frame_id, scope_id, container_reference) != (
            request.stack_frame_id,
            request.scope_id,
            request.container_reference,
        ),
    ensures
        cached_children(post, stack_frame_id, scope_id, container_reference) == cached_children(
            pre,
            stack_frame_id,
            scope_id,
            container_reference,
        ),
{
    if result is Ok {
        insert_keeps_other_lists(
            settled(pre, request),
            request.stack_frame_id,
            request.scope_id,
            request.container_reference,
            children,
            stack_frame_id,
            scope_id,
            container_reference,
        );
    }
}

/// Making the scopes of a new stack frame known changes nothing in what the
/// cache returns for the frames known before, and caches nothing for the
/// new one.
pub proof fn cache_survives_new_frame(
    v: VariableListView,
    new_frame: StackFrameId,
    scopes: Seq<ScopeStateView>,
    stack_frame_id: StackFrameId,
    scope_id: ScopeId,
    container_reference: u64,
)
    requires
        !v.frames.contains_key(new_frame),
        nothing_cached(scopes),
    ensures
        cached_children(
            VariableListView {
                frames: v.frames.insert(
                    new_frame,
                    FrameStateView { scopes, fetching: Map::<u64, PendingFetchView>::empty() },
                ),
                ..v
            },
            stack_frame_id,
            scope_id,
            container_reference,
        ) == cached_children(v, stack_frame_id, scope_id, container_reference),
{
    if stack_frame_id == new_frame {
        scope_position_is_first(scopes, scope_id);
    }
}

/// Showing a stack frame changes nothing in what the cache returns nor in
/// what is expanded.
pub proof fn cache_survives_frame_shown(
    v: VariableListView,
    shown: StackFrameId,
    stack_frame_id: StackFrameId,
    scope_id: ScopeId,
    container_reference: u64,
)
    ensures
        frame_shown(v, shown).open == v.open,
        cached_children(frame_shown(v, shown), stack_frame_id, scope_id, container_reference)
            == cached_children(v, stack_frame_id, scope_id, container_reference),
{
}

/// Invalidating the stack frames empties the cache, forgets the fetches
/// outstanding, and leaves what is expanded and what is selected as it was.
pub proof fn invalidation_keeps_open_entries(
    v: VariableListView,
    stack_frame_id: StackFrameId,
    scope_id: ScopeId,
    container_reference: u64,
    request: FetchRequest,
)
    ensures
        frames_invalidated(v).open == v.open,
        frames_invalidated(v).selection == v.selection,
        cached_children(frames_invalidated(v), stack_frame_id, scope_id, container_reference)
            is None,
        outstanding(frames_invalidated(v), request) is None,
        rows_of(frames_invalidated(v), stack_frame_id) == Seq::<VariableListEntryView>::empty(),
{
}

/// Single flight: a toggle request issues a fetch only if none of the same
/// container reference is outstanding for the stack frame shown, and from
/// then on one is.
pub proof fn one_fetch_at_a_time(
    pre: VariableListView,
    post: VariableListView,
    scope_id: ScopeId,
    key: OpenEntryView,
    reference: u64,
    outcome: ToggleOutcome,
)
    requires
        toggle_step(pre, post, scope_id, key, reference, outcome),
    ensures
        outcome is FetchRequested ==> !fetching(pre, pre.current_stack_frame_id, reference)
            && fetching(post, pre.current_stack_frame_id, reference),
        fetching(pre, pre.current_stack_frame_id, reference) ==> !(outcome is FetchRequested),
{
}

/// Single flight: once a toggle request has led to a fetch, the same request
/// made again before the fetch comes back does nothing at all.
pub proof fn second_toggle_is_ignored(
    start: VariableListView,
    once: VariableListView,
    twice: VariableListView,
    scope_id: ScopeId,
    key: OpenEntryView,
    reference: u64,
    first: ToggleOutcome,
    second: ToggleOutcome,
)
    requires
        toggle_step(start, once, scope_id, key, reference, first),
        toggle_step(once, twice, scope_id, key, reference, second),
        first is FetchRequested,
    ensures
        second == ToggleOutcome::AlreadyFetching,
        twice == once,
{
}

/// Single flight for requests made by identity: once such a request has led
/// to a fetch, the same request made again before the fetch comes back does
/// nothing at all.
pub proof fn second_toggle_request_is_ignored(
    start: VariableListView,
    once: VariableListView,
    twice: VariableListView,
    key: OpenEntryView,
    first: ToggleOutcome,
    second: ToggleOutcome,
)
    requires
        toggle_request_step(start, once, key, first),
        toggle_request_step(once, twice, key, second),
        first is FetchRequested,
    ensures
        second == ToggleOutcome::AlreadyFetching,
        twice == once,
{
    let frame = start.current_stack_frame_id;
    let rows = current_rows(start);
    let at = position_of(rows, key)->0;
    let scope = scope_above(rows, at)->0;
    let scope_id = scope.container_reference;
    let reference = row_reference(rows[at]);
    assert(toggle_step(start, once, scope_id, key, reference, first));
    rows_depend_on_open_and_cache(start, once, frame);
    assert(current_rows(once) == rows);
    second_toggle_is_ignored(start, once, twice, scope_id, key, reference, first, second);
}

/// Every row in the run shows a variable.
pub open spec fn all_variable_rows(rows: Seq<VariableListEntryView>) -> bool {
    forall|i: int| 0 <= i < rows.len() ==> (#[trigger] rows[i]) is Variable
}

/// The rows below a scope header show variables only.
pub proof fn child_rows_hold_variables(
    index: Map<u64, Seq<VariableView>>,
    open: Seq<OpenEntryView>,
    scope_name: Seq<char>,
    children: Seq<VariableView>,
    depth: nat,
)
    ensures
        all_variable_rows(child_rows(index, open, scope_name, children, depth)),
    decreases depth_limit(open) - depth, children.len(),
{
    if children.len() > 0 {
        let row = VariableListEntryView::Variable { scope_name, variable: children[0], depth };
        if expands(index, open, row) {
            level_below_limit(open, row_entry_id(row));
            child_rows_hold_variables(
                index,
                open,
                scope_name,
                index[children[0].container_reference],
                depth + 1,
            );
        }
        child_rows_hold_variables(index, open, scope_name, children.drop_first(), depth);
    }
}

/// The position among `states` of the scope under which the row at
/// position `at` of their rows is listed.
pub open spec fn row_owner(
    states: Seq<ScopeStateView>,
    open: Seq<OpenEntryView>,
    at: int,
) -> int
    decreases states.len(),
{
    if states.len() == 0 {
        -1
    } else if at >= frame_rows(states.drop_last(), open).len() {
        states.len() - 1
    } else {
        row_owner(states.drop_last(), open, at)
    }
}

/// What stands above a row does not depend on the rows after it.
proof fn scope_above_looks_up(
    rows: Seq<VariableListEntryView>,
    more: Seq<VariableListEntryView>,
    at: int,
)
    requires
        0 <= at < rows.len(),
    ensures
        scope_above(rows + more, at) == scope_above(rows, at),
    decreases at,
{
    assert((rows + more)[at] == rows[at]);
    if rows[at] is Variable && at > 0 {
        scope_above_looks_up(rows, more, at - 1);
    }
}

/// Below a scope header and rows of variables only, the scope above is
/// that header's.
proof fn scope_above_in_block(rows: Seq<VariableListEntryView>, header: int, at: int)
    requires
        0 <= header <= at < rows.len(),
        rows[header] is Scope,
        forall|k: int| header < k <= at ==> (#[trigger] rows[k]) is Variable,
    ensures
        scope_above(rows, at) == Some(rows[header]->Scope_0),
    decreases at - header,
{
    if at > header {
        scope_above_in_block(rows, header, at - 1);
    }
}

/// Every row is listed under the scope that owns it: the nearest scope
/// header above a row is the header of the scope whose variables the row
/// was produced from.
pub proof fn rows_stand_under_their_scope(
    states: Seq<ScopeStateView>,
    open: Seq<OpenEntryView>,
    at: int,
)
    requires
        0 <= at < frame_rows(states, open).len(),
    ensures
        0 <= row_owner(states, open, at) < states.len(),
        scope_above(frame_rows(states, open), at) == Some(
            states[row_owner(states, open, at)].scope,
        ),
    decreases states.len(),
{
    let front = frame_rows(states.drop_last(), open);
    let block = scope_rows(states.last(), open);
    let rows = frame_rows(states, open);
    assert(rows == front + block);
    if at >= front.len() {
        let state = states.last();
        let header = VariableListEntryView::Scope(state.scope);
        if expands(state.children, open, header) {
            child_rows_hold_variables(
                state.children,
                open,
                state.scope.name,
                state.children[state.scope.container_reference],
                1,
            );
        }
        assert(rows[front.len() as int] == block[0]);
        assert forall|k: int| front.len() < k <= at implies (#[trigger] rows[k]) is Variable by {
            assert(rows[k] == block[k - front.len()]);
        }
        scope_above_in_block(rows, front.len() as int, at);
    } else {
        rows_stand_under_their_scope(states.drop_last(), open, at);
        scope_above_looks_up(front, block, at);
        assert(states.drop_last()[row_owner(states.drop_last(), open, at)] == states[row_owner(
            states,
            open,
            at,
        )]);
    }
}

/// Where scopes have references of their own, a reference finds the scope
/// that has it.
pub proof fn distinct_scope_is_found(states: Seq<ScopeStateView>, at: int)
    requires
        distinct_scopes(states),
        0 <= at < states.len(),
    ensures
        scope_position(states, states[at].scope.container_reference) == Some(at),
{
    let scope_id = states[at].scope.container_reference;
    scope_position_is_first(states, scope_id);
    match scope_position(states, scope_id) {
        Some(found) => {
            if found < at {
                assert(states[found].scope.container_reference
                    != states[at].scope.container_reference);
            }
        },
        None => {},
    }
}

/// A row that is shown has its scope: the scope above it is known to the
/// list, and what is looked up for it is the state that the row was
/// produced from. So a toggle request for a node that is shown never ends
/// as `UnknownScope`.
pub proof fn shown_row_has_its_scope(v: VariableListView, at: int)
    requires
        valid(v),
        0 <= at < current_rows(v).len(),
    ensures
        scope_above(current_rows(v), at) is Some,
        scope_state(
            v,
            v.current_stack_frame_id,
            scope_above(current_rows(v), at)->0.container_reference,
        ) == Some(
            v.frames[v.current_stack_frame_id].scopes[row_owner(
                v.frames[v.current_stack_frame_id].scopes,
                v.open,
                at,
            )],
        ),
{
    let states = v.frames[v.current_stack_frame_id].scopes;
    rows_stand_under_their_scope(states, v.open, at);
    distinct_scope_is_found(states, row_owner(states, v.open, at));
}

/// A row is drawn as expanded exactly when the walk that produced the rows
/// went into its children.
pub proof fn drawn_expanded_when_expanded(v: VariableListView, at: int)
    requires
        valid(v),
        0 <= at < current_rows(v).len(),
    ensures
        row_disclosed(v, at) == expands(
            v.frames[v.current_stack_frame_id].scopes[row_owner(
                v.frames[v.current_stack_frame_id].scopes,
                v.open,
                at,
            )].children,
            v.open,
            current_rows(v)[at],
        ),
{
    shown_row_has_its_scope(v, at);
}

} // verus!
