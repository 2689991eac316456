use crate::flatten::{flatten, frame_rows, row_reference};
use crate::frame_state::{
    distinct_scopes, frame_outstanding, frame_with_children, refetch_requests, refetched,
    registered_all, scope_views, state_of, FetchRequest, FrameState, FrameStateView,
    PendingFetchView, ScopeId, StackFrameId,
};
use crate::open_entries::{strictly_sorted, toggled, OpenEntries};
use crate::open_entry::{OpenEntry, OpenEntryView};
use crate::scope_state::{entry_of, scope_state_views, scope_states_wf, ScopeStateView};
use crate::scope_variable_index::{all_variables, ScopeVariableIndex};
use crate::selection::{
    find_row, first_selection, last_selection, next_selection, position_of, previous_selection,
};
use crate::set_variable::{
    set_variable_state_of, SetVariableRequest, SetVariableRequestView, SetVariableState,
    SetVariableStateView,
};
use crate::variable::{
    clone_text, container_views, entry_row_views, row_entry_id, variable_views, Scope, ScopeView,
    Variable, VariableContainer, VariableContainerView, VariableListEntry,
    VariableListEntryView, VariableView,
};
use std::collections::HashMap;
use vstd::prelude::*;
use vstd::std_specs::hash::group_hash_axioms;

verus! {

broadcast use group_hash_axioms;

/// What a toggle request did.
#[derive(Clone, Copy, Debug, PartialEq, Eq, Structural)]
pub enum ToggleOutcome {
    /// The identity was toggled at once: rows are to be drawn again.
    Toggled,
    /// The children are not cached: this fetch is to be issued, and the
    /// identity is toggled when it succeeds.
    FetchRequested(FetchRequest),
    /// A fetch for the same container reference is outstanding: nothing
    /// happened.
    AlreadyFetching,
    /// The current stack frame has no such scope: nothing happened.
    UnknownScope,
}

/// What can go wrong in the variable list. None of it is fatal.
#[derive(Clone, Copy, Debug, PartialEq, Eq, Structural)]
pub enum VariableListError {
    /// The children of `reference` could not be fetched. The node stays
    /// collapsed; toggling it again tries again.
    FetchFailed { reference: u64 },
    /// A fetch came back for a stack frame that is no longer shown, or that
    /// has been invalidated since. Its result was dropped.
    StaleFrame,
    /// A row was asked for beyond the end of the rows.
    OutOfBoundsRowAccess { index: usize, len: usize },
}

/// What the list of stack frames reports.
#[derive(Clone, Copy, Debug, PartialEq, Eq, Structural)]
pub enum StackFrameListEvent {
    SelectedStackFrameChanged(StackFrameId),
    StackFramesUpdated,
}

/// The state of the variable list: what is expanded, what is selected, which
/// stack frame is shown, and per stack frame the scopes with what has been
/// fetched below them and the fetches outstanding.
pub struct VariableList {
    open_entries: OpenEntries,
    scopes: HashMap<StackFrameId, FrameState>,
    selection: Option<OpenEntry>,
    current_stack_frame_id: StackFrameId,
    set_variable_state: Option<SetVariableState>,
}

/// Mathematical value of a [`VariableList`].
pub ghost struct VariableListView {
    /// The expanded identities, strictly sorted.
    pub open: Seq<OpenEntryView>,
    /// What is known of each known stack frame.
    pub frames: Map<StackFrameId, FrameStateView>,
    pub selection: Option<OpenEntryView>,
    pub current_stack_frame_id: StackFrameId,
    /// The variable whose value is being edited, if one is.
    pub set_variable_state: Option<SetVariableStateView>,
}

impl View for VariableList {
    type V = VariableListView;

    closed spec fn view(&self) -> VariableListView {
        VariableListView {
            open: self.open_entries@,
            frames: self.scopes@.map_values(|frame: FrameState| frame@),
            selection: entry_of(self.selection),
            current_stack_frame_id: self.current_stack_frame_id,
            set_variable_state: set_variable_state_of(self.set_variable_state),
        }
    }
}

/// A list is valid if its expanded identities are strictly sorted and the
/// scopes of each of its stack frames have references of their own.
pub open spec fn valid(v: VariableListView) -> bool {
    &&& strictly_sorted(v.open)
    &&& forall|f: StackFrameId| #[trigger]
        v.frames.contains_key(f) ==> distinct_scopes(v.frames[f].scopes)
}

/// The state of the scope identified by `scope_id` in `stack_frame_id`, if
/// the frame is known and has such a scope.
pub open spec fn scope_state(
    v: VariableListView,
    stack_frame_id: StackFrameId,
    scope_id: ScopeId,
) -> Option<ScopeStateView> {
    if v.frames.contains_key(stack_frame_id) {
        state_of(v.frames[stack_frame_id], scope_id)
    } else {
        None
    }
}

/// The children cached for `container_reference` under the given scope of the
/// given stack frame, if they have been fetched.
pub open spec fn cached_children(
    v: VariableListView,
    stack_frame_id: StackFrameId,
    scope_id: ScopeId,
    container_reference: u64,
) -> Option<Seq<VariableView>> {
    match scope_state(v, stack_frame_id, scope_id) {
        Some(state) => if state.children.contains_key(container_reference) {
            Some(state.children[container_reference])
        } else {
            None
        },
        None => None,
    }
}

/// The scopes of `stack_frame_id` in display order; none for an unknown
/// frame.
pub open spec fn scopes_of(v: VariableListView, stack_frame_id: StackFrameId) -> Seq<ScopeView> {
    if v.frames.contains_key(stack_frame_id) {
        v.frames[stack_frame_id].scopes.map_values(|state: ScopeStateView| state.scope)
    } else {
        Seq::empty()
    }
}

/// The rows to display for `stack_frame_id`; none for an unknown frame.
pub open spec fn rows_of(v: VariableListView, stack_frame_id: StackFrameId) -> Seq<
    VariableListEntryView,
> {
    if v.frames.contains_key(stack_frame_id) {
        frame_rows(v.frames[stack_frame_id].scopes, v.open)
    } else {
        Seq::empty()
    }
}

/// Whether a fetch of `container_reference` is outstanding for
/// `stack_frame_id`.
pub open spec fn fetching(
    v: VariableListView,
    stack_frame_id: StackFrameId,
    container_reference: u64,
) -> bool {
    v.frames.contains_key(stack_frame_id) && v.frames[stack_frame_id].fetching.contains_key(
        container_reference,
    )
}

/// `v` with a fetch of `reference` outstanding for the stack frame shown,
/// for the scope identified by `scope_id`, to toggle `key` when it
/// succeeds.
pub open spec fn with_fetch(
    v: VariableListView,
    scope_id: ScopeId,
    reference: u64,
    key: OpenEntryView,
) -> VariableListView {
    let frame = v.frames[v.current_stack_frame_id];
    VariableListView {
        frames: v.frames.insert(
            v.current_stack_frame_id,
            FrameStateView {
                fetching: frame.fetching.insert(
                    reference,
                    PendingFetchView { scope_id, entry_id: Some(key) },
                ),
                ..frame
            },
        ),
        ..v
    }
}

/// How a toggle request for a node takes the list from `pre` to `post`.
/// `key` is the node's identity and `reference` its container reference; the
/// node lives under the scope identified by `scope_id` in the current frame.
/// A node that is expanded, that can have no children, or whose children
/// are cached is toggled at once; for any other node a fetch is issued,
/// unless one of the same reference is outstanding for the frame.
pub open spec fn toggle_step(
    pre: VariableListView,
    post: VariableListView,
    scope_id: ScopeId,
    key: OpenEntryView,
    reference: u64,
    outcome: ToggleOutcome,
) -> bool {
    let frame = pre.current_stack_frame_id;
    match scope_state(pre, frame, scope_id) {
        None => outcome == ToggleOutcome::UnknownScope && post == pre,
        Some(state) => if reference == 0 || pre.open.contains(key)
            || state.children.contains_key(reference) {
            outcome == ToggleOutcome::Toggled && entry_toggled(pre, post, key)
        } else if fetching(pre, frame, reference) {
            outcome == ToggleOutcome::AlreadyFetching && post == pre
        } else {
            &&& outcome == ToggleOutcome::FetchRequested(
                FetchRequest { stack_frame_id: frame, scope_id, container_reference: reference },
            )
            &&& post == with_fetch(pre, scope_id, reference, key)
        },
    }
}

/// How toggling the identity `key` takes the list from `pre` to `post`:
/// the identity changes sides, the expanded set stays sorted, and nothing
/// else changes.
pub open spec fn entry_toggled(
    pre: VariableListView,
    post: VariableListView,
    key: OpenEntryView,
) -> bool {
    &&& strictly_sorted(post.open)
    &&& post.open.to_set() == toggled(pre.open.to_set(), key)
    &&& post == (VariableListView { open: post.open, ..pre })
}

/// The scope under which the row at position `at` is listed: the row itself
/// if it is a scope header, else the nearest scope header above it.
pub open spec fn scope_above(rows: Seq<VariableListEntryView>, at: int) -> Option<ScopeView>
    decreases at,
{
    if at < 0 || at >= rows.len() {
        None
    } else {
        match rows[at] {
            VariableListEntryView::Scope(scope) => Some(scope),
            VariableListEntryView::Variable { .. } => if at == 0 {
                None
            } else {
                scope_above(rows, at - 1)
            },
        }
    }
}

/// How a toggle request for the node with identity `key` takes the list
/// from `pre` to `post`. If a row of the stack frame shown has the
/// identity, the request is for the node of the first such row; if none
/// has, the identity is toggled and nothing else happens.
pub open spec fn toggle_request_step(
    pre: VariableListView,
    post: VariableListView,
    key: OpenEntryView,
    outcome: ToggleOutcome,
) -> bool {
    let rows = current_rows(pre);
    match position_of(rows, key) {
        None => outcome == ToggleOutcome::Toggled && entry_toggled(pre, post, key),
        Some(at) => match scope_above(rows, at) {
            None => outcome == ToggleOutcome::UnknownScope && post == pre,
            Some(scope) => toggle_step(
                pre,
                post,
                scope.container_reference,
                key,
                row_reference(rows[at]),
                outcome,
            ),
        },
    }
}

/// The identity recorded with the outstanding fetch that `request` names, if
/// such a fetch is outstanding.
pub open spec fn outstanding(v: VariableListView, request: FetchRequest) -> Option<
    Option<OpenEntryView>,
> {
    if v.frames.contains_key(request.stack_frame_id) {
        frame_outstanding(
            v.frames[request.stack_frame_id],
            request.scope_id,
            request.container_reference,
        )
    } else {
        None
    }
}

/// `v` with the outstanding fetch that `request` names forgotten.
pub open spec fn settled(v: VariableListView, request: FetchRequest) -> VariableListView {
    if outstanding(v, request) is Some {
        let frame = v.frames[request.stack_frame_id];
        VariableListView {
            frames: v.frames.insert(
                request.stack_frame_id,
                FrameStateView {
                    fetching: frame.fetching.remove(request.container_reference),
                    ..frame
                },
            ),
            ..v
        }
    } else {
        v
    }
}

/// `v` with `children` cached for `container_reference` under the scope
/// identified by `scope_id` in `stack_frame_id`. Unchanged if there is no
/// such scope.
pub open spec fn with_children(
    v: VariableListView,
    stack_frame_id: StackFrameId,
    scope_id: ScopeId,
    container_reference: u64,
    children: Seq<VariableView>,
) -> VariableListView {
    if v.frames.contains_key(stack_frame_id) {
        VariableListView {
            frames: v.frames.insert(
                stack_frame_id,
                frame_with_children(
                    v.frames[stack_frame_id],
                    scope_id,
                    container_reference,
                    children,
                ),
            ),
            ..v
        }
    } else {
        v
    }
}

/// How the arrival of `children` for `request` takes the list from `pre` to
/// `post`.
pub open spec fn fetch_success_step(
    pre: VariableListView,
    post: VariableListView,
    request: FetchRequest,
    children: Seq<VariableView>,
    result: Result<(), VariableListError>,
) -> bool {
    match outstanding(pre, request) {
        None => result == Err::<(), VariableListError>(VariableListError::StaleFrame) && post
            == pre,
        Some(entry) => if request.stack_frame_id != pre.current_stack_frame_id {
            result == Err::<(), VariableListError>(VariableListError::StaleFrame) && post
                == settled(pre, request)
        } else {
            let stored = with_children(
                settled(pre, request),
                request.stack_frame_id,
                request.scope_id,
                request.container_reference,
                children,
            );
            &&& result == Ok::<(), VariableListError>(())
            &&& match entry {
                Some(key) => entry_toggled(stored, post, key),
                None => post == stored,
            }
        },
    }
}

/// How the failure of the fetch for `request` takes the list from `pre` to
/// `post`, and what is reported.
pub open spec fn fetch_failure_step(
    pre: VariableListView,
    post: VariableListView,
    request: FetchRequest,
    error: VariableListError,
) -> bool {
    match outstanding(pre, request) {
        None => error == VariableListError::StaleFrame && post == pre,
        Some(_) => {
            &&& post == settled(pre, request)
            &&& error == if request.stack_frame_id != pre.current_stack_frame_id {
                VariableListError::StaleFrame
            } else {
                VariableListError::FetchFailed { reference: request.container_reference }
            }
        },
    }
}

/// The list once `stack_frame_id` is shown: every scope of the frame that
/// is expanded with nothing cached and no fetch of its reference
/// outstanding has a fetch outstanding.
pub open spec fn frame_shown(v: VariableListView, stack_frame_id: StackFrameId) -> VariableListView {
    VariableListView {
        current_stack_frame_id: stack_frame_id,
        frames: if v.frames.contains_key(stack_frame_id) {
            let frame = v.frames[stack_frame_id];
            v.frames.insert(
                stack_frame_id,
                FrameStateView {
                    fetching: refetched(frame.scopes, v.open, frame.fetching),
                    ..frame
                },
            )
        } else {
            v.frames
        },
        ..v
    }
}

/// The fetches to issue when `stack_frame_id` is shown.
pub open spec fn frame_requests(v: VariableListView, stack_frame_id: StackFrameId) -> Seq<
    FetchRequest,
> {
    if v.frames.contains_key(stack_frame_id) {
        let frame = v.frames[stack_frame_id];
        refetch_requests(frame.scopes, v.open, frame.fetching, stack_frame_id)
    } else {
        Seq::empty()
    }
}

/// The list once every stack frame has been invalidated: no frame is known,
/// nothing is cached, no fetch is outstanding; what is expanded and selected
/// stays.
pub open spec fn frames_invalidated(v: VariableListView) -> VariableListView {
    VariableListView { frames: Map::<StackFrameId, FrameStateView>::empty(), ..v }
}

/// Everything cached for the given scopes, scope after scope, each scope's
/// variables depth first.
pub open spec fn frame_variables(states: Seq<ScopeStateView>) -> Seq<VariableContainerView>
    decreases states.len(),
{
    if states.len() == 0 {
        Seq::empty()
    } else {
        frame_variables(states.drop_last()) + all_variables(
            states.last().children,
            states.last().scope.container_reference,
        )
    }
}

/// Everything cached for `stack_frame_id`; nothing for an unknown frame.
pub open spec fn variables_of(v: VariableListView, stack_frame_id: StackFrameId) -> Seq<
    VariableContainerView,
> {
    if v.frames.contains_key(stack_frame_id) {
        frame_variables(v.frames[stack_frame_id].scopes)
    } else {
        Seq::empty()
    }
}

/// Value of an optional request to set a variable.
pub open spec fn set_variable_request_of(o: Option<SetVariableRequest>) -> Option<
    SetVariableRequestView,
> {
    match o {
        Some(request) => Some(request@),
        None => None,
    }
}

/// The request to make when editing ends in the list `v` with `text`
/// entered, if any is to be made.
pub open spec fn requested_value(v: VariableListView, text: Seq<char>) -> Option<
    SetVariableRequestView,
> {
    match v.set_variable_state {
        None => None,
        Some(state) => if text == state.value || state.stack_frame_id != v.current_stack_frame_id {
            None
        } else {
            Some(
                SetVariableRequestView {
                    parent_variables_reference: state.parent_variables_reference,
                    name: state.name,
                    value: text,
                },
            )
        },
    }
}

/// The rows to display for the stack frame shown.
pub open spec fn current_rows(v: VariableListView) -> Seq<VariableListEntryView> {
    rows_of(v, v.current_stack_frame_id)
}

/// Whether the scopes of the stack frame shown are known.
pub open spec fn current_frame_known(v: VariableListView) -> bool {
    v.frames.contains_key(v.current_stack_frame_id)
}

/// The scope under which the row at position `at` is listed, by the
/// reference that identifies it.
pub fn scope_id_above(rows: &Vec<VariableListEntry>, at: usize) -> (scope_id: Option<ScopeId>)
    ensures
        match scope_id {
            Some(id) => scope_above(entry_row_views(rows@), at as int) is Some && scope_above(
                entry_row_views(rows@),
                at as int,
            )->0.container_reference == id,
            None => scope_above(entry_row_views(rows@), at as int) is None,
        },
{
    let ghost views = entry_row_views(rows@);
    if at >= rows.len() {
        return None;
    }
    let mut above: usize = at;
    let mut scope_id: Option<ScopeId> = None;
    loop
        invariant_except_break
            scope_id is None,
            scope_above(views, at as int) == scope_above(views, above as int),
        invariant
            above <= at < rows.len(),
            views == entry_row_views(rows@),
        ensures
            match scope_id {
                Some(id) => scope_above(views, at as int) is Some && scope_above(
                    views,
                    at as int,
                )->0.container_reference == id,
                None => scope_above(views, at as int) is None,
            },
        decreases above,
    {
        assert(views[above as int] == rows[above as int]@);
        match &rows[above] {
            VariableListEntry::Scope(scope) => {
                scope_id = Some(scope.container_reference);
                break;
            },
            VariableListEntry::Variable { .. } => {
                if above == 0 {
                    break;
                }
                above -= 1;
            },
        }
    }
    scope_id
}

/// Whether the row at position `at` of the stack frame shown is drawn as
/// expanded: its node is expanded, can have children, and they are cached.
/// A node that is expanded while its children are not cached is drawn as
/// collapsed.
pub open spec fn row_disclosed(v: VariableListView, at: int) -> bool {
    let rows = current_rows(v);
    &&& 0 <= at < rows.len()
    &&& v.open.contains(row_entry_id(rows[at]))
    &&& row_reference(rows[at]) > 0
    &&& match scope_above(rows, at) {
        Some(scope) => cached_children(
            v,
            v.current_stack_frame_id,
            scope.container_reference,
            row_reference(rows[at]),
        ) is Some,
        None => false,
    }
}

impl VariableList {
    /// The expanded set is sorted and every frame is well formed.
    pub closed spec fn wf(&self) -> bool {
        &&& self.open_entries.wf()
        &&& forall|f: StackFrameId| #[trigger] self.scopes@.contains_key(f) ==> self.scopes@[f].wf()
    }

    /// The value of a well-formed list is valid.
    pub proof fn wf_is_valid(&self)
        requires
            self.wf(),
        ensures
            valid(self@),
    {
        assert forall|f: StackFrameId| #[trigger] self@.frames.contains_key(f) implies distinct_scopes(
            self@.frames[f].scopes,
        ) by {
            assert(self.scopes@.contains_key(f));
            self.scopes@[f].wf_has_distinct_scopes();
        }
    }

    /// A list with nothing expanded, nothing selected and no stack frame
    /// known, showing `current_stack_frame_id`.
    pub fn new(current_stack_frame_id: StackFrameId) -> (r: VariableList)
        ensures
            r.wf(),
            r@ == (VariableListView {
                open: Seq::<OpenEntryView>::empty(),
                frames: Map::<StackFrameId, FrameStateView>::empty(),
                selection: None,
                current_stack_frame_id,
                set_variable_state: None,
            }),
    {
        let r = VariableList {
            open_entries: OpenEntries::new(),
            scopes: HashMap::new(),
            selection: None,
            current_stack_frame_id,
            set_variable_state: None,
        };
        assert(r@.frames =~= Map::<StackFrameId, FrameStateView>::empty());
        r
    }

    /// The stack frame whose variables are shown.
    pub fn current_stack_frame_id(&self) -> (r: StackFrameId)
        ensures
            r == self@.current_stack_frame_id,
    {
        self.current_stack_frame_id
    }

    /// The expanded identities.
    pub fn open_entries(&self) -> (r: &OpenEntries)
        requires
            self.wf(),
        ensures
            r.wf(),
            r@ == self@.open,
    {
        &self.open_entries
    }

    /// The selected identity, if any.
    pub fn selection(&self) -> (r: &Option<OpenEntry>)
        ensures
            entry_of(*r) == self@.selection,
    {
        &self.selection
    }

    /// Whether a fetch of `container_reference` is outstanding for
    /// `stack_frame_id`.
    pub fn is_fetching(&self, stack_frame_id: StackFrameId, container_reference: u64) -> (r: bool)
        ensures
            r == fetching(self@, stack_frame_id, container_reference),
    {
        match self.scopes.get(&stack_frame_id) {
            Some(frame) => frame.is_fetching(container_reference),
            None => false,
        }
    }

    /// Whether the scopes of `stack_frame_id` are known.
    pub fn has_stack_frame(&self, stack_frame_id: StackFrameId) -> (r: bool)
        ensures
            r == self@.frames.contains_key(stack_frame_id),
    {
        self.scopes.contains_key(&stack_frame_id)
    }

    /// Makes the scopes of `stack_frame_id` known, each with nothing fetched,
    /// unless the frame is known already; says whether it did. A scope with
    /// the reference of an earlier one takes its place.
    pub fn add_scopes(&mut self, stack_frame_id: StackFrameId, scopes: Vec<Scope>) -> (added: bool)
        requires
            old(self).wf(),
        ensures
            final(self).wf(),
            added == !old(self)@.frames.contains_key(stack_frame_id),
            final(self)@ == if added {
                VariableListView {
                    frames: old(self)@.frames.insert(
                        stack_frame_id,
                        FrameStateView {
                            scopes: registered_all(
                                Seq::<ScopeStateView>::empty(),
                                scope_views(scopes@),
                            ),
                            fetching: Map::<u64, PendingFetchView>::empty(),
                        },
                    ),
                    ..old(self)@
                }
            } else {
                old(self)@
            },
    {
        if self.scopes.contains_key(&stack_frame_id) {
            return false;
        }
        let frame = FrameState::new(scopes);
        let ghost stored = frame@;
        let _ = self.scopes.insert(stack_frame_id, frame);
        assert(self@.frames =~= old(self)@.frames.insert(stack_frame_id, stored));
        true
    }

    /// The scopes of `stack_frame_id` in display order; none for an unknown
    /// frame.
    pub fn scopes(&self, stack_frame_id: StackFrameId) -> (r: Vec<Scope>)
        requires
            self.wf(),
        ensures
            scope_views(r@) == scopes_of(self@, stack_frame_id),
    {
        let mut out: Vec<Scope> = Vec::new();
        match self.scopes.get(&stack_frame_id) {
            None => {
                assert(scope_views(out@) =~= Seq::<ScopeView>::empty());
            },
            Some(frame) => {
                let states = frame.scopes();
                let mut i: usize = 0;
                while i < states.len()
                    invariant
                        0 <= i <= states.len(),
                        out.len() == i,
                        forall|j: int| 0 <= j < i ==> (#[trigger] out[j])@ == states[j]@.scope,
                    decreases states.len() - i,
                {
                    out.push(states[i].scope().clone());
                    i += 1;
                }
                assert(scope_views(out@) =~= scopes_of(self@, stack_frame_id));
            },
        }
        out
    }

    /// What has been fetched for the scope identified by `scope_id` in
    /// `stack_frame_id`, if there is such a scope.
    pub fn variables_by_scope(&self, stack_frame_id: StackFrameId, scope_id: ScopeId) -> (r:
        Option<&ScopeVariableIndex>)
        requires
            self.wf(),
        ensures
            match r {
                Some(index) => index.wf() && scope_state(self@, stack_frame_id, scope_id)
                    is Some && index@ == scope_state(self@, stack_frame_id, scope_id)->0.children,
                None => scope_state(self@, stack_frame_id, scope_id) is None,
            },
    {
        match self.scopes.get(&stack_frame_id) {
            Some(frame) => frame.variables_by_scope(scope_id),
            None => None,
        }
    }

    /// Whether the children of `container_reference` are cached.
    pub fn is_fetched(
        &self,
        stack_frame_id: StackFrameId,
        scope_id: ScopeId,
        container_reference: u64,
    ) -> (r: bool)
        requires
            self.wf(),
        ensures
            r == cached_children(self@, stack_frame_id, scope_id, container_reference).is_some(),
    {
        match self.variables_by_scope(stack_frame_id, scope_id) {
            Some(index) => index.fetched(&container_reference),
            None => false,
        }
    }

    /// The cached children of `container_reference`, if they have been
    /// fetched.
    pub fn get_children(
        &self,
        stack_frame_id: StackFrameId,
        scope_id: ScopeId,
        container_reference: u64,
    ) -> (r: Option<&[Variable]>)
        requires
            self.wf(),
        ensures
            match r {
                Some(list) => cached_children(self@, stack_frame_id, scope_id, container_reference)
                    == Some(variable_views(list@)),
                None => cached_children(self@, stack_frame_id, scope_id, container_reference)
                    is None,
            },
    {
        match self.variables_by_scope(stack_frame_id, scope_id) {
            Some(index) => index.get_children(container_reference),
            None => None,
        }
    }

    /// The rows to display for `stack_frame_id`. Reads the state only.
    pub fn variable_list(&self, stack_frame_id: StackFrameId) -> (rows: Vec<VariableListEntry>)
        requires
            self.wf(),
        ensures
            entry_row_views(rows@) == rows_of(self@, stack_frame_id),
    {
        match self.scopes.get(&stack_frame_id) {
            Some(frame) => flatten(frame.scopes(), &self.open_entries),
            None => {
                let rows: Vec<VariableListEntry> = Vec::new();
                assert(entry_row_views(rows@) =~= Seq::<VariableListEntryView>::empty());
                rows
            },
        }
    }

    /// Every variable cached for `stack_frame_id`, expanded or not: scope
    /// after scope, each scope's variables depth first.
    pub fn variables_by_stack_frame_id(&self, stack_frame_id: StackFrameId) -> (r: Vec<
        VariableContainer,
    >)
        requires
            self.wf(),
        ensures
            container_views(r@) == variables_of(self@, stack_frame_id),
    {
        let mut out: Vec<VariableContainer> = Vec::new();
        assert(container_views(out@) =~= Seq::<VariableContainerView>::empty());
        match self.scopes.get(&stack_frame_id) {
            None => {},
            Some(frame) => {
                let states = frame.scopes();
                let ghost all = scope_state_views(states@);
                let mut i: usize = 0;
                assert(all.take(0) =~= Seq::<ScopeStateView>::empty());
                while i < states.len()
                    invariant
                        0 <= i <= states.len(),
                        scope_states_wf(states@),
                        all == scope_state_views(states@),
                        container_views(out@) == frame_variables(all.take(i as int)),
                    decreases states.len() - i,
                {
                    proof {
                        assert(all.take(i + 1).drop_last() =~= all.take(i as int));
                        assert(all.take(i + 1).last() == states[i as int]@);
                    }
                    let ghost before = container_views(out@);
                    let mut found = states[i].index().variables(
                        states[i].scope().container_reference,
                    );
                    let ghost added = container_views(found@);
                    out.append(&mut found);
                    assert(container_views(out@) =~= before + added);
                    i += 1;
                }
                assert(all.take(states.len() as int) =~= all);
            },
        }
        out
    }

    /// The variables offered for completion while the program is stopped
    /// in `main_stack_frame_id`: every variable cached for that frame.
    pub fn completion_variables(&self, main_stack_frame_id: StackFrameId) -> (r: Vec<
        VariableContainer,
    >)
        requires
            self.wf(),
        ensures
            container_views(r@) == variables_of(self@, main_stack_frame_id),
    {
        self.variables_by_stack_frame_id(main_stack_frame_id)
    }

    /// Collapses `entry_id` if it is expanded and expands it if it is not.
    /// Fetches nothing and touches nothing else.
    pub fn toggle_entry(&mut self, entry_id: &OpenEntry)
        requires
            old(self).wf(),
        ensures
            final(self).wf(),
            entry_toggled(old(self)@, final(self)@, entry_id@),
    {
        self.open_entries.toggle(entry_id);
    }

    /// Caches `children` as the children of `container_reference` under the
    /// scope identified by `scope_id` in `stack_frame_id`, in the place of
    /// any list cached for it before; says whether there is such a scope.
    /// All other cached lists stay as they are.
    pub fn insert_children(
        &mut self,
        stack_frame_id: StackFrameId,
        scope_id: ScopeId,
        container_reference: u64,
        children: Vec<Variable>,
    ) -> (stored: bool)
        requires
            old(self).wf(),
        ensures
            final(self).wf(),
            stored == scope_state(old(self)@, stack_frame_id, scope_id).is_some(),
            final(self)@ == with_children(
                old(self)@,
                stack_frame_id,
                scope_id,
                container_reference,
                variable_views(children@),
            ),
    {
        match self.scopes.remove(&stack_frame_id) {
            None => {
                assert(self@.frames =~= old(self)@.frames);
                false
            },
            Some(frame) => {
                let mut frame = frame;
                let stored = frame.add_variables(scope_id, container_reference, children);
                let ghost after = frame@;
                let _ = self.scopes.insert(stack_frame_id, frame);
                assert(self@.frames =~= old(self)@.frames.insert(stack_frame_id, after));
                stored
            },
        }
    }

    /// Handles a toggle request for the node with identity `key` and
    /// container reference `reference` under the scope identified by
    /// `scope_id` in the current stack frame.
    fn toggle_node(&mut self, scope_id: ScopeId, key: OpenEntry, reference: u64) -> (outcome:
        ToggleOutcome)
        requires
            old(self).wf(),
        ensures
            final(self).wf(),
            toggle_step(old(self)@, final(self)@, scope_id, key@, reference, outcome),
    {
        let frame_id = self.current_stack_frame_id;
        let (fetched, busy) = match self.scopes.get(&frame_id) {
            None => {
                return ToggleOutcome::UnknownScope;
            },
            Some(frame) => match frame.variables_by_scope(scope_id) {
                None => {
                    return ToggleOutcome::UnknownScope;
                },
                Some(index) => (index.fetched(&reference), frame.is_fetching(reference)),
            },
        };
        if reference == 0 || self.open_entries.is_open(&key) || fetched {
            self.open_entries.toggle(&key);
            return ToggleOutcome::Toggled;
        }
        if busy {
            return ToggleOutcome::AlreadyFetching;
        }
        match self.scopes.remove(&frame_id) {
            None => ToggleOutcome::UnknownScope,
            Some(frame) => {
                let mut frame = frame;
                frame.begin_fetch(scope_id, reference, Some(key));
                let ghost after = frame@;
                let _ = self.scopes.insert(frame_id, frame);
                assert(self@.frames =~= old(self)@.frames.insert(frame_id, after));
                ToggleOutcome::FetchRequested(
                    FetchRequest {
                        stack_frame_id: frame_id,
                        scope_id,
                        container_reference: reference,
                    },
                )
            },
        }
    }

    /// Handles a click on the disclosure control of `scope` in the current
    /// stack frame.
    pub fn toggle_scope(&mut self, scope: &Scope) -> (outcome: ToggleOutcome)
        requires
            old(self).wf(),
        ensures
            final(self).wf(),
            toggle_step(
                old(self)@,
                final(self)@,
                scope@.container_reference,
                OpenEntryView::Scope { name: scope@.name },
                scope@.container_reference,
                outcome,
            ),
    {
        self.toggle_node(scope.container_reference, scope.entry_id(), scope.container_reference)
    }

    /// Handles a click on the disclosure control of `variable`, shown at
    /// `depth` under `scope` in the current stack frame.
    pub fn toggle_variable(&mut self, scope: &Scope, variable: &Variable, depth: usize) -> (outcome:
        ToggleOutcome)
        requires
            old(self).wf(),
        ensures
            final(self).wf(),
            toggle_step(
                old(self)@,
                final(self)@,
                scope@.container_reference,
                OpenEntryView::Variable {
                    scope_name: scope@.name,
                    name: variable@.name,
                    depth: depth as nat,
                },
                variable@.container_reference,
                outcome,
            ),
    {
        let key = OpenEntry::Variable {
            scope_name: scope.name.clone(),
            name: variable.name.clone(),
            depth,
        };
        self.toggle_node(scope.container_reference, key, variable.container_reference)
    }

    /// Handles a request to expand or collapse the node with identity
    /// `entry_id` in the stack frame shown.
    pub fn toggle(&mut self, entry_id: &OpenEntry) -> (outcome: ToggleOutcome)
        requires
            old(self).wf(),
        ensures
            final(self).wf(),
            toggle_request_step(old(self)@, final(self)@, entry_id@, outcome),
    {
        let rows = self.variable_list(self.current_stack_frame_id);
        let ghost views = entry_row_views(rows@);
        match find_row(&rows, entry_id) {
            None => {
                self.open_entries.toggle(entry_id);
                ToggleOutcome::Toggled
            },
            Some(at) => {
                let reference = rows[at].container_reference();
                let scope_id = scope_id_above(&rows, at);
                assert(views[at as int] == rows[at as int]@);
                match scope_id {
                    None => ToggleOutcome::UnknownScope,
                    Some(id) => self.toggle_node(id, entry_id.clone(), reference),
                }
            },
        }
    }

    /// Takes in the children that the fetch for `request` brought. They are
    /// cached, and the identity recorded with the fetch is toggled, if the
    /// fetch is outstanding and its stack frame is still the one shown;
    /// otherwise they are dropped and `StaleFrame` is returned.
    pub fn fetch_succeeded(&mut self, request: FetchRequest, children: Vec<Variable>) -> (result:
        Result<(), VariableListError>)
        requires
            old(self).wf(),
        ensures
            final(self).wf(),
            fetch_success_step(
                old(self)@,
                final(self)@,
                request,
                variable_views(children@),
                result,
            ),
    {
        let frame_id = request.stack_frame_id;
        match self.scopes.remove(&frame_id) {
            None => {
                assert(self@.frames =~= old(self)@.frames);
                Err(VariableListError::StaleFrame)
            },
            Some(frame) => {
                let mut frame = frame;
                let ended = frame.end_fetch(request.scope_id, request.container_reference);
                match ended {
                    None => {
                        let _ = self.scopes.insert(frame_id, frame);
                        assert(self@.frames =~= old(self)@.frames);
                        Err(VariableListError::StaleFrame)
                    },
                    Some(entry_id) => {
                        if frame_id != self.current_stack_frame_id {
                            let ghost after = frame@;
                            let _ = self.scopes.insert(frame_id, frame);
                            assert(self@.frames =~= old(self)@.frames.insert(frame_id, after));
                            return Err(VariableListError::StaleFrame);
                        }
                        let ghost quiet = frame@;
                        let _ = frame.add_variables(
                            request.scope_id,
                            request.container_reference,
                            children,
                        );
                        let ghost after = frame@;
                        let _ = self.scopes.insert(frame_id, frame);
                        proof {
                            let mid = settled(old(self)@, request);
                            assert(mid.frames[frame_id] == quiet);
                            assert(self@.frames =~= mid.frames.insert(frame_id, after));
                        }
                        match entry_id {
                            Some(key) => {
                                self.open_entries.toggle(&key);
                            },
                            None => {},
                        }
                        Ok(())
                    },
                }
            },
        }
    }

    /// Takes in the failure of the fetch for `request`, and hands back the
    /// error to show. The fetch is no longer outstanding, so that toggling
    /// the node again tries again; nothing is cached and nothing is toggled.
    pub fn fetch_failed(&mut self, request: FetchRequest) -> (error: VariableListError)
        requires
            old(self).wf(),
        ensures
            final(self).wf(),
            fetch_failure_step(old(self)@, final(self)@, request, error),
    {
        let frame_id = request.stack_frame_id;
        match self.scopes.remove(&frame_id) {
            None => {
                assert(self@.frames =~= old(self)@.frames);
                VariableListError::StaleFrame
            },
            Some(frame) => {
                let mut frame = frame;
                let ended = frame.end_fetch(request.scope_id, request.container_reference);
                let ghost after = frame@;
                let _ = self.scopes.insert(frame_id, frame);
                assert(self@.frames =~= old(self)@.frames.insert(frame_id, after));
                match ended {
                    None => {
                        assert(self@.frames =~= old(self)@.frames);
                        VariableListError::StaleFrame
                    },
                    Some(_) => {
                        if frame_id != self.current_stack_frame_id {
                            VariableListError::StaleFrame
                        } else {
                            VariableListError::FetchFailed {
                                reference: request.container_reference,
                            }
                        }
                    },
                }
            },
        }
    }

    /// Shows `stack_frame_id`. Every scope of it that is expanded but has
    /// neither cached variables nor a fetch of its reference outstanding
    /// gets a fetch, which toggles nothing when it succeeds; the requests
    /// are handed back in the order of the scopes.
    pub fn handle_selected_stack_frame_changed(&mut self, stack_frame_id: StackFrameId) -> (requests:
        Vec<FetchRequest>)
        requires
            old(self).wf(),
        ensures
            final(self).wf(),
            final(self)@ == frame_shown(old(self)@, stack_frame_id),
            requests@ == frame_requests(old(self)@, stack_frame_id),
    {
        self.current_stack_frame_id = stack_frame_id;
        match self.scopes.remove(&stack_frame_id) {
            None => {
                assert(self@.frames =~= old(self)@.frames);
                Vec::new()
            },
            Some(frame) => {
                let mut frame = frame;
                let requests = frame.refetch(&self.open_entries, stack_frame_id);
                let ghost after = frame@;
                let _ = self.scopes.insert(stack_frame_id, frame);
                assert(self@.frames =~= old(self)@.frames.insert(stack_frame_id, after));
                requests
            },
        }
    }

    /// Forgets every stack frame: the scopes, what was cached below them and
    /// the fetches outstanding for them. What is expanded and what is
    /// selected stays.
    pub fn handle_stack_frames_updated(&mut self)
        requires
            old(self).wf(),
        ensures
            final(self).wf(),
            final(self)@ == frames_invalidated(old(self)@),
    {
        self.scopes.clear();
        assert(self@.frames =~= Map::<StackFrameId, FrameStateView>::empty());
    }

    /// Takes in what the list of stack frames reports, and hands back the
    /// fetches to issue.
    pub fn handle_stack_frame_list_events(&mut self, event: &StackFrameListEvent) -> (requests:
        Vec<FetchRequest>)
        requires
            old(self).wf(),
        ensures
            final(self).wf(),
            match *event {
                StackFrameListEvent::SelectedStackFrameChanged(stack_frame_id) => {
                    &&& final(self)@ == frame_shown(old(self)@, stack_frame_id)
                    &&& requests@ == frame_requests(old(self)@, stack_frame_id)
                },
                StackFrameListEvent::StackFramesUpdated => {
                    &&& final(self)@ == frames_invalidated(old(self)@)
                    &&& requests@ == Seq::<FetchRequest>::empty()
                },
            },
    {
        match event {
            StackFrameListEvent::SelectedStackFrameChanged(stack_frame_id) => {
                self.handle_selected_stack_frame_changed(*stack_frame_id)
            },
            StackFrameListEvent::StackFramesUpdated => {
                self.handle_stack_frames_updated();
                Vec::new()
            },
        }
    }

    /// The row at position `ix` of the current stack frame.
    pub fn entry_at(&self, ix: usize) -> (r: Result<VariableListEntry, VariableListError>)
        requires
            self.wf(),
        ensures
            match r {
                Ok(row) => ix < current_rows(self@).len() && row@ == current_rows(self@)[ix as int],
                Err(error) => ix >= current_rows(self@).len() && error
                    == (VariableListError::OutOfBoundsRowAccess {
                    index: ix,
                    len: current_rows(self@).len() as usize,
                }),
            },
    {
        let mut rows = self.variable_list(self.current_stack_frame_id);
        let len = rows.len();
        assert(entry_row_views(rows@).len() == rows@.len());
        if ix < len {
            let ghost all = entry_row_views(rows@);
            let row = rows.remove(ix);
            assert(row@ == all[ix as int]);
            Ok(row)
        } else {
            Err(VariableListError::OutOfBoundsRowAccess { index: ix, len })
        }
    }

    /// The variable whose value is being edited, if one is.
    pub fn set_variable_state(&self) -> (r: &Option<SetVariableState>)
        ensures
            set_variable_state_of(*r) == self@.set_variable_state,
    {
        &self.set_variable_state
    }

    /// Starts editing the value of `variable`, a child of
    /// `parent_variables_reference` under `scope` in the stack frame shown,
    /// and hands back the text to edit: the value as it is.
    pub fn begin_set_variable_value(
        &mut self,
        parent_variables_reference: u64,
        scope: &Scope,
        variable: &Variable,
    ) -> (text: String)
        requires
            old(self).wf(),
        ensures
            final(self).wf(),
            text@ == variable@.value,
            final(self)@ == (VariableListView {
                set_variable_state: Some(
                    SetVariableStateView {
                        name: variable@.name,
                        scope: scope@,
                        value: variable@.value,
                        stack_frame_id: old(self)@.current_stack_frame_id,
                        evaluate_name: variable@.evaluate_name,
                        parent_variables_reference,
                    },
                ),
                ..old(self)@
            }),
    {
        self.set_variable_state = Some(
            SetVariableState {
                name: variable.name.clone(),
                scope: scope.clone(),
                value: variable.value.clone(),
                stack_frame_id: self.current_stack_frame_id,
                evaluate_name: clone_text(&variable.evaluate_name),
                parent_variables_reference,
            },
        );
        variable.value.clone()
    }

    /// Stops editing without changing anything.
    pub fn cancel_set_variable_value(&mut self)
        requires
            old(self).wf(),
        ensures
            final(self).wf(),
            final(self)@ == (VariableListView { set_variable_state: None, ..old(self)@ }),
    {
        self.set_variable_state = None;
    }

    /// Ends editing with `new_variable_value` as the text entered. The
    /// variable is to be set to it if a variable was being edited, the text
    /// differs from the value it had, and the stack frame shown is still the
    /// one in which editing began; the request to make is handed back.
    pub fn set_variable_value(&mut self, new_variable_value: String) -> (request: Option<
        SetVariableRequest,
    >)
        requires
            old(self).wf(),
        ensures
            final(self).wf(),
            final(self)@ == (VariableListView { set_variable_state: None, ..old(self)@ }),
            set_variable_request_of(request) == requested_value(old(self)@, new_variable_value@),
    {
        let state = self.set_variable_state.take();
        match state {
            None => None,
            Some(state) => {
                if new_variable_value == state.value || state.stack_frame_id
                    != self.current_stack_frame_id {
                    None
                } else {
                    Some(
                        SetVariableRequest {
                            parent_variables_reference: state.parent_variables_reference,
                            name: state.name,
                            value: new_variable_value,
                        },
                    )
                }
            },
        }
    }

    /// Selects the first row of the current stack frame. Nothing changes if
    /// the frame is not known.
    pub fn select_first(&mut self)
        requires
            old(self).wf(),
        ensures
            final(self).wf(),
            final(self)@ == (VariableListView {
                selection: if current_frame_known(old(self)@) {
                    first_selection(current_rows(old(self)@))
                } else {
                    old(self)@.selection
                },
                ..old(self)@
            }),
    {
        if self.scopes.contains_key(&self.current_stack_frame_id) {
            let rows = self.variable_list(self.current_stack_frame_id);
            self.selection = crate::selection::select_first(&rows);
        }
    }

    /// Selects the last row of the current stack frame. Nothing changes if
    /// the frame is not known.
    pub fn select_last(&mut self)
        requires
            old(self).wf(),
        ensures
            final(self).wf(),
            final(self)@ == (VariableListView {
                selection: if current_frame_known(old(self)@) {
                    last_selection(current_rows(old(self)@))
                } else {
                    old(self)@.selection
                },
                ..old(self)@
            }),
    {
        if self.scopes.contains_key(&self.current_stack_frame_id) {
            let rows = self.variable_list(self.current_stack_frame_id);
            self.selection = crate::selection::select_last(&rows);
        }
    }

    /// Moves the selection one row down, staying on the last row; selects
    /// the first row if nothing is selected. Nothing changes if the frame is
    /// not known or no row shows the selected node.
    pub fn select_next(&mut self)
        requires
            old(self).wf(),
        ensures
            final(self).wf(),
            final(self)@ == (VariableListView {
                selection: if current_frame_known(old(self)@) {
                    next_selection(current_rows(old(self)@), old(self)@.selection)
                } else {
                    old(self)@.selection
                },
                ..old(self)@
            }),
    {
        if self.scopes.contains_key(&self.current_stack_frame_id) {
            let rows = self.variable_list(self.current_stack_frame_id);
            self.selection = crate::selection::select_next(&rows, &self.selection);
        }
    }

    /// Moves the selection one row up, staying on the first row; selects the
    /// first row if nothing is selected. Nothing changes if the frame is not
    /// known or no row shows the selected node.
    pub fn select_prev(&mut self)
        requires
            old(self).wf(),
        ensures
            final(self).wf(),
            final(self)@ == (VariableListView {
                selection: if current_frame_known(old(self)@) {
                    previous_selection(current_rows(old(self)@), old(self)@.selection)
                } else {
                    old(self)@.selection
                },
                ..old(self)@
            }),
    {
        if self.scopes.contains_key(&self.current_stack_frame_id) {
            let rows = self.variable_list(self.current_stack_frame_id);
            self.selection = crate::selection::select_prev(&rows, &self.selection);
        }
    }
}

} // verus!
