use crate::open_entries::OpenEntries;
use crate::open_entry::{OpenEntry, OpenEntryView};
use crate::scope_state::{
    entry_of, scope_state_views, scope_states_wf, ScopeState, ScopeStateView,
};
use crate::scope_variable_index::ScopeVariableIndex;
use crate::variable::{variable_views, Scope, ScopeView, Variable, VariableView};
use std::collections::HashMap;
use vstd::prelude::*;
use vstd::std_specs::hash::group_hash_axioms;

verus! {

broadcast use group_hash_axioms;

/// Identifies one frame of one paused thread.
pub type StackFrameId = u64;

/// Identifies a scope within its stack frame: the scope's container
/// reference.
pub type ScopeId = u64;

/// A request to fetch the children of one container reference.
#[derive(Clone, Copy, Debug, PartialEq, Eq, Structural)]
pub struct FetchRequest {
    pub stack_frame_id: StackFrameId,
    /// The scope under which the children belong
    pub scope_id: ScopeId,
    pub container_reference: u64,
}

/// What is remembered of a fetch while it is outstanding.
#[derive(Debug, PartialEq, Eq)]
pub struct PendingFetch {
    /// The scope under which the children belong
    pub scope_id: ScopeId,
    /// The identity to toggle when the fetch succeeds, if any
    pub entry_id: Option<OpenEntry>,
}

/// Mathematical value of a [`PendingFetch`].
pub ghost struct PendingFetchView {
    pub scope_id: ScopeId,
    pub entry_id: Option<OpenEntryView>,
}

impl View for PendingFetch {
    type V = PendingFetchView;

    open spec fn view(&self) -> PendingFetchView {
        PendingFetchView { scope_id: self.scope_id, entry_id: entry_of(self.entry_id) }
    }
}

/// Values of a run of scopes, in the same order.
pub open spec fn scope_views(s: Seq<Scope>) -> Seq<ScopeView> {
    s.map_values(|scope: Scope| scope@)
}

/// Position of the first scope identified by `scope_id`, if there is one.
pub open spec fn scope_position(states: Seq<ScopeStateView>, scope_id: ScopeId) -> Option<int>
    decreases states.len(),
{
    if states.len() == 0 {
        None
    } else if states.last().scope.container_reference == scope_id && scope_position(
        states.drop_last(),
        scope_id,
    ) is None {
        Some(states.len() - 1)
    } else {
        scope_position(states.drop_last(), scope_id)
    }
}

/// `scope_position` finds the first scope with the reference, and finds none
/// only if no scope has it.
pub proof fn scope_position_is_first(states: Seq<ScopeStateView>, scope_id: ScopeId)
    ensures
        match scope_position(states, scope_id) {
            Some(at) => {
                &&& 0 <= at < states.len()
                &&& states[at].scope.container_reference == scope_id
                &&& forall|j: int|
                    0 <= j < at ==> (#[trigger] states[j]).scope.container_reference != scope_id
            },
            None => forall|j: int|
                0 <= j < states.len() ==> (#[trigger] states[j]).scope.container_reference
                    != scope_id,
        },
    decreases states.len(),
{
    if states.len() > 0 {
        let front = states.drop_last();
        scope_position_is_first(front, scope_id);
        match scope_position(front, scope_id) {
            Some(at) => {
                assert(front[at] == states[at]);
                assert forall|j: int| 0 <= j < at implies (
                #[trigger] states[j]).scope.container_reference != scope_id by {
                    assert(front[j] == states[j]);
                }
            },
            None => {
                assert forall|j: int| 0 <= j < states.len() - 1 implies (
                #[trigger] states[j]).scope.container_reference != scope_id by {
                    assert(front[j] == states[j]);
                }
            },
        }
    }
}

/// No two scopes have the same reference.
pub open spec fn distinct_scopes(states: Seq<ScopeStateView>) -> bool {
    forall|i: int, j: int|
        0 <= i < j < states.len() ==> (#[trigger] states[i]).scope.container_reference != (
        #[trigger] states[j]).scope.container_reference
}

/// Replacing the state of a scope by a state of a scope with the same
/// reference keeps the references distinct.
pub proof fn update_keeps_distinct(states: Seq<ScopeStateView>, at: int, state: ScopeStateView)
    requires
        distinct_scopes(states),
        0 <= at < states.len(),
        state.scope.container_reference == states[at].scope.container_reference,
    ensures
        distinct_scopes(states.update(at, state)),
{
    let after = states.update(at, state);
    assert forall|i: int, j: int| 0 <= i < j < after.len() implies (
    #[trigger] after[i]).scope.container_reference != (
    #[trigger] after[j]).scope.container_reference by {
        assert(after[i].scope.container_reference == states[i].scope.container_reference);
        assert(after[j].scope.container_reference == states[j].scope.container_reference);
    }
}

/// The state of a scope of which nothing has been fetched yet.
pub open spec fn fresh_state(scope: ScopeView) -> ScopeStateView {
    ScopeStateView { scope, children: Map::<u64, Seq<VariableView>>::empty() }
}

/// `states` with `scope` registered: a scope with the same reference is
/// replaced where it stands, a new one is added at the end.
pub open spec fn registered(states: Seq<ScopeStateView>, scope: ScopeView) -> Seq<
    ScopeStateView,
> {
    match scope_position(states, scope.container_reference) {
        Some(at) => states.update(at, fresh_state(scope)),
        None => states.push(fresh_state(scope)),
    }
}

/// `states` with each of `scopes` registered in turn.
pub open spec fn registered_all(states: Seq<ScopeStateView>, scopes: Seq<ScopeView>) -> Seq<
    ScopeStateView,
>
    decreases scopes.len(),
{
    if scopes.len() == 0 {
        states
    } else {
        registered(registered_all(states, scopes.drop_last()), scopes.last())
    }
}

/// Nothing is cached for any of the scopes.
pub open spec fn nothing_cached(states: Seq<ScopeStateView>) -> bool {
    forall|i: int|
        0 <= i < states.len() ==> (#[trigger] states[i]).children == Map::<
            u64,
            Seq<VariableView>,
        >::empty()
}

/// Scopes registered one after the other have references of their own and
/// nothing cached.
pub proof fn registered_all_is_fresh(scopes: Seq<ScopeView>)
    ensures
        distinct_scopes(registered_all(Seq::<ScopeStateView>::empty(), scopes)),
        nothing_cached(registered_all(Seq::<ScopeStateView>::empty(), scopes)),
    decreases scopes.len(),
{
    if scopes.len() > 0 {
        registered_all_is_fresh(scopes.drop_last());
        let before = registered_all(Seq::<ScopeStateView>::empty(), scopes.drop_last());
        let scope = scopes.last();
        scope_position_is_first(before, scope.container_reference);
        match scope_position(before, scope.container_reference) {
            Some(at) => {
                update_keeps_distinct(before, at, fresh_state(scope));
            },
            None => {
                let after = before.push(fresh_state(scope));
                assert forall|i: int, j: int| 0 <= i < j < after.len() implies (
                #[trigger] after[i]).scope.container_reference != (
                #[trigger] after[j]).scope.container_reference by {
                    assert(after[i] == before[i]);
                    if j < before.len() {
                        assert(after[j] == before[j]);
                    }
                }
            },
        }
    }
}

/// Mathematical value of a [`FrameState`].
pub ghost struct FrameStateView {
    /// The scopes in display order, each with what is cached below it.
    pub scopes: Seq<ScopeStateView>,
    /// The fetches outstanding, by the container reference they fetch.
    pub fetching: Map<u64, PendingFetchView>,
}

/// The state of the scope identified by `scope_id`, if the frame has such a
/// scope.
pub open spec fn state_of(frame: FrameStateView, scope_id: ScopeId) -> Option<ScopeStateView> {
    match scope_position(frame.scopes, scope_id) {
        Some(at) => Some(frame.scopes[at]),
        None => None,
    }
}

/// `frame` with `children` cached for `container_reference` under the scope
/// identified by `scope_id`. Unchanged if there is no such scope.
pub open spec fn frame_with_children(
    frame: FrameStateView,
    scope_id: ScopeId,
    container_reference: u64,
    children: Seq<VariableView>,
) -> FrameStateView {
    match scope_position(frame.scopes, scope_id) {
        Some(at) => FrameStateView {
            scopes: frame.scopes.update(
                at,
                ScopeStateView {
                    children: frame.scopes[at].children.insert(container_reference, children),
                    ..frame.scopes[at]
                },
            ),
            ..frame
        },
        None => frame,
    }
}

/// The identity recorded with the outstanding fetch of `container_reference`
/// for the scope identified by `scope_id`, if such a fetch is outstanding.
pub open spec fn frame_outstanding(
    frame: FrameStateView,
    scope_id: ScopeId,
    container_reference: u64,
) -> Option<Option<OpenEntryView>> {
    if frame.fetching.contains_key(container_reference)
        && frame.fetching[container_reference].scope_id == scope_id {
        Some(frame.fetching[container_reference].entry_id)
    } else {
        None
    }
}

/// Whether a scope is expanded with nothing cached, while no fetch of its
/// reference is among `fetching`: showing its frame has to fetch its
/// variables.
pub open spec fn needs_refetch(
    state: ScopeStateView,
    open: Seq<OpenEntryView>,
    fetching: Map<u64, PendingFetchView>,
) -> bool {
    let reference = state.scope.container_reference;
    &&& reference > 0
    &&& open.contains(OpenEntryView::Scope { name: state.scope.name })
    &&& !state.children.contains_key(reference)
    &&& !fetching.contains_key(reference)
}

/// The fetches outstanding once the frame with these scopes is shown:
/// scope after scope, each scope that needs it gets a fetch that toggles
/// nothing when it succeeds.
pub open spec fn refetched(
    states: Seq<ScopeStateView>,
    open: Seq<OpenEntryView>,
    fetching: Map<u64, PendingFetchView>,
) -> Map<u64, PendingFetchView>
    decreases states.len(),
{
    if states.len() == 0 {
        fetching
    } else {
        let so_far = refetched(states.drop_last(), open, fetching);
        if needs_refetch(states.last(), open, so_far) {
            so_far.insert(
                states.last().scope.container_reference,
                PendingFetchView {
                    scope_id: states.last().scope.container_reference,
                    entry_id: None,
                },
            )
        } else {
            so_far
        }
    }
}

/// The fetches to issue when the frame with these scopes is shown, in the
/// order of the scopes.
pub open spec fn refetch_requests(
    states: Seq<ScopeStateView>,
    open: Seq<OpenEntryView>,
    fetching: Map<u64, PendingFetchView>,
    stack_frame_id: StackFrameId,
) -> Seq<FetchRequest>
    decreases states.len(),
{
    if states.len() == 0 {
        Seq::empty()
    } else {
        let front = refetch_requests(states.drop_last(), open, fetching, stack_frame_id);
        if needs_refetch(states.last(), open, refetched(states.drop_last(), open, fetching)) {
            front.push(
                FetchRequest {
                    stack_frame_id,
                    scope_id: states.last().scope.container_reference,
                    container_reference: states.last().scope.container_reference,
                },
            )
        } else {
            front
        }
    }
}

/// Finds the first scope identified by `scope_id`.
fn find_scope(states: &Vec<ScopeState>, scope_id: ScopeId) -> (r: Option<usize>)
    ensures
        match r {
            Some(at) => at < states.len() && scope_position(scope_state_views(states@), scope_id)
                == Some(at as int),
            None => scope_position(scope_state_views(states@), scope_id) is None,
        },
{
    let ghost views = scope_state_views(states@);
    let mut i: usize = 0;
    while i < states.len()
        invariant
            0 <= i <= states.len(),
            views == scope_state_views(states@),
            forall|j: int| 0 <= j < i ==> (#[trigger] views[j]).scope.container_reference != scope_id,
        decreases states.len() - i,
    {
        if states[i].scope().container_reference == scope_id {
            proof {
                scope_position_is_first(views, scope_id);
                assert(views[i as int].scope.container_reference == scope_id);
                let at = scope_position(views, scope_id)->0;
                assert(views[at].scope.container_reference == scope_id);
            }
            return Some(i);
        }
        i += 1;
    }
    proof {
        scope_position_is_first(views, scope_id);
    }
    None
}

/// Registers `scope` among `states`.
fn register_scope(states: &mut Vec<ScopeState>, scope: Scope)
    requires
        scope_states_wf(old(states)@),
        distinct_scopes(scope_state_views(old(states)@)),
    ensures
        scope_states_wf(final(states)@),
        distinct_scopes(scope_state_views(final(states)@)),
        scope_state_views(final(states)@) == registered(scope_state_views(old(states)@), scope@),
{
    let ghost before = scope_state_views(states@);
    proof {
        scope_position_is_first(before, scope.container_reference);
    }
    match find_scope(states, scope.container_reference) {
        Some(at) => {
            let _ = states.remove(at);
            states.insert(at, ScopeState::new(scope));
            assert(scope_state_views(states@) =~= before.update(at as int, fresh_state(scope@)));
            proof {
                update_keeps_distinct(before, at as int, fresh_state(scope@));
            }
        },
        None => {
            states.push(ScopeState::new(scope));
            assert(scope_state_views(states@) =~= before.push(fresh_state(scope@)));
            assert(distinct_scopes(before.push(fresh_state(scope@)))) by {
                let after = before.push(fresh_state(scope@));
                assert forall|i: int, j: int| 0 <= i < j < after.len() implies (
                #[trigger] after[i]).scope.container_reference != (
                #[trigger] after[j]).scope.container_reference by {
                    assert(after[i] == before[i]);
                    if j < before.len() {
                        assert(after[j] == before[j]);
                    }
                }
            }
        },
    }
}

/// What is known of one stack frame: its scopes in display order, each with
/// what is cached below it, and the fetches outstanding for it. There is at
/// most one outstanding fetch for a container reference.
pub struct FrameState {
    scopes: Vec<ScopeState>,
    fetching: HashMap<u64, PendingFetch>,
}

impl View for FrameState {
    type V = FrameStateView;

    closed spec fn view(&self) -> FrameStateView {
        FrameStateView {
            scopes: scope_state_views(self.scopes@),
            fetching: self.fetching@.map_values(|pending: PendingFetch| pending@),
        }
    }
}

impl FrameState {
    /// Every index is well formed, and no two scopes have the same
    /// reference.
    pub closed spec fn wf(&self) -> bool {
        scope_states_wf(self.scopes@) && distinct_scopes(scope_state_views(self.scopes@))
    }

    /// The scopes of a well-formed frame have references of their own.
    pub proof fn wf_has_distinct_scopes(&self)
        requires
            self.wf(),
        ensures
            distinct_scopes(self@.scopes),
    {
    }

    /// A frame with `scopes`, registered in turn, nothing cached and no
    /// fetch outstanding.
    pub fn new(scopes: Vec<Scope>) -> (r: FrameState)
        ensures
            r.wf(),
            r@ == (FrameStateView {
                scopes: registered_all(Seq::<ScopeStateView>::empty(), scope_views(scopes@)),
                fetching: Map::<u64, PendingFetchView>::empty(),
            }),
    {
        let ghost all = scope_views(scopes@);
        let mut states: Vec<ScopeState> = Vec::new();
        let mut i: usize = 0;
        assert(scope_state_views(states@) =~= Seq::<ScopeStateView>::empty());
        assert(all.take(0) =~= Seq::<ScopeView>::empty());
        while i < scopes.len()
            invariant
                0 <= i <= scopes.len(),
                all == scope_views(scopes@),
                scope_states_wf(states@),
                distinct_scopes(scope_state_views(states@)),
                scope_state_views(states@) == registered_all(
                    Seq::<ScopeStateView>::empty(),
                    all.take(i as int),
                ),
            decreases scopes.len() - i,
        {
            proof {
                assert(all.take(i + 1).drop_last() =~= all.take(i as int));
                assert(all.take(i + 1).last() == scopes[i as int]@);
            }
            register_scope(&mut states, scopes[i].clone());
            i += 1;
        }
        assert(all.take(scopes.len() as int) =~= all);
        let r = FrameState { scopes: states, fetching: HashMap::new() };
        assert(r@.fetching =~= Map::<u64, PendingFetchView>::empty());
        r
    }

    /// The scopes in display order.
    pub fn scopes(&self) -> (r: &Vec<ScopeState>)
        requires
            self.wf(),
        ensures
            scope_states_wf(r@),
            scope_state_views(r@) == self@.scopes,
    {
        &self.scopes
    }

    /// What has been fetched for the scope identified by `scope_id`, if the
    /// frame has such a scope.
    pub fn variables_by_scope(&self, scope_id: ScopeId) -> (r: Option<&ScopeVariableIndex>)
        requires
            self.wf(),
        ensures
            match r {
                Some(index) => index.wf() && state_of(self@, scope_id) is Some && index@
                    == state_of(self@, scope_id)->0.children,
                None => state_of(self@, scope_id) is None,
            },
    {
        match find_scope(&self.scopes, scope_id) {
            Some(at) => Some(self.scopes[at].index()),
            None => None,
        }
    }

    /// Whether a fetch of `container_reference` is outstanding.
    pub fn is_fetching(&self, container_reference: u64) -> (r: bool)
        ensures
            r == self@.fetching.contains_key(container_reference),
    {
        self.fetching.contains_key(&container_reference)
    }

    /// Caches `children` as the children of `container_reference` under the
    /// scope identified by `scope_id`, in the place of any list cached for
    /// it before; says whether there is such a scope.
    pub fn add_variables(
        &mut self,
        scope_id: ScopeId,
        container_reference: u64,
        children: Vec<Variable>,
    ) -> (stored: bool)
        requires
            old(self).wf(),
        ensures
            final(self).wf(),
            stored == state_of(old(self)@, scope_id).is_some(),
            final(self)@ == frame_with_children(
                old(self)@,
                scope_id,
                container_reference,
                variable_views(children@),
            ),
    {
        let ghost before = scope_state_views(self.scopes@);
        match find_scope(&self.scopes, scope_id) {
            None => false,
            Some(at) => {
                let mut state = self.scopes.remove(at);
                state.add_variables(container_reference, children);
                proof {
                    update_keeps_distinct(before, at as int, state@);
                }
                self.scopes.insert(at, state);
                assert(scope_state_views(self.scopes@) =~= before.update(at as int, state@));
                true
            },
        }
    }

    /// Records that the fetch of `container_reference` for the scope
    /// identified by `scope_id` has been issued, and which identity is to be
    /// toggled when it succeeds.
    pub fn begin_fetch(
        &mut self,
        scope_id: ScopeId,
        container_reference: u64,
        entry_id: Option<OpenEntry>,
    )
        requires
            old(self).wf(),
        ensures
            final(self).wf(),
            final(self)@ == (FrameStateView {
                fetching: old(self)@.fetching.insert(
                    container_reference,
                    PendingFetchView { scope_id, entry_id: entry_of(entry_id) },
                ),
                ..old(self)@
            }),
    {
        let _ = self.fetching.insert(container_reference, PendingFetch { scope_id, entry_id });
        assert(self@.fetching =~= old(self)@.fetching.insert(
            container_reference,
            PendingFetchView { scope_id, entry_id: entry_of(entry_id) },
        ));
    }

    /// Forgets the outstanding fetch of `container_reference` for the scope
    /// identified by `scope_id`, if there is one, and hands back the
    /// identity recorded with it.
    pub fn end_fetch(&mut self, scope_id: ScopeId, container_reference: u64) -> (r: Option<
        Option<OpenEntry>,
    >)
        requires
            old(self).wf(),
        ensures
            final(self).wf(),
            match r {
                Some(entry_id) => {
                    &&& frame_outstanding(old(self)@, scope_id, container_reference) == Some(
                        entry_of(entry_id),
                    )
                    &&& final(self)@ == (FrameStateView {
                        fetching: old(self)@.fetching.remove(container_reference),
                        ..old(self)@
                    })
                },
                None => {
                    &&& frame_outstanding(old(self)@, scope_id, container_reference) is None
                    &&& final(self)@ == old(self)@
                },
            },
    {
        let matches = match self.fetching.get(&container_reference) {
            Some(pending) => pending.scope_id == scope_id,
            None => false,
        };
        if !matches {
            return None;
        }
        match self.fetching.remove(&container_reference) {
            Some(pending) => {
                assert(self@.fetching =~= old(self)@.fetching.remove(container_reference));
                Some(pending.entry_id)
            },
            None => None,
        }
    }

    /// Issues the fetches that showing the frame asks for: scope after
    /// scope, one for each scope that is expanded with nothing cached and no
    /// fetch of its reference outstanding. The requests are handed back in
    /// the order of the scopes.
    pub fn refetch(&mut self, open: &OpenEntries, stack_frame_id: StackFrameId) -> (requests: Vec<
        FetchRequest,
    >)
        requires
            old(self).wf(),
            open.wf(),
        ensures
            final(self).wf(),
            final(self)@ == (FrameStateView {
                fetching: refetched(old(self)@.scopes, open@, old(self)@.fetching),
                ..old(self)@
            }),
            requests@ == refetch_requests(
                old(self)@.scopes,
                open@,
                old(self)@.fetching,
                stack_frame_id,
            ),
    {
        let mut requests: Vec<FetchRequest> = Vec::new();
        let ghost states = scope_state_views(self.scopes@);
        let ghost before = self@.fetching;
        let mut i: usize = 0;
        assert(states.take(0) =~= Seq::<ScopeStateView>::empty());
        while i < self.scopes.len()
            invariant
                0 <= i <= self.scopes.len(),
                self.wf(),
                open.wf(),
                states == scope_state_views(self.scopes@),
                states.len() == self.scopes@.len(),
                self@.scopes == states,
                self@.fetching == refetched(states.take(i as int), open@, before),
                requests@ == refetch_requests(states.take(i as int), open@, before, stack_frame_id),
            decreases self.scopes.len() - i,
        {
            proof {
                assert(states.take(i + 1).drop_last() =~= states.take(i as int));
                assert(states.take(i + 1).last() == self.scopes[i as int]@);
            }
            let reference = self.scopes[i].scope().container_reference;
            let key = self.scopes[i].scope().entry_id();
            let needs = reference > 0 && open.is_open(&key) && !self.scopes[i].index().fetched(
                &reference,
            ) && !self.fetching.contains_key(&reference);
            if needs {
                self.begin_fetch(reference, reference, None);
                assert(self@.scopes.len() == self.scopes@.len());
                requests.push(
                    FetchRequest {
                        stack_frame_id,
                        scope_id: reference,
                        container_reference: reference,
                    },
                );
            }
            i += 1;
        }
        assert(states.take(self.scopes.len() as int) =~= states);
        requests
    }
}

} // verus!
