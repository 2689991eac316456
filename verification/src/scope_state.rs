use crate::open_entry::{OpenEntry, OpenEntryView};
use crate::scope_variable_index::ScopeVariableIndex;
use crate::variable::{variable_views, Scope, ScopeView, Variable, VariableView};
use vstd::prelude::*;

verus! {

/// Value of an optional identity.
pub open spec fn entry_of(o: Option<OpenEntry>) -> Option<OpenEntryView> {
    match o {
        Some(e) => Some(e@),
        None => None,
    }
}

/// A scope of a stack frame together with what has been fetched below it.
pub struct ScopeState {
    scope: Scope,
    index: ScopeVariableIndex,
}

/// Mathematical value of a [`ScopeState`].
pub ghost struct ScopeStateView {
    pub scope: ScopeView,
    /// Fetched lists by container reference.
    pub children: Map<u64, Seq<VariableView>>,
}

impl View for ScopeState {
    type V = ScopeStateView;

    closed spec fn view(&self) -> ScopeStateView {
        ScopeStateView { scope: self.scope@, children: self.index@ }
    }
}

/// Values of a run of scope states, in the same order.
pub open spec fn scope_state_views(s: Seq<ScopeState>) -> Seq<ScopeStateView> {
    s.map_values(|state: ScopeState| state@)
}

/// Every state in the run is well formed.
pub open spec fn scope_states_wf(s: Seq<ScopeState>) -> bool {
    forall|i: int| 0 <= i < s.len() ==> (#[trigger] s[i]).wf()
}

impl ScopeState {
    /// The index below is well formed.
    pub closed spec fn wf(&self) -> bool {
        self.index.wf()
    }

    /// The state of a scope of which nothing has been fetched yet.
    pub fn new(scope: Scope) -> (r: ScopeState)
        ensures
            r.wf(),
            r@ == (ScopeStateView {
                scope: scope@,
                children: Map::<u64, Seq<VariableView>>::empty(),
            }),
    {
        ScopeState { scope, index: ScopeVariableIndex::new() }
    }

    /// The scope itself.
    pub fn scope(&self) -> (r: &Scope)
        ensures
            r@ == self@.scope,
    {
        &self.scope
    }

    /// What has been fetched below the scope.
    pub fn index(&self) -> (r: &ScopeVariableIndex)
        requires
            self.wf(),
        ensures
            r.wf(),
            r@ == self@.children,
    {
        &self.index
    }

    /// Stores `variables` as the children of `container_reference`,
    /// replacing a list stored for it earlier.
    pub fn add_variables(&mut self, container_reference: u64, variables: Vec<Variable>)
        requires
            old(self).wf(),
        ensures
            final(self).wf(),
            final(self)@ == (ScopeStateView {
                children: old(self)@.children.insert(
                    container_reference,
                    variable_views(variables@),
                ),
                ..old(self)@
            }),
    {
        self.index.add_variables(container_reference, variables);
    }
}

} // verus!
