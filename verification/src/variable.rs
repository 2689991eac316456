use crate::open_entry::{OpenEntry, OpenEntryView};
use vstd::prelude::*;

verus! {

/// Value of an optional string.
pub open spec fn text_of(o: Option<String>) -> Option<Seq<char>> {
    match o {
        Some(s) => Some(s@),
        None => None,
    }
}

/// Copies an optional string.
pub fn clone_text(o: &Option<String>) -> (r: Option<String>)
    ensures
        text_of(r) == text_of(*o),
{
    match o {
        Some(s) => Some(s.clone()),
        None => None,
    }
}

/// What a scope groups, as far as a debug session tells.
#[derive(Clone, Copy, Debug, PartialEq, Eq, Structural)]
pub enum ScopePresentationHint {
    Arguments,
    Locals,
    Registers,
    ReturnValue,
    Unknown,
}

/// A named group of variables in one stack frame.
#[derive(Debug, PartialEq, Eq)]
pub struct Scope {
    pub name: String,
    /// Handle under which the scope's variables are fetched; 0 if it has none.
    pub container_reference: u64,
    pub presentation_hint: ScopePresentationHint,
    pub source: Option<String>,
}

/// Mathematical value of a [`Scope`].
pub ghost struct ScopeView {
    pub name: Seq<char>,
    pub container_reference: u64,
    pub presentation_hint: ScopePresentationHint,
    pub source: Option<Seq<char>>,
}

impl View for Scope {
    type V = ScopeView;

    open spec fn view(&self) -> ScopeView {
        ScopeView {
            name: self.name@,
            container_reference: self.container_reference,
            presentation_hint: self.presentation_hint,
            source: text_of(self.source),
        }
    }
}

impl Clone for Scope {
    fn clone(&self) -> (r: Self)
        ensures
            r@ == self@,
    {
        Scope {
            name: self.name.clone(),
            container_reference: self.container_reference,
            presentation_hint: self.presentation_hint,
            source: clone_text(&self.source),
        }
    }
}

impl Scope {
    /// Identity under which the scope is remembered as expanded.
    pub open spec fn entry_id_spec(v: ScopeView) -> OpenEntryView {
        OpenEntryView::Scope { name: v.name }
    }

    /// Identity under which the scope is remembered as expanded.
    pub fn entry_id(&self) -> (r: OpenEntry)
        ensures
            r@ == Self::entry_id_spec(self@),
    {
        OpenEntry::Scope { name: self.name.clone() }
    }
}

/// One variable as a debug session reports it.
#[derive(Debug, PartialEq, Eq)]
pub struct Variable {
    pub name: String,
    pub value: String,
    pub type_: Option<String>,
    pub evaluate_name: Option<String>,
    /// Handle under which the variable's children are fetched; 0 if it has none.
    pub container_reference: u64,
    pub memory_reference: Option<String>,
}

/// Mathematical value of a [`Variable`].
pub ghost struct VariableView {
    pub name: Seq<char>,
    pub value: Seq<char>,
    pub type_: Option<Seq<char>>,
    pub evaluate_name: Option<Seq<char>>,
    pub container_reference: u64,
    pub memory_reference: Option<Seq<char>>,
}

impl View for Variable {
    type V = VariableView;

    open spec fn view(&self) -> VariableView {
        VariableView {
            name: self.name@,
            value: self.value@,
            type_: text_of(self.type_),
            evaluate_name: text_of(self.evaluate_name),
            container_reference: self.container_reference,
            memory_reference: text_of(self.memory_reference),
        }
    }
}

impl Clone for Variable {
    fn clone(&self) -> (r: Self)
        ensures
            r@ == self@,
    {
        Variable {
            name: self.name.clone(),
            value: self.value.clone(),
            type_: clone_text(&self.type_),
            evaluate_name: clone_text(&self.evaluate_name),
            container_reference: self.container_reference,
            memory_reference: clone_text(&self.memory_reference),
        }
    }
}

/// Values of a run of variables, in the same order.
pub open spec fn variable_views(s: Seq<Variable>) -> Seq<VariableView> {
    s.map_values(|v: Variable| v@)
}

/// A variable together with where it was found: under which container
/// reference, and how deep.
#[derive(Debug, PartialEq, Eq)]
pub struct VariableContainer {
    /// Container reference that the variable is a child of.
    pub container_reference: u64,
    pub variable: Variable,
    /// Levels below the scope; the scope's own variables have depth 1.
    pub depth: usize,
}

/// Mathematical value of a [`VariableContainer`].
pub ghost struct VariableContainerView {
    pub container_reference: u64,
    pub variable: VariableView,
    pub depth: nat,
}

impl View for VariableContainer {
    type V = VariableContainerView;

    open spec fn view(&self) -> VariableContainerView {
        VariableContainerView {
            container_reference: self.container_reference,
            variable: self.variable@,
            depth: self.depth as nat,
        }
    }
}

impl Clone for VariableContainer {
    fn clone(&self) -> (r: Self)
        ensures
            r@ == self@,
    {
        VariableContainer {
            container_reference: self.container_reference,
            variable: self.variable.clone(),
            depth: self.depth,
        }
    }
}

/// Values of a run of found variables, in the same order.
pub open spec fn container_views(s: Seq<VariableContainer>) -> Seq<VariableContainerView> {
    s.map_values(|c: VariableContainer| c@)
}

/// One row of the flattened tree.
#[derive(Debug, PartialEq, Eq)]
pub enum VariableListEntry {
    Scope(Scope),
    Variable {
        /// Name of the scope the variable is listed under.
        scope_name: String,
        variable: Variable,
        /// Levels below the scope; the scope's own variables have depth 1.
        depth: usize,
    },
}

/// Mathematical value of a [`VariableListEntry`].
pub ghost enum VariableListEntryView {
    Scope(ScopeView),
    Variable { scope_name: Seq<char>, variable: VariableView, depth: nat },
}

impl View for VariableListEntry {
    type V = VariableListEntryView;

    open spec fn view(&self) -> VariableListEntryView {
        match self {
            VariableListEntry::Scope(scope) => VariableListEntryView::Scope(scope@),
            VariableListEntry::Variable { scope_name, variable, depth } => {
                VariableListEntryView::Variable {
                    scope_name: scope_name@,
                    variable: variable@,
                    depth: *depth as nat,
                }
            },
        }
    }
}

impl Clone for VariableListEntry {
    fn clone(&self) -> (r: Self)
        ensures
            r@ == self@,
    {
        match self {
            VariableListEntry::Scope(scope) => VariableListEntry::Scope(scope.clone()),
            VariableListEntry::Variable { scope_name, variable, depth } => {
                VariableListEntry::Variable {
                    scope_name: scope_name.clone(),
                    variable: variable.clone(),
                    depth: *depth,
                }
            },
        }
    }
}

/// Values of a run of rows, in the same order.
pub open spec fn entry_row_views(s: Seq<VariableListEntry>) -> Seq<VariableListEntryView> {
    s.map_values(|e: VariableListEntry| e@)
}

/// Identity of the node a row shows.
pub open spec fn row_entry_id(row: VariableListEntryView) -> OpenEntryView {
    match row {
        VariableListEntryView::Scope(scope) => OpenEntryView::Scope { name: scope.name },
        VariableListEntryView::Variable { scope_name, variable, depth } => OpenEntryView::Variable {
            scope_name,
            name: variable.name,
            depth,
        },
    }
}

/// Whether the node a row shows can have children at all.
pub open spec fn row_has_children(row: VariableListEntryView) -> bool {
    match row {
        VariableListEntryView::Scope(scope) => scope.container_reference > 0,
        VariableListEntryView::Variable { variable, .. } => variable.container_reference > 0,
    }
}

impl VariableListEntry {
    /// Identity of the node this row shows.
    pub fn entry_id(&self) -> (r: OpenEntry)
        ensures
            r@ == row_entry_id(self@),
    {
        match self {
            VariableListEntry::Scope(scope) => OpenEntry::Scope { name: scope.name.clone() },
            VariableListEntry::Variable { scope_name, variable, depth } => OpenEntry::Variable {
                scope_name: scope_name.clone(),
                name: variable.name.clone(),
                depth: *depth,
            },
        }
    }

    /// Handle under which the children of the node are fetched; 0 if none.
    pub fn container_reference(&self) -> (r: u64)
        ensures
            r == match self@ {
                VariableListEntryView::Scope(scope) => scope.container_reference,
                VariableListEntryView::Variable { variable, .. } => variable.container_reference,
            },
    {
        match self {
            VariableListEntry::Scope(scope) => scope.container_reference,
            VariableListEntry::Variable { variable, .. } => variable.container_reference,
        }
    }

    /// Whether the node can have children, so that it is drawn with a
    /// disclosure control.
    pub fn has_children(&self) -> (r: bool)
        ensures
            r == row_has_children(self@),
    {
        self.container_reference() > 0
    }
}

} // verus!
