use crate::variable::{text_of, Scope, ScopeView, Variable};
use vstd::prelude::*;

verus! {

/// The variable whose value is being edited, as it was when editing began.
#[derive(Debug, PartialEq, Eq)]
pub struct SetVariableState {
    pub name: String,
    pub scope: Scope,
    pub value: String,
    /// The stack frame that was shown when editing began
    pub stack_frame_id: u64,
    pub evaluate_name: Option<String>,
    /// Container reference that the variable is a child of
    pub parent_variables_reference: u64,
}

/// Mathematical value of a [`SetVariableState`].
pub ghost struct SetVariableStateView {
    pub name: Seq<char>,
    pub scope: ScopeView,
    pub value: Seq<char>,
    pub stack_frame_id: u64,
    pub evaluate_name: Option<Seq<char>>,
    pub parent_variables_reference: u64,
}

impl View for SetVariableState {
    type V = SetVariableStateView;

    open spec fn view(&self) -> SetVariableStateView {
        SetVariableStateView {
            name: self.name@,
            scope: self.scope@,
            value: self.value@,
            stack_frame_id: self.stack_frame_id,
            evaluate_name: text_of(self.evaluate_name),
            parent_variables_reference: self.parent_variables_reference,
        }
    }
}

/// Value of an optional editing state.
pub open spec fn set_variable_state_of(o: Option<SetVariableState>) -> Option<
    SetVariableStateView,
> {
    match o {
        Some(state) => Some(state@),
        None => None,
    }
}

/// A request to a debug session to give a variable a new value.
#[derive(Debug, PartialEq, Eq)]
pub struct SetVariableRequest {
    /// Container reference that the variable is a child of
    pub parent_variables_reference: u64,
    pub name: String,
    pub value: String,
}

/// Mathematical value of a [`SetVariableRequest`].
pub ghost struct SetVariableRequestView {
    pub parent_variables_reference: u64,
    pub name: Seq<char>,
    pub value: Seq<char>,
}

impl View for SetVariableRequest {
    type V = SetVariableRequestView;

    open spec fn view(&self) -> SetVariableRequestView {
        SetVariableRequestView {
            parent_variables_reference: self.parent_variables_reference,
            name: self.name@,
            value: self.value@,
        }
    }
}

/// What a debug session says it can do, as far as the variable list asks.
#[derive(Clone, Copy, Debug, PartialEq, Eq)]
pub struct Capabilities {
    pub supports_set_variable: Option<bool>,
    pub supports_clipboard_context: Option<bool>,
}

/// The entries of the menu that opens on a variable.
#[derive(Clone, Copy, Debug, PartialEq, Eq, Structural)]
pub enum VariableMenuEntry {
    CopyName,
    CopyValue,
    CopyMemoryReference,
    SetValue,
}

/// Whether an optional capability is there.
pub open spec fn supported(capability: Option<bool>) -> bool {
    capability == Some(true)
}

/// The entries of the menu that opens on a variable: its name and its value
/// can always be copied, its memory reference if it has one, and its value
/// can be set if the session supports that.
pub open spec fn menu_entries(has_memory_reference: bool, supports_set_variable: bool) -> Seq<
    VariableMenuEntry,
> {
    let always = seq![VariableMenuEntry::CopyName, VariableMenuEntry::CopyValue];
    let memory = if has_memory_reference {
        always.push(VariableMenuEntry::CopyMemoryReference)
    } else {
        always
    };
    if supports_set_variable {
        memory.push(VariableMenuEntry::SetValue)
    } else {
        memory
    }
}

/// What choosing "Copy value" asks for.
#[derive(Debug, PartialEq, Eq)]
pub enum CopyValue {
    /// This text goes to the clipboard.
    Write(String),
    /// The session evaluates this expression for the clipboard, in the given
    /// stack frame.
    Evaluate { expression: String, stack_frame_id: u64, source: Option<String> },
}

/// Mathematical value of a [`CopyValue`].
pub ghost enum CopyValueView {
    Write(Seq<char>),
    Evaluate { expression: Seq<char>, stack_frame_id: u64, source: Option<Seq<char>> },
}

impl View for CopyValue {
    type V = CopyValueView;

    open spec fn view(&self) -> CopyValueView {
        match self {
            CopyValue::Write(text) => CopyValueView::Write(text@),
            CopyValue::Evaluate { expression, stack_frame_id, source } => CopyValueView::Evaluate {
                expression: expression@,
                stack_frame_id: *stack_frame_id,
                source: text_of(*source),
            },
        }
    }
}

impl VariableMenuEntry {
    /// The text of the entry.
    pub fn label(self) -> (r: &'static str)
        ensures
            r@ == match self {
                VariableMenuEntry::CopyName => "Copy name"@,
                VariableMenuEntry::CopyValue => "Copy value"@,
                VariableMenuEntry::CopyMemoryReference => "Copy memory reference"@,
                VariableMenuEntry::SetValue => "Set value"@,
            },
    {
        match self {
            VariableMenuEntry::CopyName => "Copy name",
            VariableMenuEntry::CopyValue => "Copy value",
            VariableMenuEntry::CopyMemoryReference => "Copy memory reference",
            VariableMenuEntry::SetValue => "Set value",
        }
    }
}

/// The entries of the menu that opens on `variable`.
pub fn variable_context_menu(variable: &Variable, capabilities: &Capabilities) -> (r: Vec<
    VariableMenuEntry,
>)
    ensures
        r@ == menu_entries(
            variable.memory_reference is Some,
            supported(capabilities.supports_set_variable),
        ),
{
    let mut entries: Vec<VariableMenuEntry> = Vec::new();
    entries.push(VariableMenuEntry::CopyName);
    entries.push(VariableMenuEntry::CopyValue);
    if variable.memory_reference.is_some() {
        entries.push(VariableMenuEntry::CopyMemoryReference);
    }
    let sets = match capabilities.supports_set_variable {
        Some(yes) => yes,
        None => false,
    };
    if sets {
        entries.push(VariableMenuEntry::SetValue);
    }
    assert(entries@ =~= menu_entries(
        variable.memory_reference is Some,
        supported(capabilities.supports_set_variable),
    ));
    entries
}

/// What choosing "Copy value" on `variable` asks for: where the session
/// can evaluate for the clipboard, it evaluates the variable's expression,
/// or its name if it has none, in `stack_frame_id`; elsewhere the value as
/// shown is copied.
pub fn copy_value(
    scope: &Scope,
    variable: &Variable,
    capabilities: &Capabilities,
    stack_frame_id: u64,
) -> (r: CopyValue)
    ensures
        r@ == if supported(capabilities.supports_clipboard_context) {
            CopyValueView::Evaluate {
                expression: match variable@.evaluate_name {
                    Some(expression) => expression,
                    None => variable@.name,
                },
                stack_frame_id,
                source: scope@.source,
            }
        } else {
            CopyValueView::Write(variable@.value)
        },
{
    let evaluates = match capabilities.supports_clipboard_context {
        Some(yes) => yes,
        None => false,
    };
    if evaluates {
        let expression = match &variable.evaluate_name {
            Some(expression) => expression.clone(),
            None => variable.name.clone(),
        };
        CopyValue::Evaluate {
            expression,
            stack_frame_id,
            source: crate::variable::clone_text(&scope.source),
        }
    } else {
        CopyValue::Write(variable.value.clone())
    }
}

} // verus!
