use crate::geometry::{px, Pixels};
use crate::text::{decimal, decimal_text, on_one_line, one_line};
use crate::variable::{
    entry_row_views, row_entry_id, Scope, ScopeView, Variable, VariableListEntry,
    VariableListEntryView, VariableView,
};
use crate::variable_list::{
    current_rows, row_disclosed, scope_id_above, VariableList, VariableListError,
    VariableListView,
};
use vstd::prelude::*;
use vstd::string::*;

verus! {

/// The colours of the theme that a row is drawn with.
#[derive(Clone, Copy, Debug, PartialEq, Eq, Structural)]
pub enum ThemeColor {
    PanelBackground,
    GhostElementHover,
    GhostElementSelected,
}

/// The colours a row can take.
#[derive(Clone, Copy, Debug, PartialEq, Eq, Structural)]
pub struct EntryColors {
    pub default: ThemeColor,
    pub hover: ThemeColor,
    pub marked_active: ThemeColor,
}

/// The colours a row can take.
pub fn get_entry_color() -> (r: EntryColors)
    ensures
        r == entry_colors(),
{
    EntryColors {
        default: ThemeColor::PanelBackground,
        hover: ThemeColor::GhostElementHover,
        marked_active: ThemeColor::GhostElementSelected,
    }
}

/// The colours a row can take.
pub open spec fn entry_colors() -> EntryColors {
    EntryColors {
        default: ThemeColor::PanelBackground,
        hover: ThemeColor::GhostElementHover,
        marked_active: ThemeColor::GhostElementSelected,
    }
}

/// How a row is to be drawn.
#[derive(Debug, PartialEq, Eq)]
pub struct RenderedEntry {
    /// Identifies the element of the row among all elements
    pub element_id: String,
    /// Identifies the list item inside the element
    pub item_id: String,
    /// Steps by which the row is indented
    pub indent_level: usize,
    /// Width of one step
    pub indent_step_size: Pixels,
    /// Whether the row has a disclosure control that can be clicked: whether
    /// its node can have children
    pub has_disclosure: bool,
    /// Whether the row is drawn as expanded
    pub disclosed: bool,
    /// The name shown
    pub label: String,
    /// The value shown beside the name, on one line; none for a scope
    pub value: Option<String>,
    /// Background while the pointer is over the row
    pub hover_background: ThemeColor,
    pub border_color: ThemeColor,
}

/// Mathematical value of a [`RenderedEntry`].
pub ghost struct RenderedEntryView {
    pub element_id: Seq<char>,
    pub item_id: Seq<char>,
    pub indent_level: nat,
    pub indent_step_size: Pixels,
    pub has_disclosure: bool,
    pub disclosed: bool,
    pub label: Seq<char>,
    pub value: Option<Seq<char>>,
    pub hover_background: ThemeColor,
    pub border_color: ThemeColor,
}

impl View for RenderedEntry {
    type V = RenderedEntryView;

    open spec fn view(&self) -> RenderedEntryView {
        RenderedEntryView {
            element_id: self.element_id@,
            item_id: self.item_id@,
            indent_level: self.indent_level as nat,
            indent_step_size: self.indent_step_size,
            has_disclosure: self.has_disclosure,
            disclosed: self.disclosed,
            label: self.label@,
            value: crate::variable::text_of(self.value),
            hover_background: self.hover_background,
            border_color: self.border_color,
        }
    }
}

/// Background of a row while the pointer is over it: a selected row does not
/// change.
pub open spec fn hover_background(is_selected: bool) -> ThemeColor {
    if !is_selected {
        entry_colors().hover
    } else {
        entry_colors().default
    }
}

/// Border of a row: marked if the row is selected.
pub open spec fn border_color(is_selected: bool) -> ThemeColor {
    if is_selected {
        entry_colors().marked_active
    } else {
        entry_colors().default
    }
}

/// How the row of a variable is drawn.
pub open spec fn rendered_variable(
    variable: VariableView,
    depth: nat,
    disclosed: bool,
    is_selected: bool,
) -> RenderedEntryView {
    RenderedEntryView {
        element_id: "variable-"@ + variable.name + "-"@ + decimal_text(depth),
        item_id: "variable-item-"@ + variable.name + "-"@ + decimal_text(depth),
        indent_level: depth,
        indent_step_size: Pixels(20000),
        has_disclosure: variable.container_reference > 0,
        disclosed,
        label: variable.name,
        value: Some(on_one_line(variable.value)),
        hover_background: hover_background(is_selected),
        border_color: border_color(is_selected),
    }
}

/// How the header of a scope is drawn.
pub open spec fn rendered_scope(
    scope: ScopeView,
    disclosed: bool,
    is_selected: bool,
) -> RenderedEntryView {
    RenderedEntryView {
        element_id: decimal_text(scope.container_reference as nat),
        item_id: "scope-"@ + decimal_text(scope.container_reference as nat),
        indent_level: 1,
        indent_step_size: Pixels(20000),
        has_disclosure: scope.container_reference > 0,
        disclosed,
        label: scope.name,
        value: None,
        hover_background: hover_background(is_selected),
        border_color: border_color(is_selected),
    }
}

/// How the row at position `at` of the stack frame shown is drawn in the
/// list `v`: marked if its node is selected.
pub open spec fn rendered_row(v: VariableListView, at: int) -> RenderedEntryView {
    let row = current_rows(v)[at];
    let disclosed = row_disclosed(v, at);
    let is_selected = v.selection == Some(row_entry_id(row));
    match row {
        VariableListEntryView::Scope(scope) => rendered_scope(scope, disclosed, is_selected),
        VariableListEntryView::Variable { variable, depth, .. } => rendered_variable(
            variable,
            depth,
            disclosed,
            is_selected,
        ),
    }
}

fn hover_background_for(is_selected: bool) -> (r: ThemeColor)
    ensures
        r == hover_background(is_selected),
{
    let colors = get_entry_color();
    if !is_selected {
        colors.hover
    } else {
        colors.default
    }
}

fn border_color_for(is_selected: bool) -> (r: ThemeColor)
    ensures
        r == border_color(is_selected),
{
    let colors = get_entry_color();
    if is_selected {
        colors.marked_active
    } else {
        colors.default
    }
}

/// How the row of `variable`, shown at `depth`, is to be drawn.
pub fn render_variable(variable: &Variable, depth: usize, disclosed: bool, is_selected: bool) -> (r:
    RenderedEntry)
    ensures
        r@ == rendered_variable(variable@, depth as nat, disclosed, is_selected),
{
    let depth_text = decimal(depth as u64);
    let mut element_id = "variable-".to_owned();
    element_id.append(variable.name.as_str());
    element_id.append("-");
    element_id.append(depth_text.as_str());
    let mut item_id = "variable-item-".to_owned();
    item_id.append(variable.name.as_str());
    item_id.append("-");
    item_id.append(depth_text.as_str());
    RenderedEntry {
        element_id,
        item_id,
        indent_level: depth,
        indent_step_size: px(20),
        has_disclosure: variable.container_reference > 0,
        disclosed,
        label: variable.name.clone(),
        value: Some(one_line(variable.value.as_str())),
        hover_background: hover_background_for(is_selected),
        border_color: border_color_for(is_selected),
    }
}

/// How the header of `scope` is to be drawn.
pub fn render_scope(scope: &Scope, disclosed: bool, is_selected: bool) -> (r: RenderedEntry)
    ensures
        r@ == rendered_scope(scope@, disclosed, is_selected),
{
    let reference = decimal(scope.container_reference);
    let mut item_id = "scope-".to_owned();
    item_id.append(reference.as_str());
    RenderedEntry {
        element_id: reference,
        item_id,
        indent_level: 1,
        indent_step_size: px(20),
        has_disclosure: scope.container_reference > 0,
        disclosed,
        label: scope.name.clone(),
        value: None,
        hover_background: hover_background_for(is_selected),
        border_color: border_color_for(is_selected),
    }
}

impl VariableList {
    /// How the row at position `ix` of the stack frame shown is to be
    /// drawn. A position beyond the rows is an error of the caller, who
    /// counted other rows than there are.
    pub fn render_entry(&self, ix: usize) -> (r: Result<RenderedEntry, VariableListError>)
        requires
            self.wf(),
        ensures
            match r {
                Ok(entry) => ix < current_rows(self@).len() && entry@ == rendered_row(
                    self@,
                    ix as int,
                ),
                Err(error) => ix >= current_rows(self@).len() && error
                    == (VariableListError::OutOfBoundsRowAccess {
                    index: ix,
                    len: current_rows(self@).len() as usize,
                }),
            },
    {
        let frame = self.current_stack_frame_id();
        let rows = self.variable_list(frame);
        assert(entry_row_views(rows@).len() == rows@.len());
        if ix >= rows.len() {
            return Err(VariableListError::OutOfBoundsRowAccess { index: ix, len: rows.len() });
        }
        let row = &rows[ix];
        assert(entry_row_views(rows@)[ix as int] == row@);
        let id = row.entry_id();
        let reference = row.container_reference();
        let cached = match scope_id_above(&rows, ix) {
            Some(scope_id) => self.is_fetched(frame, scope_id, reference),
            None => false,
        };
        let disclosed = reference > 0 && cached && self.open_entries().is_open(&id);
        let is_selected = match self.selection() {
            Some(selection) => selection.same(&id),
            None => false,
        };
        match row {
            VariableListEntry::Scope(scope) => Ok(render_scope(scope, disclosed, is_selected)),
            VariableListEntry::Variable { variable, depth, .. } => Ok(
                render_variable(variable, *depth, disclosed, is_selected),
            ),
        }
    }

    /// The number of rows to draw: those of the stack frame shown while a
    /// thread is stopped, none otherwise.
    pub fn row_count(&self, has_current_thread: bool) -> (n: usize)
        requires
            self.wf(),
        ensures
            n == if has_current_thread {
                current_rows(self@).len()
            } else {
                0
            },
    {
        if has_current_thread {
            let rows = self.variable_list(self.current_stack_frame_id());
            assert(entry_row_views(rows@).len() == rows@.len());
            rows.len()
        } else {
            0
        }
    }
}

} // verus!
