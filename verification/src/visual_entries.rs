use crate::variable::{entry_row_views, row_entry_id, VariableListEntry, VariableListEntryView};
use crate::variable_list::{current_rows, VariableList, VariableListView};
use vstd::prelude::*;
use vstd::string::*;

verus! {

/// The white space in front of a row `depth` levels below its scope: four
/// blanks for each level.
pub open spec fn indent(depth: nat) -> Seq<char>
    decreases depth,
{
    if depth == 0 {
        Seq::empty()
    } else {
        indent((depth - 1) as nat) + "    "@
    }
}

/// One row as a line of text: its indentation, `v` if it is expanded and `>`
/// if it is not, its name, and a mark if it is selected.
pub open spec fn visual_entry(row: VariableListEntryView, expanded: bool, selected: bool) -> Seq<
    char,
> {
    let marker = if expanded {
        "v"@
    } else {
        ">"@
    };
    let mark = if selected {
        " <=== selected"@
    } else {
        Seq::<char>::empty()
    };
    match row {
        VariableListEntryView::Scope(scope) => marker + " "@ + scope.name + mark,
        VariableListEntryView::Variable { variable, depth, .. } => indent(depth) + marker + " "@
            + variable.name + mark,
    }
}

/// The line of text for `row` in the list `v`.
pub open spec fn visual_entry_in(v: VariableListView, row: VariableListEntryView) -> Seq<char> {
    visual_entry(
        row,
        v.open.contains(row_entry_id(row)),
        v.selection == Some(row_entry_id(row)),
    )
}

/// The rows of the stack frame shown as lines of text.
pub open spec fn visual_entries_of(v: VariableListView) -> Seq<Seq<char>> {
    current_rows(v).map_values(|row: VariableListEntryView| visual_entry_in(v, row))
}

/// Values of a run of strings, in the same order.
pub open spec fn line_views(lines: Seq<String>) -> Seq<Seq<char>> {
    lines.map_values(|line: String| line@)
}

/// Values of a run of string slices, in the same order.
pub open spec fn text_views(lines: Seq<&str>) -> Seq<Seq<char>> {
    lines.map_values(|line: &str| line@)
}

/// The white space in front of a row `depth` levels below its scope.
fn indentation(depth: usize) -> (r: String)
    ensures
        r@ == indent(depth as nat),
{
    let mut out = String::new();
    let mut i: usize = 0;
    while i < depth
        invariant
            0 <= i <= depth,
            out@ == indent(i as nat),
        decreases depth - i,
    {
        out.append("    ");
        i += 1;
    }
    out
}

impl VariableList {
    /// The rows of the stack frame shown as lines of text, one line for a
    /// row.
    pub fn visual_entries(&self) -> (lines: Vec<String>)
        requires
            self.wf(),
        ensures
            line_views(lines@) == visual_entries_of(self@),
    {
        let rows = self.variable_list(self.current_stack_frame_id());
        let ghost views = entry_row_views(rows@);
        let mut lines: Vec<String> = Vec::new();
        let mut i: usize = 0;
        while i < rows.len()
            invariant
                self.wf(),
                0 <= i <= rows.len(),
                views == entry_row_views(rows@),
                views == current_rows(self@),
                lines.len() == i,
                forall|j: int| 0 <= j < i ==> (#[trigger] lines[j])@ == visual_entry_in(self@, views[j]),
            decreases rows.len() - i,
        {
            let row = &rows[i];
            assert(views[i as int] == row@);
            let id = row.entry_id();
            let expanded = self.open_entries().is_open(&id);
            let selected = match self.selection() {
                Some(selection) => selection.same(&id),
                None => false,
            };
            let mut line = match row {
                VariableListEntry::Scope(_) => String::new(),
                VariableListEntry::Variable { depth, .. } => indentation(*depth),
            };
            line.append(
                if expanded {
                    "v"
                } else {
                    ">"
                },
            );
            line.append(" ");
            match row {
                VariableListEntry::Scope(scope) => line.append(scope.name.as_str()),
                VariableListEntry::Variable { variable, .. } => line.append(variable.name.as_str()),
            }
            if selected {
                line.append(" <=== selected");
            }
            proof {
                let expected = visual_entry_in(self@, views[i as int]);
                assert(line@ =~= expected);
            }
            lines.push(line);
            i += 1;
        }
        assert(line_views(lines@) =~= visual_entries_of(self@));
        lines
    }

    /// Whether the rows of the stack frame shown, as lines of text, are
    /// exactly `expected`.
    pub fn assert_visual_entries(&self, expected: Vec<&str>) -> (matches: bool)
        requires
            self.wf(),
        ensures
            matches == (text_views(expected@) == visual_entries_of(self@)),
    {
        let lines = self.visual_entries();
        let ghost wanted = text_views(expected@);
        let ghost shown = visual_entries_of(self@);
        assert(shown.len() == lines.len());
        if expected.len() != lines.len() {
            assert(wanted.len() != shown.len());
            return false;
        }
        let mut i: usize = 0;
        while i < lines.len()
            invariant
                0 <= i <= lines.len(),
                expected.len() == lines.len(),
                wanted == text_views(expected@),
                shown == line_views(lines@),
                shown == visual_entries_of(self@),
                forall|j: int| 0 <= j < i ==> wanted[j] == shown[j],
            decreases lines.len() - i,
        {
            let want = expected[i].to_owned();
            if want != lines[i] {
                assert(wanted[i as int] != shown[i as int]);
                assert(wanted != shown);
                return false;
            }
            i += 1;
        }
        assert(wanted =~= shown);
        true
    }
}

} // verus!
