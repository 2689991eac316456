use debugger_ui::geometry::px;
use debugger_ui::open_entry::OpenEntry;
use debugger_ui::render::{
    get_entry_color, render_scope, render_variable, RenderedEntry, ThemeColor,
};
use debugger_ui::set_variable::{
    copy_value, variable_context_menu, Capabilities, CopyValue, VariableMenuEntry,
};
use debugger_ui::text::{decimal, one_line};
use debugger_ui::variable::{Scope, ScopePresentationHint, Variable};
use debugger_ui::variable_list::{VariableList, VariableListError};

fn variable(name: &str, value: &str, container_reference: u64) -> Variable {
    Variable {
        name: name.into(),
        value: value.into(),
        type_: None,
        evaluate_name: None,
        container_reference,
        memory_reference: None,
    }
}

fn scope(name: &str, container_reference: u64) -> Scope {
    Scope {
        name: name.into(),
        container_reference,
        presentation_hint: ScopePresentationHint::Locals,
        source: None,
    }
}

#[test]
fn numbers_in_decimal() {
    assert_eq!(decimal(0), "0");
    assert_eq!(decimal(9), "9");
    assert_eq!(decimal(10), "10");
    assert_eq!(decimal(1234567890), "1234567890");
    assert_eq!(decimal(u64::MAX), "18446744073709551615");
}

#[test]
fn values_on_one_line() {
    assert_eq!(one_line(""), "");
    assert_eq!(one_line("\n"), " ");
    assert_eq!(one_line("a\nb"), "a b");
    assert_eq!(one_line("\n\na\n"), "  a ");
    assert_eq!(one_line("Point {\n    x: 1,\n}"), "Point {     x: 1, }");
    assert_eq!(one_line("gr\u{fc}\u{df}e\n\u{1f600}\nx"), "gr\u{fc}\u{df}e \u{1f600} x");
}

#[test]
fn a_variable_is_rendered() {
    assert_eq!(
        render_variable(&variable("point", "Point {\n x: 1 }", 7), 2, true, false),
        RenderedEntry {
            element_id: "variable-point-2".into(),
            item_id: "variable-item-point-2".into(),
            indent_level: 2,
            indent_step_size: px(20),
            has_disclosure: true,
            disclosed: true,
            label: "point".into(),
            value: Some("Point {  x: 1 }".into()),
            hover_background: ThemeColor::GhostElementHover,
            border_color: ThemeColor::PanelBackground,
        }
    );
    let leaf = render_variable(&variable("x", "1", 0), 12, false, true);
    assert_eq!(leaf.element_id, "variable-x-12");
    assert!(!leaf.has_disclosure);
    assert!(!leaf.disclosed);
    assert_eq!(leaf.hover_background, ThemeColor::PanelBackground);
    assert_eq!(leaf.border_color, ThemeColor::GhostElementSelected);
}

#[test]
fn a_scope_is_rendered() {
    assert_eq!(
        render_scope(&scope("Locals", 1000), false, true),
        RenderedEntry {
            element_id: "1000".into(),
            item_id: "scope-1000".into(),
            indent_level: 1,
            indent_step_size: px(20),
            has_disclosure: true,
            disclosed: false,
            label: "Locals".into(),
            value: None,
            hover_background: ThemeColor::PanelBackground,
            border_color: ThemeColor::GhostElementSelected,
        }
    );
    assert!(!render_scope(&scope("Registers", 0), true, false).has_disclosure);
    let colors = get_entry_color();
    assert_eq!(colors.default, ThemeColor::PanelBackground);
    assert_eq!(colors.hover, ThemeColor::GhostElementHover);
    assert_eq!(colors.marked_active, ThemeColor::GhostElementSelected);
}

#[test]
fn rows_are_rendered_by_position() {
    let mut list = VariableList::new(1);
    assert_eq!(list.row_count(true), 0);
    assert_eq!(
        list.render_entry(0),
        Err(VariableListError::OutOfBoundsRowAccess { index: 0, len: 0 })
    );
    list.add_scopes(1, vec![scope("Locals", 1)]);
    list.insert_children(1, 1, 1, vec![variable("x", "1", 0)]);
    list.toggle_entry(&OpenEntry::scope("Locals"));
    list.select_last();
    assert_eq!(list.row_count(true), 2);
    assert_eq!(list.row_count(false), 0);
    assert_eq!(list.render_entry(0), Ok(render_scope(&scope("Locals", 1), true, false)));
    assert_eq!(
        list.render_entry(1),
        Ok(render_variable(&variable("x", "1", 0), 1, false, true))
    );
    assert_eq!(
        list.render_entry(2),
        Err(VariableListError::OutOfBoundsRowAccess { index: 2, len: 2 })
    );
}

#[test]
fn the_menu_of_a_variable() {
    let none = Capabilities { supports_set_variable: None, supports_clipboard_context: None };
    let no = Capabilities {
        supports_set_variable: Some(false),
        supports_clipboard_context: Some(false),
    };
    let all = Capabilities {
        supports_set_variable: Some(true),
        supports_clipboard_context: Some(true),
    };
    let plain = variable("x", "1", 0);
    let mut rich = variable("y", "2", 0);
    rich.memory_reference = Some("0x1000".into());
    rich.evaluate_name = Some("self.y".into());

    let always = vec![VariableMenuEntry::CopyName, VariableMenuEntry::CopyValue];
    assert_eq!(variable_context_menu(&plain, &none), always);
    assert_eq!(variable_context_menu(&plain, &no), always);
    assert_eq!(
        variable_context_menu(&plain, &all),
        vec![
            VariableMenuEntry::CopyName,
            VariableMenuEntry::CopyValue,
            VariableMenuEntry::SetValue
        ]
    );
    assert_eq!(
        variable_context_menu(&rich, &none),
        vec![
            VariableMenuEntry::CopyName,
            VariableMenuEntry::CopyValue,
            VariableMenuEntry::CopyMemoryReference
        ]
    );
    assert_eq!(
        variable_context_menu(&rich, &all),
        vec![
            VariableMenuEntry::CopyName,
            VariableMenuEntry::CopyValue,
            VariableMenuEntry::CopyMemoryReference,
            VariableMenuEntry::SetValue
        ]
    );
    assert_eq!(VariableMenuEntry::CopyName.label(), "Copy name");
    assert_eq!(VariableMenuEntry::CopyValue.label(), "Copy value");
    assert_eq!(VariableMenuEntry::CopyMemoryReference.label(), "Copy memory reference");
    assert_eq!(VariableMenuEntry::SetValue.label(), "Set value");

    let mut locals = scope("Locals", 1);
    locals.source = Some("main.rs".into());
    assert_eq!(copy_value(&locals, &rich, &none, 4), CopyValue::Write("2".into()));
    assert_eq!(copy_value(&locals, &rich, &no, 4), CopyValue::Write("2".into()));
    assert_eq!(
        copy_value(&locals, &rich, &all, 4),
        CopyValue::Evaluate {
            expression: "self.y".into(),
            stack_frame_id: 4,
            source: Some("main.rs".into())
        }
    );
    assert_eq!(
        copy_value(&scope("Globals", 2), &plain, &all, 5),
        CopyValue::Evaluate { expression: "x".into(), stack_frame_id: 5, source: None }
    );
}

#[test]
fn an_expanded_node_without_cached_children_is_drawn_collapsed() {
    let mut list = VariableList::new(1);
    list.add_scopes(1, vec![scope("Locals", 1), scope("Registers", 0)]);
    list.toggle_entry(&OpenEntry::scope("Locals"));
    list.toggle_entry(&OpenEntry::scope("Registers"));
    // Expanded, but nothing is cached yet.
    assert_eq!(list.render_entry(0), Ok(render_scope(&scope("Locals", 1), false, false)));
    // Expanded, but it can have no children.
    assert_eq!(list.render_entry(1), Ok(render_scope(&scope("Registers", 0), false, false)));

    list.insert_children(1, 1, 1, vec![variable("node", "", 5), variable("leaf", "", 0)]);
    list.toggle_entry(&OpenEntry::variable("Locals", "node", 1));
    list.toggle_entry(&OpenEntry::variable("Locals", "leaf", 1));
    assert_eq!(list.render_entry(0), Ok(render_scope(&scope("Locals", 1), true, false)));
    assert_eq!(
        list.render_entry(1),
        Ok(render_variable(&variable("node", "", 5), 1, false, false))
    );
    assert_eq!(
        list.render_entry(2),
        Ok(render_variable(&variable("leaf", "", 0), 1, false, false))
    );
    // A cached list, even an empty one, is drawn expanded.
    list.insert_children(1, 1, 5, vec![]);
    assert_eq!(
        list.render_entry(1),
        Ok(render_variable(&variable("node", "", 5), 1, true, false))
    );
    assert_eq!(list.row_count(true), 4);
}
