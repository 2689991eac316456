use debugger_ui::open_entry::OpenEntry;
use debugger_ui::set_variable::SetVariableRequest;
use debugger_ui::variable::{
    Scope, ScopePresentationHint, Variable, VariableContainer, VariableListEntry,
};
use debugger_ui::frame_state::FetchRequest;
use debugger_ui::variable_list::{
    StackFrameListEvent, ToggleOutcome, VariableList, VariableListError,
};

fn variable(name: &str, container_reference: u64) -> Variable {
    Variable {
        name: name.into(),
        value: name.into(),
        type_: None,
        evaluate_name: None,
        container_reference,
        memory_reference: None,
    }
}

fn valued(name: &str, value: &str) -> Variable {
    Variable {
        name: name.into(),
        value: value.into(),
        type_: None,
        evaluate_name: None,
        container_reference: 0,
        memory_reference: None,
    }
}

fn scope(name: &str, container_reference: u64) -> Scope {
    Scope {
        name: name.into(),
        container_reference,
        presentation_hint: ScopePresentationHint::Locals,
        source: None,
    }
}

fn scope_row(name: &str, container_reference: u64) -> VariableListEntry {
    VariableListEntry::Scope(scope(name, container_reference))
}

fn variable_row(scope_name: &str, variable: Variable, depth: usize) -> VariableListEntry {
    VariableListEntry::Variable { scope_name: scope_name.into(), variable, depth }
}

#[test]
fn nested_variables_come_right_after_their_parent() {
    let mut list = VariableList::new(1);
    assert!(list.add_scopes(1, vec![scope("Locals", 1)]));
    let variable1 = variable("First variable", 0);
    let variable2 = variable("Second variable with child", 2);
    let variable3 = variable("Third variable", 0);
    assert!(list.insert_children(
        1,
        1,
        1,
        vec![variable1.clone(), variable2.clone(), variable3.clone()],
    ));
    assert_eq!(list.toggle(&OpenEntry::scope("Locals")), ToggleOutcome::Toggled);

    let request = FetchRequest { stack_frame_id: 1, scope_id: 1, container_reference: 2 };
    assert_eq!(
        list.toggle(&OpenEntry::variable("Locals", "Second variable with child", 1)),
        ToggleOutcome::FetchRequested(request)
    );
    let variable4 = variable("Fourth variable", 0);
    let variable5 = variable("Five variable", 0);
    assert_eq!(
        list.fetch_succeeded(request, vec![variable4.clone(), variable5.clone()]),
        Ok(())
    );
    assert_eq!(
        vec![
            scope_row("Locals", 1),
            variable_row("Locals", variable1, 1),
            variable_row("Locals", variable2, 1),
            variable_row("Locals", variable4, 2),
            variable_row("Locals", variable5, 2),
            variable_row("Locals", variable3, 1),
        ],
        list.variable_list(1),
    );
    assert_eq!(
        list.visual_entries(),
        vec![
            "v Locals",
            "    > First variable",
            "    v Second variable with child",
            "        > Fourth variable",
            "        > Five variable",
            "    > Third variable",
        ]
    );
}

#[test]
fn toggle_by_identity_of_a_node_not_shown_only_toggles() {
    let mut list = VariableList::new(1);
    list.add_scopes(1, vec![scope("Locals", 1)]);
    list.insert_children(1, 1, 1, vec![variable("node", 5)]);
    // "node" is not shown while "Locals" is collapsed.
    let node = OpenEntry::variable("Locals", "node", 1);
    assert_eq!(list.toggle(&node), ToggleOutcome::Toggled);
    assert!(list.open_entries().is_open(&node));
    assert_eq!(list.toggle(&node), ToggleOutcome::Toggled);
    assert!(!list.open_entries().is_open(&node));
    // Shown, it asks for its children.
    assert_eq!(list.toggle(&OpenEntry::scope("Locals")), ToggleOutcome::Toggled);
    assert_eq!(
        list.toggle(&node),
        ToggleOutcome::FetchRequested(FetchRequest {
            stack_frame_id: 1,
            scope_id: 1,
            container_reference: 5
        })
    );
    assert_eq!(list.toggle(&node), ToggleOutcome::AlreadyFetching);
}

#[test]
fn flatten_walks_depth_first() {
    let mut list = VariableList::new(7);
    list.add_scopes(7, vec![scope("Locals", 1)]);
    let a = variable("A", 0);
    let b = variable("B", 2);
    let c = variable("C", 0);
    let d = variable("D", 0);
    let e = variable("E", 0);
    list.insert_children(7, 1, 1, vec![a.clone(), b.clone(), e.clone()]);
    list.insert_children(7, 1, 2, vec![c.clone(), d.clone()]);
    list.toggle_entry(&OpenEntry::scope("Locals"));
    list.toggle_entry(&OpenEntry::variable("Locals", "B", 1));

    assert_eq!(
        list.variable_list(7),
        vec![
            scope_row("Locals", 1),
            variable_row("Locals", a, 1),
            variable_row("Locals", b, 1),
            variable_row("Locals", c, 2),
            variable_row("Locals", d, 2),
            variable_row("Locals", e, 1),
        ]
    );
}

#[test]
fn basic_expand() {
    let mut list = VariableList::new(1);
    let locals = scope("Locals", 1);
    list.add_scopes(1, vec![locals.clone()]);
    assert!(!list.open_entries().is_open(&OpenEntry::scope("Locals")));
    assert_eq!(list.variable_list(1), vec![scope_row("Locals", 1)]);

    let request = FetchRequest { stack_frame_id: 1, scope_id: 1, container_reference: 1 };
    assert_eq!(list.toggle_scope(&locals), ToggleOutcome::FetchRequested(request));
    assert!(!list.open_entries().is_open(&OpenEntry::scope("Locals")));
    assert_eq!(list.variable_list(1), vec![scope_row("Locals", 1)]);

    assert_eq!(list.fetch_succeeded(request, vec![valued("x", "1"), valued("y", "2")]), Ok(()));

    assert!(list.open_entries().is_open(&OpenEntry::scope("Locals")));
    assert_eq!(
        list.variable_list(1),
        vec![
            scope_row("Locals", 1),
            variable_row("Locals", valued("x", "1"), 1),
            variable_row("Locals", valued("y", "2"), 1),
        ]
    );
}

#[test]
fn stale_discard() {
    let mut list = VariableList::new(1);
    let locals = scope("Locals", 1);
    list.add_scopes(1, vec![locals.clone()]);
    list.add_scopes(2, vec![scope("Locals", 9)]);

    let request = FetchRequest { stack_frame_id: 1, scope_id: 1, container_reference: 1 };
    assert_eq!(list.toggle_scope(&locals), ToggleOutcome::FetchRequested(request));

    assert_eq!(list.handle_selected_stack_frame_changed(2), vec![]);
    assert_eq!(list.current_stack_frame_id(), 2);

    assert_eq!(
        list.fetch_succeeded(request, vec![valued("x", "1")]),
        Err(VariableListError::StaleFrame)
    );

    assert!(!list.is_fetched(1, 1, 1));
    assert_eq!(list.get_children(1, 1, 1), None);
    assert!(!list.open_entries().is_open(&OpenEntry::scope("Locals")));
    assert_eq!(list.variable_list(1), vec![scope_row("Locals", 1)]);
    assert_eq!(list.variable_list(2), vec![scope_row("Locals", 9)]);

    // The fetch is no longer outstanding: back on the first frame the scope
    // can be toggled again, and fetches again.
    assert_eq!(list.handle_selected_stack_frame_changed(1), vec![]);
    assert_eq!(list.toggle_scope(&locals), ToggleOutcome::FetchRequested(request));
}

#[test]
fn frame_invalidation_preserves_open_set() {
    let mut list = VariableList::new(1);
    let locals = scope("Locals", 1);
    list.add_scopes(1, vec![locals.clone()]);
    let request = FetchRequest { stack_frame_id: 1, scope_id: 1, container_reference: 1 };
    assert_eq!(list.toggle_scope(&locals), ToggleOutcome::FetchRequested(request));
    assert_eq!(list.fetch_succeeded(request, vec![valued("x", "1")]), Ok(()));
    assert_eq!(list.variable_list(1).len(), 2);

    assert_eq!(
        list.handle_stack_frame_list_events(&StackFrameListEvent::StackFramesUpdated),
        vec![]
    );
    assert!(!list.has_stack_frame(1));
    assert_eq!(list.variable_list(1), vec![]);
    assert!(list.open_entries().is_open(&OpenEntry::scope("Locals")));

    // The debugger stopped again: the frame comes back with a new handle.
    let locals = scope("Locals", 41);
    assert!(list.add_scopes(1, vec![locals.clone()]));
    assert!(!list.is_fetched(1, 41, 41));
    let again = FetchRequest { stack_frame_id: 1, scope_id: 41, container_reference: 41 };
    assert_eq!(
        list.handle_stack_frame_list_events(&StackFrameListEvent::SelectedStackFrameChanged(1)),
        vec![again]
    );
    assert_eq!(list.variable_list(1), vec![scope_row("Locals", 41)]);

    // The fetch made for the old handle is stale.
    assert_eq!(
        list.fetch_succeeded(request, vec![valued("x", "1")]),
        Err(VariableListError::StaleFrame)
    );

    assert_eq!(list.fetch_succeeded(again, vec![valued("x", "2")]), Ok(()));
    assert!(list.open_entries().is_open(&OpenEntry::scope("Locals")));
    assert_eq!(
        list.variable_list(1),
        vec![scope_row("Locals", 41), variable_row("Locals", valued("x", "2"), 1)]
    );
}

#[test]
fn single_flight() {
    let mut list = VariableList::new(1);
    let locals = scope("Locals", 1);
    list.add_scopes(1, vec![locals.clone()]);
    list.insert_children(1, 1, 1, vec![variable("node", 5)]);
    list.toggle_entry(&OpenEntry::scope("Locals"));

    let request = FetchRequest { stack_frame_id: 1, scope_id: 1, container_reference: 5 };
    let node = variable("node", 5);
    assert_eq!(list.toggle_variable(&locals, &node, 1), ToggleOutcome::FetchRequested(request));
    assert_eq!(list.toggle_variable(&locals, &node, 1), ToggleOutcome::AlreadyFetching);
    assert_eq!(list.toggle_variable(&locals, &node, 1), ToggleOutcome::AlreadyFetching);
    assert!(!list.open_entries().is_open(&OpenEntry::variable("Locals", "node", 1)));

    assert_eq!(list.fetch_succeeded(request, vec![variable("leaf", 0)]), Ok(()));
    assert!(list.open_entries().is_open(&OpenEntry::variable("Locals", "node", 1)));

    // Collapsing and expanding again is free: the children are cached.
    assert_eq!(list.toggle_variable(&locals, &node, 1), ToggleOutcome::Toggled);
    assert_eq!(list.variable_list(1).len(), 2);
    assert_eq!(list.toggle_variable(&locals, &node, 1), ToggleOutcome::Toggled);
    assert_eq!(list.variable_list(1).len(), 3);
}

#[test]
fn fetch_failure_leaves_node_collapsed() {
    let mut list = VariableList::new(1);
    let locals = scope("Locals", 1);
    list.add_scopes(1, vec![locals.clone()]);
    let request = FetchRequest { stack_frame_id: 1, scope_id: 1, container_reference: 1 };
    assert_eq!(list.toggle_scope(&locals), ToggleOutcome::FetchRequested(request));
    assert_eq!(list.fetch_failed(request), VariableListError::FetchFailed { reference: 1 });
    assert!(!list.open_entries().is_open(&OpenEntry::scope("Locals")));
    assert!(!list.is_fetched(1, 1, 1));
    // A second report for the same fetch finds nothing outstanding.
    assert_eq!(list.fetch_failed(request), VariableListError::StaleFrame);
    // The user may try again.
    assert_eq!(list.toggle_scope(&locals), ToggleOutcome::FetchRequested(request));
}

#[test]
fn toggle_of_unknown_scope_does_nothing() {
    let mut list = VariableList::new(1);
    assert_eq!(list.toggle_scope(&scope("Locals", 1)), ToggleOutcome::UnknownScope);
    list.add_scopes(1, vec![scope("Locals", 1)]);
    assert_eq!(list.toggle_scope(&scope("Globals", 2)), ToggleOutcome::UnknownScope);
    assert_eq!(list.open_entries().len(), 0);
}

#[test]
fn leaf_nodes_toggle_without_fetch() {
    let mut list = VariableList::new(1);
    let empty = scope("Registers", 0);
    list.add_scopes(1, vec![empty.clone()]);
    assert_eq!(list.toggle_scope(&empty), ToggleOutcome::Toggled);
    assert!(list.open_entries().is_open(&OpenEntry::scope("Registers")));
    assert_eq!(list.variable_list(1), vec![scope_row("Registers", 0)]);
    assert!(!list.variable_list(1)[0].has_children());
}

#[test]
fn expanded_variable_without_children_shows_none() {
    let mut list = VariableList::new(1);
    let locals = scope("Locals", 1);
    list.add_scopes(1, vec![locals.clone()]);
    list.insert_children(1, 1, 1, vec![variable("empty", 3)]);
    list.insert_children(1, 1, 3, vec![]);
    list.toggle_entry(&OpenEntry::scope("Locals"));
    list.toggle_entry(&OpenEntry::variable("Locals", "empty", 1));
    assert_eq!(
        list.variable_list(1),
        vec![scope_row("Locals", 1), variable_row("Locals", variable("empty", 3), 1)]
    );
}

#[test]
fn insert_children_overwrites_and_keeps_other_lists() {
    let mut list = VariableList::new(1);
    list.add_scopes(1, vec![scope("Locals", 1), scope("Globals", 2)]);
    assert!(list.insert_children(1, 1, 1, vec![variable("a", 0)]));
    assert!(list.insert_children(1, 2, 2, vec![variable("g", 0)]));
    assert!(list.insert_children(1, 1, 1, vec![variable("b", 0), variable("c", 0)]));
    assert_eq!(list.get_children(1, 1, 1), Some(&[variable("b", 0), variable("c", 0)][..]));
    assert_eq!(list.get_children(1, 2, 2), Some(&[variable("g", 0)][..]));
    assert!(!list.insert_children(1, 3, 3, vec![variable("z", 0)]));
    assert!(!list.insert_children(2, 1, 1, vec![variable("z", 0)]));
    assert_eq!(list.get_children(2, 1, 1), None);

    // Toggles leave the cache alone.
    list.toggle_entry(&OpenEntry::scope("Locals"));
    list.toggle_entry(&OpenEntry::scope("Locals"));
    assert_eq!(list.toggle_scope(&scope("Globals", 2)), ToggleOutcome::Toggled);
    assert_eq!(list.get_children(1, 1, 1), Some(&[variable("b", 0), variable("c", 0)][..]));
}

#[test]
fn flatten_is_deterministic() {
    let mut list = VariableList::new(1);
    list.add_scopes(1, vec![scope("Locals", 1), scope("Globals", 2)]);
    list.insert_children(1, 1, 1, vec![variable("a", 0), variable("b", 4)]);
    list.insert_children(1, 1, 4, vec![variable("c", 0)]);
    list.toggle_entry(&OpenEntry::scope("Locals"));
    list.toggle_entry(&OpenEntry::variable("Locals", "b", 1));
    let first = list.variable_list(1);
    let second = list.variable_list(1);
    assert_eq!(first, second);
    assert_eq!(first.len(), 5);
}

#[test]
fn add_scopes_happens_once_and_replaces_repeated_references() {
    let mut list = VariableList::new(1);
    assert!(list.add_scopes(1, vec![scope("Locals", 1), scope("Globals", 2), scope("Again", 1)]));
    assert_eq!(list.variable_list(1), vec![scope_row("Again", 1), scope_row("Globals", 2)]);
    assert!(!list.add_scopes(1, vec![scope("Other", 8)]));
    assert_eq!(list.variable_list(1), vec![scope_row("Again", 1), scope_row("Globals", 2)]);
}

#[test]
fn selection_moves_and_clamps() {
    let mut list = VariableList::new(1);
    list.select_next();
    assert_eq!(*list.selection(), None);

    list.add_scopes(1, vec![scope("Locals", 1), scope("Globals", 2)]);
    list.insert_children(1, 1, 1, vec![variable("a", 0)]);
    list.toggle_entry(&OpenEntry::scope("Locals"));

    list.select_next();
    assert_eq!(*list.selection(), Some(OpenEntry::scope("Locals")));
    list.select_prev();
    assert_eq!(*list.selection(), Some(OpenEntry::scope("Locals")));
    list.select_next();
    assert_eq!(*list.selection(), Some(OpenEntry::variable("Locals", "a", 1)));
    list.select_next();
    assert_eq!(*list.selection(), Some(OpenEntry::scope("Globals")));
    list.select_next();
    assert_eq!(*list.selection(), Some(OpenEntry::scope("Globals")));
    list.select_prev();
    assert_eq!(*list.selection(), Some(OpenEntry::variable("Locals", "a", 1)));
    list.select_first();
    assert_eq!(*list.selection(), Some(OpenEntry::scope("Locals")));
    list.select_last();
    assert_eq!(*list.selection(), Some(OpenEntry::scope("Globals")));

    // A selected node that is no longer shown stays selected.
    list.select_prev();
    list.toggle_entry(&OpenEntry::scope("Locals"));
    list.select_next();
    assert_eq!(*list.selection(), Some(OpenEntry::variable("Locals", "a", 1)));
}

#[test]
fn row_access_out_of_bounds_is_reported() {
    let mut list = VariableList::new(1);
    assert_eq!(
        list.entry_at(0),
        Err(VariableListError::OutOfBoundsRowAccess { index: 0, len: 0 })
    );
    list.add_scopes(1, vec![scope("Locals", 1)]);
    assert_eq!(list.entry_at(0), Ok(scope_row("Locals", 1)));
    assert_eq!(
        list.entry_at(1),
        Err(VariableListError::OutOfBoundsRowAccess { index: 1, len: 1 })
    );
}

#[test]
fn visual_entries_mark_the_selection() {
    let mut list = VariableList::new(1);
    assert_eq!(list.visual_entries(), Vec::<String>::new());
    list.add_scopes(1, vec![scope("Locals", 1), scope("Globals", 2)]);
    list.insert_children(1, 1, 1, vec![variable("a", 0), variable("b", 3)]);
    list.insert_children(1, 1, 3, vec![variable("c", 0)]);
    list.toggle_entry(&OpenEntry::scope("Locals"));
    list.toggle_entry(&OpenEntry::variable("Locals", "b", 1));
    list.select_last();
    list.select_prev();
    let expected = vec![
        "v Locals",
        "    > a",
        "    v b",
        "        > c <=== selected",
        "> Globals",
    ];
    assert_eq!(list.visual_entries(), expected);
    assert!(list.assert_visual_entries(expected));
    assert!(!list.assert_visual_entries(vec!["v Locals", "    > a", "    v b", "        > c"]));
    assert!(!list.assert_visual_entries(vec![
        "v Locals",
        "    > a",
        "    v b",
        "        > c",
        "> Globals",
    ]));
    assert_eq!(list.scopes(1), vec![scope("Locals", 1), scope("Globals", 2)]);
    assert_eq!(list.scopes(2), vec![]);
}

#[test]
fn variables_of_a_frame_are_listed_scope_after_scope() {
    let mut list = VariableList::new(1);
    assert_eq!(list.variables_by_stack_frame_id(1), vec![]);
    list.add_scopes(1, vec![scope("Locals", 1), scope("Globals", 2), scope("Registers", 0)]);
    list.insert_children(1, 2, 2, vec![variable("g", 0)]);
    list.insert_children(1, 1, 1, vec![variable("a", 4), variable("b", 0)]);
    list.insert_children(1, 1, 4, vec![variable("c", 0)]);
    let found = |container_reference, name: &str, reference, depth| VariableContainer {
        container_reference,
        variable: variable(name, reference),
        depth,
    };
    let expected = vec![
        found(1, "a", 4, 1),
        found(4, "c", 0, 2),
        found(1, "b", 0, 1),
        found(2, "g", 0, 1),
    ];
    assert_eq!(list.variables_by_stack_frame_id(1), expected);
    assert_eq!(list.completion_variables(1), expected);
    assert_eq!(list.completion_variables(2), vec![]);
}

#[test]
fn setting_a_value_asks_the_session_only_for_a_change_in_the_same_frame() {
    let mut list = VariableList::new(1);
    let locals = scope("Locals", 1);
    let x = valued("x", "1");

    assert_eq!(list.set_variable_value("2".into()), None);

    assert_eq!(list.begin_set_variable_value(1, &locals, &x), "1");
    let state = list.set_variable_state().as_ref().unwrap();
    assert_eq!(state.name, "x");
    assert_eq!(state.value, "1");
    assert_eq!(state.stack_frame_id, 1);
    assert_eq!(state.parent_variables_reference, 1);
    assert_eq!(state.scope, locals);
    assert_eq!(
        list.set_variable_value("2".into()),
        Some(SetVariableRequest {
            parent_variables_reference: 1,
            name: "x".into(),
            value: "2".into()
        })
    );
    assert_eq!(*list.set_variable_state(), None);

    list.begin_set_variable_value(1, &locals, &x);
    assert_eq!(list.set_variable_value("1".into()), None);
    assert_eq!(*list.set_variable_state(), None);

    list.begin_set_variable_value(1, &locals, &x);
    list.handle_selected_stack_frame_changed(2);
    assert_eq!(list.set_variable_value("2".into()), None);

    list.begin_set_variable_value(1, &locals, &x);
    list.cancel_set_variable_value();
    assert_eq!(*list.set_variable_state(), None);
    assert_eq!(list.set_variable_value("2".into()), None);
}

#[test]
fn one_fetch_for_a_reference_of_a_frame() {
    let mut list = VariableList::new(1);
    let locals = scope("Locals", 1);
    let globals = scope("Globals", 2);
    list.add_scopes(1, vec![locals.clone(), globals.clone()]);
    list.add_scopes(2, vec![scope("Locals", 1)]);
    let shared = variable("shared", 9);
    assert!(!list.is_fetching(1, 9));
    let request = FetchRequest { stack_frame_id: 1, scope_id: 1, container_reference: 9 };
    assert_eq!(list.toggle_variable(&locals, &shared, 1), ToggleOutcome::FetchRequested(request));
    assert!(list.is_fetching(1, 9));
    assert!(!list.is_fetching(2, 9));
    // The same reference under another scope of the frame waits for the same fetch.
    assert_eq!(list.toggle_variable(&globals, &shared, 1), ToggleOutcome::AlreadyFetching);
    // Children that claim another scope are not what was asked for.
    let other = FetchRequest { stack_frame_id: 1, scope_id: 2, container_reference: 9 };
    assert_eq!(
        list.fetch_succeeded(other, vec![variable("x", 0)]),
        Err(VariableListError::StaleFrame)
    );
    assert_eq!(list.fetch_failed(other), VariableListError::StaleFrame);
    assert!(list.is_fetching(1, 9));
    // Another frame has fetches of its own.
    list.handle_selected_stack_frame_changed(2);
    assert_eq!(
        list.toggle_variable(&locals, &shared, 1),
        ToggleOutcome::FetchRequested(FetchRequest {
            stack_frame_id: 2,
            scope_id: 1,
            container_reference: 9
        })
    );
    list.handle_selected_stack_frame_changed(1);
    assert_eq!(list.fetch_succeeded(request, vec![variable("x", 0)]), Ok(()));
    assert!(!list.is_fetching(1, 9));
    assert!(list.is_fetching(2, 9));
    assert_eq!(list.get_children(1, 1, 9), Some(&[variable("x", 0)][..]));
    assert_eq!(list.get_children(1, 2, 9), None);
}

#[test]
fn showing_a_frame_does_not_fetch_twice() {
    let mut list = VariableList::new(0);
    list.toggle_entry(&OpenEntry::scope("Locals"));
    list.toggle_entry(&OpenEntry::scope("Registers"));
    list.toggle_entry(&OpenEntry::scope("Cached"));
    list.add_scopes(
        1,
        vec![
            scope("Locals", 1),
            scope("Globals", 2),
            scope("Registers", 0),
            scope("Cached", 4),
        ],
    );
    list.insert_children(1, 4, 4, vec![]);
    let request = FetchRequest { stack_frame_id: 1, scope_id: 1, container_reference: 1 };
    assert_eq!(list.handle_selected_stack_frame_changed(1), vec![request]);
    assert_eq!(list.handle_selected_stack_frame_changed(1), vec![]);
    assert_eq!(list.toggle_scope(&scope("Locals", 1)), ToggleOutcome::Toggled);
    assert_eq!(list.toggle_scope(&scope("Locals", 1)), ToggleOutcome::AlreadyFetching);
    assert_eq!(list.fetch_succeeded(request, vec![variable("a", 0)]), Ok(()));
    // The fetch was not made by a toggle, so it toggles nothing.
    assert!(!list.open_entries().is_open(&OpenEntry::scope("Locals")));
    assert_eq!(list.handle_selected_stack_frame_changed(1), vec![]);
}
