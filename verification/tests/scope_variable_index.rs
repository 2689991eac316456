use debugger_ui::scope_variable_index::ScopeVariableIndex;
use debugger_ui::variable::{Variable, VariableContainer};
use std::collections::HashSet;

fn container(name: &str, variables_reference: u64, container_reference: u64, depth: usize) -> VariableContainer {
    VariableContainer {
        variable: Variable {
            name: name.into(),
            value: name.into(),
            type_: None,
            evaluate_name: None,
            container_reference: variables_reference,
            memory_reference: None,
        },
        depth,
        container_reference,
    }
}

#[test]
fn test_add_initial_variables_to_index() {
    let mut index = ScopeVariableIndex::new();

    assert_eq!(index.variables(1), vec![]);
    assert_eq!(*index.fetched_ids(), HashSet::default());

    let variable1 = container("First variable", 0, 1, 1);
    let variable2 = container("Second variable with child", 2, 1, 1);
    let variable3 = container("Third variable", 0, 1, 1);

    index.add_variables(
        1,
        vec![variable1.variable.clone(), variable2.variable.clone(), variable3.variable.clone()],
    );

    assert_eq!(
        vec![variable1.clone(), variable2.clone(), variable3.clone()],
        index.variables(1),
    );
    assert_eq!(HashSet::from([1]), *index.fetched_ids(),);
}

/// This covers when you click on a variable that has a nested variable
/// We correctly insert the variables right after the variable you clicked on
#[test]
fn test_add_sub_variables_to_index() {
    let mut index = ScopeVariableIndex::new();

    assert_eq!(index.variables(1), vec![]);

    let variable1 = container("First variable", 0, 1, 1);
    let variable2 = container("Second variable with child", 2, 1, 1);
    let variable3 = container("Third variable", 0, 1, 1);

    index.add_variables(
        1,
        vec![variable1.variable.clone(), variable2.variable.clone(), variable3.variable.clone()],
    );

    assert_eq!(
        vec![variable1.clone(), variable2.clone(), variable3.clone()],
        index.variables(1),
    );
    assert_eq!(HashSet::from([1]), *index.fetched_ids());

    let variable4 = container("Fourth variable", 0, 2, 2);
    let variable5 = container("Five variable", 0, 2, 2);

    index.add_variables(2, vec![variable4.variable.clone(), variable5.variable.clone()]);

    assert_eq!(
        vec![
            variable1.clone(),
            variable2.clone(),
            variable4.clone(),
            variable5.clone(),
            variable3.clone(),
        ],
        index.variables(1),
    );
    assert_eq!(*index.fetched_ids(), HashSet::from([1, 2]));
}

#[test]
fn index_reports_what_is_fetched() {
    let mut index = ScopeVariableIndex::new();
    assert!(index.is_empty());
    assert_eq!(index.len(), 0);
    assert!(!index.fetched(&1));
    assert_eq!(index.get_children(1), None);

    index.add_variables(1, vec![]);
    assert!(index.fetched(&1));
    assert!(!index.is_empty());
    assert_eq!(index.get_children(1), Some(&[][..]));

    let a = container("a", 0, 1, 1).variable;
    let b = container("b", 0, 1, 1).variable;
    index.add_variables(1, vec![a.clone()]);
    index.add_variables(1, vec![b.clone(), a.clone()]);
    assert_eq!(index.get_children(1), Some(&[b, a][..]));
    assert_eq!(index.len(), 1);
}

#[test]
fn variables_do_not_walk_in_circles() {
    let mut index = ScopeVariableIndex::new();
    // "next" of 1 is 2, "next" of 2 is 1 again, "me" of 2 is 2 itself.
    index.add_variables(1, vec![container("next", 2, 1, 1).variable]);
    index.add_variables(
        2,
        vec![container("next", 1, 2, 2).variable, container("me", 2, 2, 2).variable],
    );
    assert_eq!(
        index.variables(1),
        vec![container("next", 2, 1, 1), container("next", 1, 2, 2), container("me", 2, 2, 2)]
    );
    assert_eq!(
        index.variables(2),
        vec![container("next", 1, 2, 1), container("next", 2, 1, 2), container("me", 2, 2, 1)]
    );
    // Nothing is listed below a reference that was not fetched, or below 0.
    assert_eq!(index.variables(3), vec![]);
    index.add_variables(0, vec![container("zero", 0, 0, 1).variable]);
    assert_eq!(index.variables(0), vec![]);
}
