use j4_persist::ProtectError;
use j4_persist::tree::ContainerNode;
use j4_persist::tree::find_focused;

fn leaf(id: u64, focused: bool) -> ContainerNode {
    ContainerNode {
        id,
        focused,
        focus: vec![],
        nodes: vec![],
        floating_nodes: vec![],
        marks: vec![],
    }
}

fn branch(
    id: u64,
    focus: Vec<u64>,
    nodes: Vec<ContainerNode>,
    floating_nodes: Vec<ContainerNode>,
) -> ContainerNode {
    ContainerNode {
        id,
        focused: false,
        focus,
        nodes,
        floating_nodes,
        marks: vec![],
    }
}

#[test]
fn finds_focused_root() {
    let roots = vec![leaf(1, false), leaf(2, true), leaf(3, false)];
    let found = find_focused(&roots).unwrap();
    assert_eq!(found.id, 2);
    assert!(found.focused);
}

#[test]
fn finds_focused_deep_in_layout_children() {
    let inner = branch(10, vec![11], vec![leaf(11, true)], vec![]);
    let outer = branch(5, vec![10], vec![leaf(6, false), inner], vec![]);
    let roots = vec![leaf(1, false), outer];
    let found = find_focused(&roots).unwrap();
    assert_eq!(found.id, 11);
}

#[test]
fn finds_focused_in_floating_children() {
    let outer = branch(5, vec![12], vec![leaf(6, false)], vec![leaf(12, true)]);
    let roots = vec![outer];
    let found = find_focused(&roots).unwrap();
    assert_eq!(found.id, 12);
}

#[test]
fn reports_not_found_on_unfocused_tree() {
    let roots = vec![leaf(1, false), branch(2, vec![], vec![leaf(3, false)], vec![])];
    assert!(matches!(find_focused(&roots), Err(ProtectError::FocusNotFound)));
}

#[test]
fn reports_not_found_on_empty_roots() {
    let roots: Vec<ContainerNode> = vec![];
    assert!(matches!(find_focused(&roots), Err(ProtectError::FocusNotFound)));
}

#[test]
fn prunes_subtrees_with_empty_focus_history() {
    // The window manager populates `focus` along the path to the focused
    // node; a subtree whose root has an empty history is skipped entirely,
    // so a focused node hidden below one is never reached.
    let hidden = branch(20, vec![], vec![leaf(21, true)], vec![]);
    let roots = vec![hidden];
    assert!(matches!(find_focused(&roots), Err(ProtectError::FocusNotFound)));
}

#[test]
fn first_match_wins() {
    let left = branch(1, vec![2], vec![leaf(2, true)], vec![]);
    let right = leaf(3, true);
    let roots = vec![left, right];
    let found = find_focused(&roots).unwrap();
    assert_eq!(found.id, 2);
}

#[test]
fn layout_children_searched_before_floating() {
    let outer = branch(5, vec![6, 7], vec![leaf(6, true)], vec![leaf(7, true)]);
    let roots = vec![outer];
    let found = find_focused(&roots).unwrap();
    assert_eq!(found.id, 6);
}
