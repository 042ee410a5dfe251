use j4_persist::kill::safe_kill;
use j4_persist::tree::ContainerNode;

fn leaf(id: u64, marks: Vec<String>) -> ContainerNode {
    ContainerNode {
        id,
        focused: false,
        focus: vec![],
        nodes: vec![],
        floating_nodes: vec![],
        marks,
    }
}

fn parent(id: u64, marks: Vec<String>, nodes: Vec<ContainerNode>) -> ContainerNode {
    ContainerNode {
        id,
        focused: false,
        focus: vec![],
        nodes,
        floating_nodes: vec![],
        marks,
    }
}

#[test]
fn unprotected_leaf_gets_one_scoped_kill() {
    let n = leaf(7, vec![]);
    assert_eq!(safe_kill(&n), vec!["[con_id=7] kill".to_string()]);
}

#[test]
fn protected_leaf_gets_no_kill() {
    let n = leaf(7, vec!["j4-persist_1".to_string()]);
    assert_eq!(safe_kill(&n), Vec::<String>::new());
}

#[test]
fn protection_spares_one_child_of_two() {
    let a = leaf(10, vec!["j4-persist_9".to_string()]);
    let b = leaf(11, vec![]);
    let root = parent(1, vec![], vec![a, b]);
    assert_eq!(safe_kill(&root), vec!["[con_id=11] kill".to_string()]);
}

#[test]
fn descent_is_depth_first_and_leaf_only() {
    let grandchild_a = leaf(100, vec![]);
    let grandchild_b = leaf(101, vec![]);
    let mid = parent(10, vec![], vec![grandchild_a, grandchild_b]);
    let sibling = leaf(11, vec![]);
    let root = parent(1, vec![], vec![mid, sibling]);
    assert_eq!(
        safe_kill(&root),
        vec![
            "[con_id=100] kill".to_string(),
            "[con_id=101] kill".to_string(),
            "[con_id=11] kill".to_string(),
        ]
    );
}

#[test]
fn protection_on_a_parent_does_not_stop_descent() {
    // A node with children is never a direct kill target, so its own
    // protection cannot save it; each leaf is judged on its own marker.
    let child = leaf(20, vec![]);
    let root = parent(1, vec!["j4-persist_3".to_string()], vec![child]);
    assert_eq!(safe_kill(&root), vec!["[con_id=20] kill".to_string()]);
}

#[test]
fn floating_children_are_not_part_of_the_descent() {
    let floating = leaf(30, vec![]);
    let child = leaf(20, vec![]);
    let root = ContainerNode {
        id: 1,
        focused: true,
        focus: vec![],
        nodes: vec![child],
        floating_nodes: vec![floating],
        marks: vec![],
    };
    assert_eq!(safe_kill(&root), vec!["[con_id=20] kill".to_string()]);
}

#[test]
fn protected_leaves_only_yield_silence() {
    let a = leaf(10, vec!["j4-persist_1".to_string()]);
    let b = leaf(11, vec!["j4-persist_2".to_string()]);
    let root = parent(1, vec![], vec![a, b]);
    assert_eq!(safe_kill(&root), Vec::<String>::new());
}
