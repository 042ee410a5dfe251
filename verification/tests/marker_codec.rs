use j4_persist::commands::kill_command;
use j4_persist::commands::mark_command;
use j4_persist::commands::unmark_command;
use j4_persist::marker::get_mark;
use j4_persist::marker::has_protection_prefix;
use j4_persist::marker::is_protected;
use j4_persist::marker::make_marker;
use j4_persist::marker::protection_prefix;
use j4_persist::numfmt::u128_to_dec;
use j4_persist::tree::ContainerNode;

fn node_with_marks(marks: Vec<String>) -> ContainerNode {
    ContainerNode {
        id: 1,
        focused: true,
        focus: vec![],
        nodes: vec![],
        floating_nodes: vec![],
        marks,
    }
}

#[test]
fn prefix_is_the_reserved_one() {
    assert_eq!(protection_prefix(), "j4-persist_");
}

#[test]
fn unmarked_node_is_unprotected() {
    assert!(!is_protected(&node_with_marks(vec![])));
}

#[test]
fn non_matching_marks_leave_node_unprotected() {
    let n = node_with_marks(vec![
        "scratchpad".to_string(),
        "j4-persist".to_string(),
        "xj4-persist_1".to_string(),
    ]);
    assert!(!is_protected(&n));
    assert_eq!(get_mark(&n), None);
}

#[test]
fn one_matching_mark_protects() {
    let n = node_with_marks(vec!["music".to_string(), "j4-persist_1700000000000".to_string()]);
    assert!(is_protected(&n));
    assert_eq!(get_mark(&n).unwrap(), "j4-persist_1700000000000");
}

#[test]
fn bare_prefix_protects() {
    let n = node_with_marks(vec!["j4-persist_".to_string()]);
    assert!(is_protected(&n));
}

#[test]
fn first_matching_mark_is_reported() {
    let n = node_with_marks(vec![
        "other".to_string(),
        "j4-persist_1".to_string(),
        "j4-persist_2".to_string(),
    ]);
    assert_eq!(get_mark(&n).unwrap(), "j4-persist_1");
}

#[test]
fn has_protection_prefix_checks_the_start() {
    assert!(has_protection_prefix("j4-persist_42"));
    assert!(has_protection_prefix("j4-persist_"));
    assert!(!has_protection_prefix("j4-persist"));
    assert!(!has_protection_prefix(""));
    assert!(!has_protection_prefix("J4-persist_42"));
}

#[test]
fn make_marker_renders_the_nonce_in_decimal() {
    assert_eq!(make_marker(1234567890123), "j4-persist_1234567890123");
    assert_eq!(make_marker(0), "j4-persist_0");
}

#[test]
fn made_markers_protect_their_node() {
    let n = node_with_marks(vec![make_marker(77)]);
    assert!(is_protected(&n));
    assert_eq!(get_mark(&n).unwrap(), "j4-persist_77");
}

#[test]
fn decimal_rendering_is_exact() {
    assert_eq!(u128_to_dec(0), "0");
    assert_eq!(u128_to_dec(9), "9");
    assert_eq!(u128_to_dec(10), "10");
    assert_eq!(u128_to_dec(105), "105");
    assert_eq!(u128_to_dec(u128::MAX), "340282366920938463463374607431768211455");
}

#[test]
fn command_texts_are_exact() {
    assert_eq!(mark_command(5), "mark --add j4-persist_5");
    assert_eq!(unmark_command("j4-persist_5"), "unmark j4-persist_5");
    assert_eq!(kill_command(42), "[con_id=42] kill");
    assert_eq!(kill_command(0), "[con_id=0] kill");
    assert_eq!(kill_command(u64::MAX), "[con_id=18446744073709551615] kill");
}
