//! The tree model and the focus locator.
//!
//! A [`ContainerNode`] mirrors one container of the window manager's layout
//! tree. [`find_focused`] walks a root sequence of such nodes depth first,
//! pruning every subtree whose focus history is empty: the window manager
//! populates `focus` along the path to the focused container, so an empty
//! history means the focused node cannot lie below.
use vstd::prelude::*;

use crate::ProtectError;

verus! {

/// One node of the window manager's layout tree.
pub struct ContainerNode {
    /// Stable identifier of the container, used to address kill commands.
    pub id: u64,
    /// True when this container is the focused one.
    pub focused: bool,
    /// Focus history: identifiers of children in focus order. Non-empty
    /// whenever focus lies somewhere inside this subtree.
    pub focus: Vec<u64>,
    /// Layout children.
    pub nodes: Vec<ContainerNode>,
    /// Floating children, peers of the layout children for search purposes.
    pub floating_nodes: Vec<ContainerNode>,
    /// Marker strings the window manager has attached to this container.
    pub marks: Vec<String>,
}

/// How many nodes of the subtree rooted at `n` are focused.
pub open spec fn node_focused_count(n: ContainerNode) -> nat
    decreases n, 0int,
{
    (if n.focused {
        1nat
    } else {
        0nat
    }) + forest_focused_count_from(n.nodes@, 0) + forest_focused_count_from(
        n.floating_nodes@,
        0,
    )
}

/// How many nodes of the subtrees `s[i..]` are focused.
pub open spec fn forest_focused_count_from(s: Seq<ContainerNode>, i: int) -> nat
    decreases s, s.len() - i,
{
    if i < 0 || i >= s.len() {
        0
    } else {
        node_focused_count(s[i]) + forest_focused_count_from(s, i + 1)
    }
}

/// How many nodes of the subtrees in `s` are focused.
pub open spec fn forest_focused_count(s: Seq<ContainerNode>) -> nat {
    forest_focused_count_from(s, 0)
}

/// Does the subtree rooted at `n` contain the node value `x`?
pub open spec fn node_contains(n: ContainerNode, x: ContainerNode) -> bool
    decreases n, 0int,
{
    n == x || forest_contains_from(n.nodes@, 0, x) || forest_contains_from(
        n.floating_nodes@,
        0,
        x,
    )
}

/// Does one of the subtrees `s[i..]` contain the node value `x`?
pub open spec fn forest_contains_from(s: Seq<ContainerNode>, i: int, x: ContainerNode) -> bool
    decreases s, s.len() - i,
{
    if i < 0 || i >= s.len() {
        false
    } else {
        node_contains(s[i], x) || forest_contains_from(s, i + 1, x)
    }
}

/// Does one of the subtrees in `s` contain the node value `x`?
pub open spec fn forest_contains(s: Seq<ContainerNode>, x: ContainerNode) -> bool {
    forest_contains_from(s, 0, x)
}

/// The window manager's guarantee about focus history: wherever a focused
/// node lies inside a subtree, the focus history of every ancestor on the
/// way down is non-empty. The locator's pruning rule is complete exactly on
/// trees with this shape.
pub open spec fn node_path_ok(n: ContainerNode) -> bool
    decreases n, 0int,
{
    &&& (forest_focused_count(n.nodes@) + forest_focused_count(n.floating_nodes@) > 0
        ==> n.focus@.len() > 0)
    &&& forest_path_ok_from(n.nodes@, 0)
    &&& forest_path_ok_from(n.floating_nodes@, 0)
}

/// `node_path_ok` for every node of the subtrees `s[i..]`.
pub open spec fn forest_path_ok_from(s: Seq<ContainerNode>, i: int) -> bool
    decreases s, s.len() - i,
{
    if i < 0 || i >= s.len() {
        true
    } else {
        node_path_ok(s[i]) && forest_path_ok_from(s, i + 1)
    }
}

/// `node_path_ok` for every node of the subtrees in `s`.
pub open spec fn forest_path_ok(s: Seq<ContainerNode>) -> bool {
    forest_path_ok_from(s, 0)
}

/// A node contained in some subtree `s[i..]` is contained in every wider
/// suffix `s[j..]` with `j <= i`.
proof fn lemma_forest_contains_from_le(s: Seq<ContainerNode>, j: int, i: int, x: ContainerNode)
    requires
        0 <= j <= i,
        forest_contains_from(s, i, x),
    ensures
        forest_contains_from(s, j, x),
    decreases i - j,
{
    if j < i {
        lemma_forest_contains_from_le(s, j + 1, i, x);
    }
}

/// Whatever a member subtree contains, the forest contains.
proof fn lemma_forest_contains_element(s: Seq<ContainerNode>, i: int, x: ContainerNode)
    requires
        0 <= i < s.len(),
        node_contains(s[i], x),
    ensures
        forest_contains(s, x),
{
    assert(forest_contains_from(s, i, x));
    lemma_forest_contains_from_le(s, 0, i, x);
}

/// Every subtree contains its own root.
proof fn lemma_node_contains_self(n: ContainerNode)
    ensures
        node_contains(n, n),
{
}

/// A focused node contained in a subtree makes that subtree's count positive.
proof fn lemma_node_count_pos(n: ContainerNode, x: ContainerNode)
    requires
        node_contains(n, x),
        x.focused,
    ensures
        node_focused_count(n) > 0,
    decreases n, 0int,
{
    if n == x {
    } else if forest_contains_from(n.nodes@, 0, x) {
        lemma_forest_count_pos(n.nodes@, 0, x);
    } else {
        lemma_forest_count_pos(n.floating_nodes@, 0, x);
    }
}

/// A focused node contained in some subtree `s[i..]` makes that count positive.
proof fn lemma_forest_count_pos(s: Seq<ContainerNode>, i: int, x: ContainerNode)
    requires
        forest_contains_from(s, i, x),
        x.focused,
    ensures
        forest_focused_count_from(s, i) > 0,
    decreases s, s.len() - i,
{
    if node_contains(s[i], x) {
        lemma_node_count_pos(s[i], x);
    } else {
        lemma_forest_count_pos(s, i + 1, x);
    }
}

/// Well-formedness of a forest carries down to each member.
proof fn lemma_forest_path_ok_at(s: Seq<ContainerNode>, j: int, i: int)
    requires
        0 <= j <= i < s.len(),
        forest_path_ok_from(s, j),
    ensures
        node_path_ok(s[i]),
    decreases i - j,
{
    if j < i {
        lemma_forest_path_ok_at(s, j + 1, i);
    }
}

/// In a subtree holding at most one focused node, any two contained focused
/// node values coincide.
proof fn lemma_node_focused_unique(n: ContainerNode, a: ContainerNode, b: ContainerNode)
    requires
        node_focused_count(n) <= 1,
        node_contains(n, a),
        a.focused,
        node_contains(n, b),
        b.focused,
    ensures
        a == b,
    decreases n, 0int,
{
    let children = n.nodes@;
    let floating = n.floating_nodes@;
    if n == a && n == b {
    } else if n == a {
        // b lies in a child forest while n itself is focused: two focused nodes.
        if forest_contains_from(children, 0, b) {
            lemma_forest_count_pos(children, 0, b);
        } else {
            lemma_forest_count_pos(floating, 0, b);
        }
    } else if n == b {
        if forest_contains_from(children, 0, a) {
            lemma_forest_count_pos(children, 0, a);
        } else {
            lemma_forest_count_pos(floating, 0, a);
        }
    } else if forest_contains_from(children, 0, a) && forest_contains_from(children, 0, b) {
        lemma_forest_focused_unique(children, 0, a, b);
    } else if forest_contains_from(floating, 0, a) && forest_contains_from(floating, 0, b) {
        lemma_forest_focused_unique(floating, 0, a, b);
    } else if forest_contains_from(children, 0, a) {
        lemma_forest_count_pos(children, 0, a);
        lemma_forest_count_pos(floating, 0, b);
    } else {
        lemma_forest_count_pos(floating, 0, a);
        lemma_forest_count_pos(children, 0, b);
    }
}

/// In subtrees `s[i..]` holding at most one focused node, any two contained
/// focused node values coincide.
proof fn lemma_forest_focused_unique(
    s: Seq<ContainerNode>,
    i: int,
    a: ContainerNode,
    b: ContainerNode,
)
    requires
        forest_focused_count_from(s, i) <= 1,
        forest_contains_from(s, i, a),
        a.focused,
        forest_contains_from(s, i, b),
        b.focused,
    ensures
        a == b,
    decreases s, s.len() - i,
{
    if node_contains(s[i], a) && node_contains(s[i], b) {
        lemma_node_focused_unique(s[i], a, b);
    } else if node_contains(s[i], a) {
        lemma_node_count_pos(s[i], a);
        lemma_forest_count_pos(s, i + 1, b);
    } else if node_contains(s[i], b) {
        lemma_node_count_pos(s[i], b);
        lemma_forest_count_pos(s, i + 1, a);
    } else {
        lemma_forest_focused_unique(s, i + 1, a, b);
    }
}

/// Depth-first, pre-order search for the focused container across a root
/// sequence of nodes.
///
/// A subtree whose root has an empty focus history is pruned: on trees the
/// window manager guarantees (`forest_path_ok`), such a subtree cannot hold
/// the focused node. The search stops at the first focused node found.
pub fn find_focused<'a>(nodes: &'a Vec<ContainerNode>) -> (r: Result<
    &'a ContainerNode,
    ProtectError,
>)
    ensures
        r matches Ok(n) ==> n.focused && forest_contains(nodes@, *n),
        r matches Err(e) ==> e == ProtectError::FocusNotFound,
        forest_focused_count(nodes@) == 0 ==> r is Err,
        forest_path_ok(nodes@) && forest_focused_count(nodes@) > 0 ==> r is Ok,
        forest_path_ok(nodes@) && forest_focused_count(nodes@) == 1 ==> (forall|
            m: ContainerNode,
        |
            forest_contains(nodes@, m) && m.focused ==> (r matches Ok(n) && *n == m)),
    decreases nodes@,
{
    let ghost s = nodes@;
    let len = nodes.len();
    let mut i: usize = 0;
    while i < len
        invariant
            0 <= i <= len,
            len == s.len(),
            s == nodes@,
            forest_path_ok(s) ==> forest_focused_count(s) == forest_focused_count_from(
                s,
                i as int,
            ),
        decreases len - i,
    {
        let node = &nodes[i];
        if node.focused {
            proof {
                lemma_node_contains_self(*node);
                lemma_forest_contains_element(s, i as int, *node);
                lemma_forest_count_pos(s, 0, *node);
                if forest_path_ok(s) && forest_focused_count(s) == 1 {
                    assert forall|m: ContainerNode| forest_contains(s, m) && m.focused implies *node
                        == m by {
                        lemma_forest_focused_unique(s, 0, *node, m);
                    }
                }
            }
            return Ok(node);
        } else if node.focus.len() > 0 {
            proof {
                assert(decreases_to!(s => s[i as int]));
            }
            match find_focused(&node.nodes) {
                Ok(sub) => {
                    proof {
                        lemma_forest_contains_element(s, i as int, *sub);
                        lemma_forest_count_pos(s, 0, *sub);
                        if forest_path_ok(s) && forest_focused_count(s) == 1 {
                            assert forall|m: ContainerNode|
                                forest_contains(s, m) && m.focused implies *sub == m by {
                                lemma_forest_focused_unique(s, 0, *sub, m);
                            }
                        }
                    }
                    return Ok(sub);
                },
                Err(_) => {},
            }
            match find_focused(&node.floating_nodes) {
                Ok(f) => {
                    proof {
                        lemma_forest_contains_element(s, i as int, *f);
                        lemma_forest_count_pos(s, 0, *f);
                        if forest_path_ok(s) && forest_focused_count(s) == 1 {
                            assert forall|m: ContainerNode|
                                forest_contains(s, m) && m.focused implies *f == m by {
                                lemma_forest_focused_unique(s, 0, *f, m);
                            }
                        }
                    }
                    return Ok(f);
                },
                Err(_) => {},
            }
            // Both recursive searches failed: on a well-formed tree the
            // subtree below this node holds no focused node.
            proof {
                if forest_path_ok(s) {
                    lemma_forest_path_ok_at(s, 0, i as int);
                    assert(forest_path_ok_from(node.nodes@, 0));
                    assert(forest_path_ok_from(node.floating_nodes@, 0));
                    assert(node_focused_count(s[i as int]) == 0);
                    assert(forest_focused_count_from(s, i as int) == forest_focused_count_from(
                        s,
                        i as int + 1,
                    ));
                }
            }
        } else {
            // Empty focus history: on a well-formed tree this subtree holds
            // no focused node, so it is pruned without a visit.
            proof {
                if forest_path_ok(s) {
                    lemma_forest_path_ok_at(s, 0, i as int);
                    assert(node_focused_count(s[i as int]) == 0);
                    assert(forest_focused_count_from(s, i as int) == forest_focused_count_from(
                        s,
                        i as int + 1,
                    ));
                }
            }
        }
        i += 1;
    }
    Err(ProtectError::FocusNotFound)
}

} // verus!
