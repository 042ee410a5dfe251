//! The guarded kill: the recursive, protection-aware plan for terminating
//! the focused subtree.
//!
//! Only leaves are ever killed, and only unprotected ones. A node with
//! layout children is never a direct target; protection on such a node does
//! not stop the descent, it only shields the node itself. Floating children
//! are not part of the descent: a floating container is a target only when
//! it is itself the focused node the walk starts from.
use vstd::prelude::*;

use crate::commands::kill_command;
use crate::commands::spec_kill_command;
use crate::marker::is_protected;
use crate::marker::spec_node_protected;
use crate::tree::ContainerNode;

verus! {

/// The identifiers of the containers a guarded kill of the subtree rooted
/// at `n` terminates: its unprotected leaves, in depth-first order.
pub open spec fn node_kill_ids(n: ContainerNode) -> Seq<u64>
    decreases n, 0int,
{
    if n.nodes@.len() == 0 && !spec_node_protected(n) {
        seq![n.id]
    } else {
        forest_kill_ids_from(n.nodes@, 0)
    }
}

/// The identifiers a guarded kill of the subtrees `s[i..]` terminates.
pub open spec fn forest_kill_ids_from(s: Seq<ContainerNode>, i: int) -> Seq<u64>
    decreases s, s.len() - i,
{
    if i < 0 || i >= s.len() {
        Seq::empty()
    } else {
        node_kill_ids(s[i]) + forest_kill_ids_from(s, i + 1)
    }
}

/// The command texts of a guarded kill of the subtree rooted at `n`.
pub open spec fn spec_kill_commands(n: ContainerNode) -> Seq<Seq<char>> {
    node_kill_ids(n).map_values(|id: u64| spec_kill_command(id))
}

/// Plan a guarded kill of the subtree rooted at `node`: one scoped kill
/// command for each unprotected leaf, in depth-first order. A protected
/// leaf yields no command at all.
///
/// The caller issues the commands in order; a command that fails is an
/// independent leaf, so earlier commands are not rolled back.
pub fn safe_kill(node: &ContainerNode) -> (cmds: Vec<String>)
    ensures
        cmds@.len() == node_kill_ids(*node).len(),
        forall|i: int|
            0 <= i < cmds@.len() ==> cmds@[i]@ == spec_kill_command(node_kill_ids(*node)[i]),
    decreases *node,
{
    let mut cmds: Vec<String> = Vec::new();
    if node.nodes.len() == 0 && !is_protected(node) {
        cmds.push(kill_command(node.id));
        return cmds;
    }
    let ghost ids = node_kill_ids(*node);
    let ghost s = node.nodes@;
    let ghost mut done: Seq<u64> = Seq::empty();
    let len = node.nodes.len();
    let mut i: usize = 0;
    while i < len
        invariant
            0 <= i <= len,
            len == s.len(),
            s == node.nodes@,
            ids == node_kill_ids(*node),
            ids == done + forest_kill_ids_from(s, i as int),
            cmds@.len() == done.len(),
            forall|j: int| 0 <= j < done.len() ==> cmds@[j]@ == spec_kill_command(done[j]),
        decreases len - i,
    {
        let child = &node.nodes[i];
        proof {
            assert(decreases_to!(*node => s[i as int]));
        }
        let mut sub = safe_kill(child);
        proof {
            done = done + node_kill_ids(s[i as int]);
            assert(ids == done + forest_kill_ids_from(s, i as int + 1)) by {
                assert(forest_kill_ids_from(s, i as int) == node_kill_ids(s[i as int])
                    + forest_kill_ids_from(s, i as int + 1));
                assert(ids =~= done + forest_kill_ids_from(s, i as int + 1));
            }
        }
        cmds.append(&mut sub);
        i += 1;
    }
    proof {
        assert(forest_kill_ids_from(s, len as int) =~= Seq::<u64>::empty());
        assert(ids =~= done);
    }
    cmds
}

/// A guarded kill of a protected leaf terminates nothing: it is a valid,
/// silent success.
pub proof fn lemma_kill_protected_leaf(n: ContainerNode)
    requires
        n.nodes@.len() == 0,
        spec_node_protected(n),
    ensures
        node_kill_ids(n) == Seq::<u64>::empty(),
{
    assert(node_kill_ids(n) =~= Seq::<u64>::empty());
}

/// A guarded kill of an unprotected leaf terminates exactly that leaf,
/// through one kill command scoped to its identifier.
pub proof fn lemma_kill_unprotected_leaf(n: ContainerNode)
    requires
        n.nodes@.len() == 0,
        !spec_node_protected(n),
    ensures
        node_kill_ids(n) == seq![n.id],
{
}

/// A guarded kill of a node with one protected and one unprotected leaf
/// child terminates exactly the unprotected one.
pub proof fn lemma_kill_guarded_pair(root: ContainerNode, a: ContainerNode, b: ContainerNode)
    requires
        root.nodes@ == seq![a, b],
        a.nodes@.len() == 0,
        spec_node_protected(a),
        b.nodes@.len() == 0,
        !spec_node_protected(b),
    ensures
        node_kill_ids(root) == seq![b.id],
{
    lemma_kill_protected_leaf(a);
    lemma_kill_unprotected_leaf(b);
    assert(root.nodes@[0] == a && root.nodes@[1] == b);
    assert(forest_kill_ids_from(root.nodes@, 2) =~= Seq::<u64>::empty());
    assert(forest_kill_ids_from(root.nodes@, 1) == node_kill_ids(b) + forest_kill_ids_from(
        root.nodes@,
        2,
    ));
    assert(forest_kill_ids_from(root.nodes@, 0) == node_kill_ids(a) + forest_kill_ids_from(
        root.nodes@,
        1,
    ));
    assert(node_kill_ids(root) =~= seq![b.id]);
}

} // verus!
