//! The marker codec: the reserved-prefix convention that encodes protection
//! state in a container's marker strings.
use vstd::prelude::*;

use vstd::string::StringExecFns;

use crate::numfmt::spec_udec;
use crate::numfmt::u128_to_dec;
use crate::tree::ContainerNode;

verus! {

/// The reserved prefix that marks a container as protected.
pub open spec fn spec_prefix() -> Seq<char> {
    "j4-persist_"@
}

/// A marker string protects its node iff it begins with the reserved prefix.
pub open spec fn spec_has_prefix(m: Seq<char>) -> bool {
    m.len() >= spec_prefix().len() && m.subrange(0, spec_prefix().len() as int)
        == spec_prefix()
}

/// The reserved prefix as an executable string.
pub fn protection_prefix() -> (s: &'static str)
    ensures
        s@ == spec_prefix(),
{
    "j4-persist_"
}

/// Does `m` begin with the reserved protection prefix?
pub fn has_protection_prefix(m: &str) -> (r: bool)
    ensures
        r == spec_has_prefix(m@),
{
    let p = protection_prefix();
    let plen = p.unicode_len();
    let mlen = m.unicode_len();
    if mlen < plen {
        return false;
    }
    let mut i: usize = 0;
    while i < plen
        invariant
            0 <= i <= plen,
            p@ == spec_prefix(),
            plen == spec_prefix().len(),
            mlen == m@.len(),
            plen <= mlen,
            forall|j: int| 0 <= j < i ==> m@[j] == spec_prefix()[j],
        decreases plen - i,
    {
        if m.get_char(i) != p.get_char(i) {
            proof {
                if spec_has_prefix(m@) {
                    assert(m@.subrange(0, plen as int)[i as int] == m@[i as int]);
                }
            }
            return false;
        }
        i += 1;
    }
    proof {
        assert(m@.subrange(0, plen as int) =~= spec_prefix());
    }
    true
}

/// The marker string a lock operation attaches: the reserved prefix
/// followed by the nonce in decimal.
pub open spec fn spec_marker(nonce: nat) -> Seq<char> {
    spec_prefix() + spec_udec(nonce)
}

/// Build a fresh protection marker from a nonce.
pub fn make_marker(nonce: u128) -> (s: String)
    ensures
        s@ == spec_marker(nonce as nat),
{
    let mut s = String::from_str(protection_prefix());
    let num = u128_to_dec(nonce);
    s.append(num.as_str());
    s
}

/// A freshly built marker carries the reserved prefix: the node a lock
/// operation has marked is protected on the next query.
pub proof fn lemma_marker_has_prefix(nonce: nat)
    ensures
        spec_has_prefix(spec_marker(nonce)),
{
    assert(spec_marker(nonce).subrange(0, spec_prefix().len() as int) =~= spec_prefix());
}

/// A node is protected iff some string among its markers carries the
/// reserved prefix.
pub open spec fn spec_node_protected(n: ContainerNode) -> bool {
    exists|i: int| 0 <= i < n.marks@.len() && spec_has_prefix(n.marks@[i]@)
}

/// The first marker among `marks[i..]` that carries the reserved prefix.
pub open spec fn spec_first_marker_from(marks: Seq<String>, i: int) -> Option<String>
    decreases marks.len() - i,
{
    if i < 0 || i >= marks.len() {
        None
    } else if spec_has_prefix(marks[i]@) {
        Some(marks[i])
    } else {
        spec_first_marker_from(marks, i + 1)
    }
}

/// The first marker in `marks` that carries the reserved prefix.
pub open spec fn spec_first_marker(marks: Seq<String>) -> Option<String> {
    spec_first_marker_from(marks, 0)
}

/// A protection marker is found among `marks[i..]` iff one exists there,
/// and what is found carries the prefix.
proof fn lemma_first_marker_from(marks: Seq<String>, i: int)
    requires
        0 <= i,
    ensures
        spec_first_marker_from(marks, i) is Some <==> exists|j: int|
            i <= j < marks.len() && spec_has_prefix(marks[j]@),
        spec_first_marker_from(marks, i) matches Some(m) ==> spec_has_prefix(m@),
    decreases marks.len() - i,
{
    if i < marks.len() && !spec_has_prefix(marks[i]@) {
        lemma_first_marker_from(marks, i + 1);
    }
}

/// A node holds a first protection marker iff it is protected, and that
/// marker carries the reserved prefix.
pub proof fn lemma_first_marker_protected(n: ContainerNode)
    ensures
        spec_first_marker(n.marks@) is Some <==> spec_node_protected(n),
        spec_first_marker(n.marks@) matches Some(m) ==> spec_has_prefix(m@),
{
    lemma_first_marker_from(n.marks@, 0);
}

/// The first protection marker set on `node`, if any: the marker whose
/// removal the unlock operation must request.
pub fn get_mark(node: &ContainerNode) -> (r: Option<String>)
    ensures
        r == spec_first_marker(node.marks@),
        r is Some <==> spec_node_protected(*node),
{
    proof {
        lemma_first_marker_protected(*node);
    }
    let len = node.marks.len();
    let mut i: usize = 0;
    while i < len
        invariant
            0 <= i <= len,
            len == node.marks@.len(),
            spec_first_marker(node.marks@) == spec_first_marker_from(node.marks@, i as int),
        decreases len - i,
    {
        if has_protection_prefix(node.marks[i].as_str()) {
            return Some(node.marks[i].clone());
        }
        i += 1;
    }
    None
}

/// Is `node` protected, that is, does any of its markers carry the
/// reserved prefix?
pub fn is_protected(node: &ContainerNode) -> (r: bool)
    ensures
        r == spec_node_protected(*node),
{
    proof {
        lemma_first_marker_protected(*node);
    }
    let r = get_mark(node);
    match r {
        Some(_) => true,
        None => false,
    }
}

} // verus!
