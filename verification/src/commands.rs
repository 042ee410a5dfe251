//! The textual IPC commands an invocation may ask the window manager to
//! run: marking, unmarking, and a kill scoped to one container id.
use vstd::prelude::*;

use vstd::string::StringExecFns;

use crate::marker::make_marker;
use crate::marker::spec_marker;
use crate::numfmt::spec_udec;
use crate::numfmt::u128_to_dec;

verus! {

/// The command that attaches a fresh protection marker to the focused
/// container.
pub open spec fn spec_mark_command(nonce: nat) -> Seq<char> {
    "mark --add "@ + spec_marker(nonce)
}

/// The command that removes the marker string `m` wherever it is set.
pub open spec fn spec_unmark_command(m: Seq<char>) -> Seq<char> {
    "unmark "@ + m
}

/// The kill command scoped to the container with identifier `id`.
pub open spec fn spec_kill_command(id: u64) -> Seq<char> {
    "[con_id="@ + spec_udec(id as nat) + "] kill"@
}

/// Build the marking command for a fresh nonce.
pub fn mark_command(nonce: u128) -> (s: String)
    ensures
        s@ == spec_mark_command(nonce as nat),
{
    let mut s = String::from_str("mark --add ");
    let m = make_marker(nonce);
    s.append(m.as_str());
    s
}

/// Build the unmarking command for the marker string `m`.
pub fn unmark_command(m: &str) -> (s: String)
    ensures
        s@ == spec_unmark_command(m@),
{
    let mut s = String::from_str("unmark ");
    s.append(m);
    s
}

/// Build the kill command scoped to the container with identifier `id`.
pub fn kill_command(id: u64) -> (s: String)
    ensures
        s@ == spec_kill_command(id),
{
    let mut s = String::from_str("[con_id=");
    let num = u128_to_dec(id as u128);
    s.append(num.as_str());
    s.append("] kill");
    proof {
        assert(s@ =~= spec_kill_command(id));
    }
    s
}

} // verus!
