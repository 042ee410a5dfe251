//! The protection state machine: pure decision logic from the requested
//! operation and the focused node's marker state to the IPC commands and
//! the notification of one invocation. It issues nothing itself; the caller
//! executes the returned intent.
use vstd::prelude::*;

use crate::ProtectError;
use crate::commands::mark_command;
use crate::commands::spec_kill_command;
use crate::commands::spec_mark_command;
use crate::commands::spec_unmark_command;
use crate::commands::unmark_command;
use crate::kill::node_kill_ids;
use crate::kill::safe_kill;
use crate::kill::spec_kill_commands;
use crate::marker::get_mark;
use crate::marker::lemma_first_marker_protected;
use crate::marker::lemma_marker_has_prefix;
use crate::marker::spec_first_marker;
use crate::marker::spec_has_prefix;
use crate::marker::spec_marker;
use crate::marker::spec_node_protected;
use crate::tree::ContainerNode;

verus! {

/// The operations a caller may request.
#[derive(PartialEq, Eq, Structural, Clone, Copy, Debug)]
pub enum Operation {
    /// Guarded kill of the focused subtree.
    Kill,
    /// Protect the focused container.
    Lock,
    /// Remove the focused container's protection.
    Unlock,
    /// Lock when unprotected, unlock when protected.
    Toggle,
}

/// The notification an invocation reports, shown best-effort by the caller.
#[derive(PartialEq, Eq, Structural, Clone, Copy, Debug)]
pub enum Notice {
    /// The focused container is protected (newly, or already was).
    Protected,
    /// The focused container is unprotected (newly, or already was).
    Unprotected,
    /// A kill was refused because the focused container is protected.
    IsProtected,
}

impl Notice {
    /// The notification's summary line.
    pub fn summary(&self) -> (s: &'static str)
        ensures
            *self == Notice::Protected ==> s@ == "Window protected"@,
            *self == Notice::Unprotected ==> s@ == "Window unprotected"@,
            *self == Notice::IsProtected ==> s@ == "Window is protected"@,
    {
        match self {
            Notice::Protected => "Window protected",
            Notice::Unprotected => "Window unprotected",
            Notice::IsProtected => "Window is protected",
        }
    }

    /// The icon named beside the summary.
    pub fn icon(&self) -> (s: &'static str)
        ensures
            *self == Notice::Protected ==> s@ == "changes-prevent-symbolic.symbolic"@,
            *self == Notice::Unprotected ==> s@ == "changes-allow-symbolic.symbolic"@,
            *self == Notice::IsProtected ==> s@ == "changes-prevent-symbolic.symbolic"@,
    {
        match self {
            Notice::Protected => "changes-prevent-symbolic.symbolic",
            Notice::Unprotected => "changes-allow-symbolic.symbolic",
            Notice::IsProtected => "changes-prevent-symbolic.symbolic",
        }
    }
}

/// What one invocation must do: the IPC commands to run, in order, and the
/// notification to show.
pub struct Intent {
    /// The textual commands to hand to the window manager.
    pub commands: Vec<String>,
    /// The notification to show, if any.
    pub notice: Option<Notice>,
}

/// The commands the state machine asks for, per the transition table:
/// lock or toggle on an unprotected node marks it; kill on an unprotected
/// node runs the guarded kill; unlock or toggle on a protected node removes
/// its first protection marker; everything else runs no command.
pub open spec fn spec_commands(op: Operation, node: ContainerNode, nonce: nat) -> Seq<Seq<char>> {
    match spec_first_marker(node.marks@) {
        None => match op {
            Operation::Lock | Operation::Toggle => seq![spec_mark_command(nonce)],
            Operation::Kill => spec_kill_commands(node),
            Operation::Unlock => Seq::empty(),
        },
        Some(m) => match op {
            Operation::Unlock | Operation::Toggle => seq![spec_unmark_command(m@)],
            Operation::Kill | Operation::Lock => Seq::empty(),
        },
    }
}

/// The notification the state machine asks for: none for a guarded kill,
/// a refusal notice for a kill of a protected node, and the resulting
/// protection state otherwise.
pub open spec fn spec_notice(op: Operation, node: ContainerNode) -> Option<Notice> {
    match spec_first_marker(node.marks@) {
        None => match op {
            Operation::Lock | Operation::Toggle => Some(Notice::Protected),
            Operation::Kill => None,
            Operation::Unlock => Some(Notice::Unprotected),
        },
        Some(_) => match op {
            Operation::Unlock | Operation::Toggle => Some(Notice::Unprotected),
            Operation::Kill => Some(Notice::IsProtected),
            Operation::Lock => Some(Notice::Protected),
        },
    }
}

/// Decide what an invocation must do, from the requested operation and the
/// focused node.
pub fn decide(op: Operation, focused: &ContainerNode, nonce: u128) -> (r: Intent)
    ensures
        r.commands@.len() == spec_commands(op, *focused, nonce as nat).len(),
        forall|i: int|
            0 <= i < r.commands@.len() ==> r.commands@[i]@ == spec_commands(
                op,
                *focused,
                nonce as nat,
            )[i],
        r.notice == spec_notice(op, *focused),
{
    let ghost goal = spec_commands(op, *focused, nonce as nat);
    let mark = get_mark(focused);
    match mark {
        None => match op {
            Operation::Lock | Operation::Toggle => {
                let mut commands: Vec<String> = Vec::new();
                commands.push(mark_command(nonce));
                proof {
                    assert(goal == seq![spec_mark_command(nonce as nat)]);
                }
                Intent { commands, notice: Some(Notice::Protected) }
            },
            Operation::Kill => {
                let commands = safe_kill(focused);
                proof {
                    assert(goal == spec_kill_commands(*focused));
                    assert forall|i: int| 0 <= i < commands@.len() implies commands@[i]@
                        == goal[i] by {
                        assert(goal[i] == spec_kill_command(node_kill_ids(*focused)[i]));
                    }
                }
                Intent { commands, notice: None }
            },
            Operation::Unlock => {
                let commands: Vec<String> = Vec::new();
                Intent { commands, notice: Some(Notice::Unprotected) }
            },
        },
        Some(m) => match op {
            Operation::Unlock | Operation::Toggle => {
                let mut commands: Vec<String> = Vec::new();
                commands.push(unmark_command(m.as_str()));
                proof {
                    assert(goal == seq![spec_unmark_command(m@)]);
                }
                Intent { commands, notice: Some(Notice::Unprotected) }
            },
            Operation::Kill => {
                let commands: Vec<String> = Vec::new();
                Intent { commands, notice: Some(Notice::IsProtected) }
            },
            Operation::Lock => {
                let commands: Vec<String> = Vec::new();
                Intent { commands, notice: Some(Notice::Protected) }
            },
        },
    }
}

/// What an operation argument means: exactly the four known words are
/// accepted; anything else is an invalid operation, and the caller must
/// exit without contacting the window manager.
pub open spec fn spec_parse(s: Seq<char>) -> Result<Operation, ProtectError> {
    if s == "kill"@ {
        Ok(Operation::Kill)
    } else if s == "lock"@ {
        Ok(Operation::Lock)
    } else if s == "unlock"@ {
        Ok(Operation::Unlock)
    } else if s == "toggle"@ {
        Ok(Operation::Toggle)
    } else {
        Err(ProtectError::InvalidOperation)
    }
}

/// Are two string slices equal as character sequences?
fn str_eq(a: &str, b: &str) -> (r: bool)
    ensures
        r == (a@ == b@),
{
    let sa = a.to_owned();
    let sb = b.to_owned();
    sa.eq(&sb)
}

/// Parse the single operation argument.
pub fn parse_operation(arg: &str) -> (r: Result<Operation, ProtectError>)
    ensures
        r == spec_parse(arg@),
{
    if str_eq(arg, "kill") {
        Ok(Operation::Kill)
    } else if str_eq(arg, "lock") {
        Ok(Operation::Lock)
    } else if str_eq(arg, "unlock") {
        Ok(Operation::Unlock)
    } else if str_eq(arg, "toggle") {
        Ok(Operation::Toggle)
    } else {
        Err(ProtectError::InvalidOperation)
    }
}

/// Toggle is only a dispatch convenience: on an unprotected node it asks
/// for exactly what lock asks for, on a protected node exactly what unlock
/// asks for.
pub proof fn lemma_toggle_dispatch(node: ContainerNode, nonce: nat)
    ensures
        !spec_node_protected(node) ==> spec_commands(Operation::Toggle, node, nonce)
            == spec_commands(Operation::Lock, node, nonce) && spec_notice(
            Operation::Toggle,
            node,
        ) == spec_notice(Operation::Lock, node),
        spec_node_protected(node) ==> spec_commands(Operation::Toggle, node, nonce)
            == spec_commands(Operation::Unlock, node, nonce) && spec_notice(
            Operation::Toggle,
            node,
        ) == spec_notice(Operation::Unlock, node),
{
    lemma_first_marker_protected(node);
}

/// Unlock of an already-unprotected node asks for no IPC mutation at all,
/// only the notification it would give anyway.
pub proof fn lemma_unlock_idempotent(node: ContainerNode, nonce: nat)
    requires
        !spec_node_protected(node),
    ensures
        spec_commands(Operation::Unlock, node, nonce) == Seq::<Seq<char>>::empty(),
        spec_notice(Operation::Unlock, node) == Some(Notice::Unprotected),
{
    lemma_first_marker_protected(node);
}

/// Locking twice is idempotent: the first lock of an unprotected node asks
/// for one marking command; the second invocation, seeing the marker the
/// first attached, asks for no further command and for the same
/// notification.
pub proof fn lemma_lock_idempotent(
    node: ContainerNode,
    node2: ContainerNode,
    m: String,
    nonce1: nat,
    nonce2: nat,
)
    requires
        !spec_node_protected(node),
        m@ == spec_marker(nonce1),
        node2.marks@ == node.marks@.push(m),
    ensures
        spec_commands(Operation::Lock, node, nonce1) == seq![spec_mark_command(nonce1)],
        spec_notice(Operation::Lock, node) == Some(Notice::Protected),
        spec_node_protected(node2),
        spec_commands(Operation::Lock, node2, nonce2) == Seq::<Seq<char>>::empty(),
        spec_notice(Operation::Lock, node2) == Some(Notice::Protected),
{
    lemma_first_marker_protected(node);
    lemma_marker_has_prefix(nonce1);
    assert(spec_node_protected(node2)) by {
        let j = node.marks@.len() as int;
        assert(0 <= j < node2.marks@.len() && spec_has_prefix(node2.marks@[j]@));
    }
    lemma_first_marker_protected(node2);
}

} // verus!
