//! The algebraic laws of the editing commands, stated and proved over the
//! model's transition functions: the invariant is preserved by every
//! command sequence, insert and split are undone by backspace, and every
//! edge condition is a no-op.

use vstd::prelude::*;

use crate::model::Command;
use crate::model::State;

verus! {

/// Every single command takes a well-formed state to a well-formed state.
pub proof fn lemma_step_preserves_wf(s: State, cmd: Command)
    requires
        s.wf(),
    ensures
        s.step(cmd).wf(),
{
}

/// Any sequence of commands, applied in order, ends in a well-formed
/// state.
pub proof fn lemma_run_preserves_wf(s: State, cmds: Seq<Command>)
    requires
        s.wf(),
    ensures
        s.run(cmds).wf(),
    decreases cmds.len(),
{
    if cmds.len() > 0 {
        lemma_step_preserves_wf(s, cmds[0]);
        lemma_run_preserves_wf(s.step(cmds[0]), cmds.skip(1));
    }
}

/// Invariant preservation: along any sequence of commands, the state after
/// each command — that is, after every prefix of the sequence — is well
/// formed.
pub proof fn lemma_wf_after_each_command(s: State, cmds: Seq<Command>)
    requires
        s.wf(),
    ensures
        forall|i: int| 0 <= i <= cmds.len() ==> #[trigger] s.run(cmds.take(i)).wf(),
{
    assert forall|i: int| 0 <= i <= cmds.len() implies #[trigger] s.run(cmds.take(i)).wf() by {
        lemma_run_preserves_wf(s, cmds.take(i));
    }
}

/// Insert/delete inverse: from any well-formed state, inserting a
/// character and then deleting restores the exact prior document and
/// cursor.
pub proof fn lemma_insert_then_delete(s: State, c: char)
    requires
        s.wf(),
    ensures
        s.insert(c).delete() == s,
{
    let t = s.insert(c);
    assert(t.doc[t.line].remove(t.column - 1) =~= s.doc[s.line]);
    assert(t.delete().doc =~~= s.doc);
    assert(t.delete() =~~= s);
}

/// Split/join inverse: from any well-formed state, splitting the line at
/// the cursor and then deleting joins the halves back and restores the
/// exact prior document and cursor, including at column 0 and at the end
/// of the line.
pub proof fn lemma_newline_then_delete(s: State)
    requires
        s.wf(),
    ensures
        s.newline().delete() == s,
{
    let t = s.newline();
    assert(t.doc[t.line - 1] + t.doc[t.line] =~= s.doc[s.line]);
    assert(t.delete().doc =~~= s.doc);
    assert(t.delete() =~~= s);
}

/// Moving up at the top line changes nothing.
pub proof fn lemma_move_up_at_top(s: State)
    requires
        s.wf(),
        s.line == 0,
    ensures
        s.move_up() == s,
{
}

/// Moving down at the last line changes nothing.
pub proof fn lemma_move_down_at_bottom(s: State)
    requires
        s.wf(),
        s.line == s.doc.len() - 1,
    ensures
        s.move_down() == s,
{
}

/// Moving left at the top-left corner changes nothing.
pub proof fn lemma_move_left_at_origin(s: State)
    requires
        s.wf(),
        s.line == 0,
        s.column == 0,
    ensures
        s.move_left() == s,
{
}

/// Moving right at the last column of the last line changes nothing.
pub proof fn lemma_move_right_at_end(s: State)
    requires
        s.wf(),
        s.line == s.doc.len() - 1,
        s.column == s.doc[s.line].len(),
    ensures
        s.move_right() == s,
{
}

/// Backspace at the top-left corner changes nothing.
pub proof fn lemma_delete_at_origin(s: State)
    requires
        s.wf(),
        s.line == 0,
        s.column == 0,
    ensures
        s.delete() == s,
{
}

} // verus!
