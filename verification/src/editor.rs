//! The executable editor: a line buffer, a parallel cache of per-line
//! column bounds, and the cursor. Every command is specified against the
//! transitions of [`crate::model::State`] and proved to keep the
//! invariant.

use vstd::prelude::*;

use crate::model::Command;
use crate::model::State;

verus! {

/// The editor core. `buffer` is the document, top to bottom; `max_column`
/// caches, for each line, the number of valid cursor columns on it (line
/// length plus one, counting the end-of-line insertion point); `line` and
/// `column` are the cursor.
pub struct Editor {
    pub line: usize,
    pub column: usize,
    pub buffer: Vec<Vec<char>>,
    pub max_column: Vec<usize>,
}

impl View for Editor {
    type V = State;

    /// The abstract state: the lines as character sequences, and the
    /// cursor. The bound cache is derived data and does not appear.
    open spec fn view(&self) -> State {
        State {
            doc: Seq::new(self.buffer@.len(), |i: int| self.buffer@[i]@),
            line: self.line as int,
            column: self.column as int,
        }
    }
}

impl Editor {
    /// The representation invariant: the bound cache mirrors the line
    /// lengths entry for entry, and the abstract state is well formed.
    pub open spec fn wf(self) -> bool {
        &&& self.max_column@.len() == self.buffer@.len()
        &&& (forall|i: int|
            0 <= i < self.buffer@.len() ==> #[trigger] self.max_column@[i]
                == self.buffer@[i]@.len() + 1)
        &&& self@.wf()
    }

    /// Build an editor over the given lines with the cursor at the top
    /// left. An empty input materializes one empty line, so the cursor
    /// always has a line to sit on.
    pub fn new(lines: Vec<Vec<char>>) -> (ed: Editor)
        requires
            forall|i: int| 0 <= i < lines@.len() ==> #[trigger] lines@[i]@.len() < usize::MAX,
        ensures
            ed.wf(),
            ed@.line == 0,
            ed@.column == 0,
            lines@.len() > 0 ==> ed@.doc == Seq::new(lines@.len(), |i: int| lines@[i]@),
            lines@.len() == 0 ==> ed@.doc == seq![Seq::<char>::empty()],
    {
        let mut buffer = lines;
        if buffer.len() == 0 {
            buffer.push(Vec::new());
        }
        let mut max_column: Vec<usize> = Vec::new();
        let mut i: usize = 0;
        while i < buffer.len()
            invariant
                i <= buffer@.len(),
                forall|k: int| 0 <= k < buffer@.len() ==> #[trigger] buffer@[k]@.len() < usize::MAX,
                max_column@.len() == i,
                forall|k: int|
                    0 <= k < i ==> #[trigger] max_column@[k] == buffer@[k]@.len() + 1,
            decreases buffer@.len() - i,
        {
            let n = buffer[i].len();
            max_column.push(n + 1);
            i += 1;
        }
        Editor { line: 0, column: 0, buffer, max_column }
    }

    /// Move the cursor to the previous line, clamping the column to that
    /// line's length; at the top line this is a no-op.
    pub fn move_up(&mut self)
        requires
            old(self).wf(),
        ensures
            final(self).wf(),
            final(self)@ == old(self)@.move_up(),
    {
        if self.line > 0 {
            self.line = self.line - 1;
            let bound = self.max_column[self.line];
            if self.column >= bound {
                self.column = bound - 1;
            }
        }
    }

    /// Move the cursor to the next line, clamping the column to that
    /// line's length; at the last line this is a no-op.
    pub fn move_down(&mut self)
        requires
            old(self).wf(),
        ensures
            final(self).wf(),
            final(self)@ == old(self)@.move_down(),
    {
        if self.line < self.buffer.len() - 1 {
            self.line = self.line + 1;
            let bound = self.max_column[self.line];
            if self.column >= bound {
                self.column = bound - 1;
            }
        }
    }

    /// Move the cursor one column left; at column 0 it wraps to the end of
    /// the previous line; at the top-left corner this is a no-op.
    pub fn move_left(&mut self)
        requires
            old(self).wf(),
        ensures
            final(self).wf(),
            final(self)@ == old(self)@.move_left(),
    {
        if self.column > 0 {
            self.column = self.column - 1;
        } else if self.line > 0 {
            self.line = self.line - 1;
            self.column = self.max_column[self.line] - 1;
        }
    }

    /// Move the cursor one column right; at the end of a line it wraps to
    /// the start of the next line; at the bottom-right corner this is a
    /// no-op.
    pub fn move_right(&mut self)
        requires
            old(self).wf(),
        ensures
            final(self).wf(),
            final(self)@ == old(self)@.move_right(),
    {
        let bound = self.max_column[self.line];
        if self.column + 1 < bound {
            self.column = self.column + 1;
        } else if self.line < self.buffer.len() - 1 {
            self.line = self.line + 1;
            self.column = 0;
        }
    }

    /// A machine limit, not part of the editing policy: inserting must be
    /// able to store the grown line's bound in the cache. It can only fail
    /// on a line already holding nearly `usize::MAX` characters.
    pub open spec fn can_insert(self) -> bool {
        self@.doc[self@.line].len() + 2 <= usize::MAX
    }

    /// Insert a character at the cursor and advance the cursor past it.
    /// On a line at the machine's length limit the command is absorbed as
    /// a no-op.
    pub fn insert(&mut self, c: char)
        requires
            old(self).wf(),
        ensures
            final(self).wf(),
            old(self).can_insert() ==> final(self)@ == old(self)@.insert(c),
            !old(self).can_insert() ==> *final(self) == *old(self),
    {
        let bound = self.max_column[self.line];
        if bound < usize::MAX {
            let target = self.line;
            let col = self.column;
            let row = &mut self.buffer[target];
            row.insert(col, c);
            self.column = col + 1;
            self.max_column[target] = bound + 1;
            proof {
                assert(self@.doc =~~= old(self)@.insert(c).doc);
            }
        }
    }

    /// A machine limit, not part of the editing policy: joining two lines
    /// must be able to store the combined line's bound in the cache. It
    /// can only fail when the joined line would hold nearly `usize::MAX`
    /// characters.
    pub open spec fn can_delete(self) -> bool {
        (self@.column == 0 && self@.line > 0) ==> self@.doc[self@.line - 1].len()
            + self@.doc[self@.line].len() + 1 <= usize::MAX
    }

    /// Backspace. With the cursor past column 0, remove the character
    /// before it. At column 0 of a later line, join the current line onto
    /// the previous one and place the cursor at the join point. At the
    /// top-left corner this is a no-op, as is a join whose result would
    /// exceed the machine's length limit.
    pub fn delete(&mut self)
        requires
            old(self).wf(),
        ensures
            final(self).wf(),
            old(self).can_delete() ==> final(self)@ == old(self)@.delete(),
            !old(self).can_delete() ==> *final(self) == *old(self),
    {
        if self.column > 0 {
            let target = self.line;
            let col = self.column;
            let row = &mut self.buffer[target];
            row.remove(col - 1);
            self.column = col - 1;
            let bound = self.max_column[target];
            self.max_column[target] = bound - 1;
            proof {
                assert(self@.doc =~~= old(self)@.delete().doc);
            }
        } else if self.line > 0 {
            let prev_bound = self.max_column[self.line - 1];
            let cur_len = self.buffer[self.line].len();
            if cur_len <= usize::MAX - prev_bound {
                let mut row = self.buffer.remove(self.line);
                let target = self.line - 1;
                let prev = &mut self.buffer[target];
                prev.append(&mut row);
                self.max_column.remove(self.line);
                self.line = target;
                self.column = prev_bound - 1;
                self.max_column[target] = prev_bound + cur_len;
                proof {
                    assert(self@.doc =~~= old(self)@.delete().doc);
                    assert(self@ =~~= old(self)@.delete());
                }
            }
        }
    }

    /// Split the current line at the cursor: the prefix stays, the suffix
    /// becomes a new line below it, and the cursor moves to the start of
    /// the suffix.
    pub fn newline(&mut self)
        requires
            old(self).wf(),
        ensures
            final(self).wf(),
            final(self)@ == old(self)@.newline(),
    {
        let n = self.buffer.len();
        let target = self.line;
        let col = self.column;
        let bound = self.max_column[target];
        let row = &mut self.buffer[target];
        let suffix = row.split_off(col);
        let suffix_len = suffix.len();
        proof {
            // both halves are no longer than the split line was, so the
            // cache updates below stay within usize
            assert(target < n && col < bound && suffix_len < bound);
        }
        self.buffer.insert(target + 1, suffix);
        self.max_column[target] = col + 1;
        self.max_column.insert(target + 1, suffix_len + 1);
        self.line = target + 1;
        self.column = 0;
        proof {
            assert(self@.doc =~~= old(self)@.newline().doc);
        }
    }

    /// Whether a command is free of the machine length limits of
    /// [`Editor::can_insert`] and [`Editor::can_delete`]; every command on
    /// any document a real machine can hold satisfies it.
    pub open spec fn can_apply(self, cmd: Command) -> bool {
        match cmd {
            Command::Insert(_) => self.can_insert(),
            Command::Delete => self.can_delete(),
            _ => true,
        }
    }

    /// Apply one decoded command. The invariant holds afterwards whatever
    /// the command was, and the state changes exactly as the model's
    /// transition function says.
    pub fn apply(&mut self, cmd: Command)
        requires
            old(self).wf(),
        ensures
            final(self).wf(),
            old(self).can_apply(cmd) ==> final(self)@ == old(self)@.step(cmd),
            !old(self).can_apply(cmd) ==> *final(self) == *old(self),
    {
        match cmd {
            Command::Insert(c) => self.insert(c),
            Command::Delete => self.delete(),
            Command::Newline => self.newline(),
            Command::MoveUp => self.move_up(),
            Command::MoveDown => self.move_down(),
            Command::MoveLeft => self.move_left(),
            Command::MoveRight => self.move_right(),
            Command::Quit => {},
        }
    }

    /// The current line sequence, for rendering and saving.
    pub fn lines(&self) -> (r: &Vec<Vec<char>>)
        ensures
            r@.len() == self@.doc.len(),
            forall|i: int| 0 <= i < r@.len() ==> #[trigger] r@[i]@ == self@.doc[i],
    {
        &self.buffer
    }

    /// The cursor position as (line, column).
    pub fn cursor(&self) -> (r: (usize, usize))
        ensures
            r.0 == self@.line,
            r.1 == self@.column,
    {
        (self.line, self.column)
    }
}

} // verus!
