//! The mathematical model of the editor: an abstract state (document lines
//! plus cursor), the well-formedness invariant, and one transition function
//! per command. The executable editor is specified against these
//! transitions, and the algebraic laws of the commands are proved about
//! them.

use vstd::prelude::*;

verus! {

/// One decoded keystroke of the editor's command surface.
#[derive(Clone, Copy, PartialEq, Eq, Structural, Debug)]
pub enum Command {
    /// Insert a character at the cursor.
    Insert(char),
    /// Backspace: delete the character before the cursor, or join with the
    /// previous line when the cursor is at column 0.
    Delete,
    /// Enter: split the current line at the cursor.
    Newline,
    MoveUp,
    MoveDown,
    MoveLeft,
    MoveRight,
    /// End the session; the state is untouched.
    Quit,
}

/// The abstract editor state: the document as a sequence of lines (each a
/// sequence of characters) and the cursor as a (line, column) pair.
#[verifier::ext_equal]
pub ghost struct State {
    pub doc: Seq<Seq<char>>,
    pub line: int,
    pub column: int,
}

impl State {
    /// The invariant every reachable state satisfies: the document holds at
    /// least one line, the cursor is on a line of the document, and the
    /// column lies between 0 and that line's length (inclusive: the
    /// position one past the last character is the end-of-line insertion
    /// point).
    pub open spec fn wf(self) -> bool {
        &&& self.doc.len() >= 1
        &&& 0 <= self.line < self.doc.len()
        &&& 0 <= self.column <= self.doc[self.line].len()
    }

    /// Move to the previous line, clamping the column to that line's
    /// length; at the top line, do nothing.
    pub open spec fn move_up(self) -> State {
        if self.line == 0 {
            self
        } else {
            let target = self.doc[self.line - 1].len() as int;
            State {
                line: self.line - 1,
                column: if self.column <= target {
                    self.column
                } else {
                    target
                },
                ..self
            }
        }
    }

    /// Move to the next line, clamping the column to that line's length;
    /// at the last line, do nothing.
    pub open spec fn move_down(self) -> State {
        if self.line == self.doc.len() - 1 {
            self
        } else {
            let target = self.doc[self.line + 1].len() as int;
            State {
                line: self.line + 1,
                column: if self.column <= target {
                    self.column
                } else {
                    target
                },
                ..self
            }
        }
    }

    /// Move one column left; at column 0, wrap to the end of the previous
    /// line; at the top-left corner, do nothing.
    pub open spec fn move_left(self) -> State {
        if self.column > 0 {
            State { column: self.column - 1, ..self }
        } else if self.line > 0 {
            State {
                line: self.line - 1,
                column: self.doc[self.line - 1].len() as int,
                ..self
            }
        } else {
            self
        }
    }

    /// Move one column right; at the end of a line, wrap to the start of
    /// the next line; at the bottom-right corner, do nothing.
    pub open spec fn move_right(self) -> State {
        if self.column < self.doc[self.line].len() {
            State { column: self.column + 1, ..self }
        } else if self.line < self.doc.len() - 1 {
            State { line: self.line + 1, column: 0, ..self }
        } else {
            self
        }
    }

    /// Insert a character at the cursor and advance the cursor past it.
    pub open spec fn insert(self, c: char) -> State {
        State {
            doc: self.doc.update(self.line, self.doc[self.line].insert(self.column, c)),
            column: self.column + 1,
            ..self
        }
    }

    /// Backspace. With the cursor past column 0, remove the character
    /// before it. At column 0 of a later line, join the current line onto
    /// the previous one and place the cursor at the join point. At the
    /// top-left corner, do nothing.
    pub open spec fn delete(self) -> State {
        if self.column > 0 {
            State {
                doc: self.doc.update(self.line, self.doc[self.line].remove(self.column - 1)),
                column: self.column - 1,
                ..self
            }
        } else if self.line > 0 {
            State {
                doc: self.doc.update(self.line - 1, self.doc[self.line - 1] + self.doc[self.line])
                    .remove(self.line),
                line: self.line - 1,
                column: self.doc[self.line - 1].len() as int,
            }
        } else {
            self
        }
    }

    /// Split the current line at the cursor: the prefix stays, the suffix
    /// becomes a new line below, and the cursor moves to its start.
    pub open spec fn newline(self) -> State {
        State {
            doc: self.doc.update(self.line, self.doc[self.line].take(self.column)).insert(
                self.line + 1,
                self.doc[self.line].skip(self.column),
            ),
            line: self.line + 1,
            column: 0,
        }
    }

    /// The transition of one command.
    pub open spec fn step(self, cmd: Command) -> State {
        match cmd {
            Command::Insert(c) => self.insert(c),
            Command::Delete => self.delete(),
            Command::Newline => self.newline(),
            Command::MoveUp => self.move_up(),
            Command::MoveDown => self.move_down(),
            Command::MoveLeft => self.move_left(),
            Command::MoveRight => self.move_right(),
            Command::Quit => self,
        }
    }

    /// The state after a whole sequence of commands, applied in order.
    pub open spec fn run(self, cmds: Seq<Command>) -> State
        decreases cmds.len(),
    {
        if cmds.len() == 0 {
            self
        } else {
            self.step(cmds[0]).run(cmds.skip(1))
        }
    }
}

} // verus!
