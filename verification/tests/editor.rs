use line_editor::editor::Editor;
use line_editor::model::Command;

fn chars(s: &str) -> Vec<char> {
    s.chars().collect()
}

fn doc(lines: &[&str]) -> Vec<Vec<char>> {
    lines.iter().map(|s| chars(s)).collect()
}

fn editor(lines: &[&str], line: usize, column: usize) -> Editor {
    let mut ed = Editor::new(doc(lines));
    // walk the cursor to the requested position with ordinary moves
    for _ in 0..line {
        ed.apply(Command::MoveDown);
    }
    for _ in 0..column {
        ed.apply(Command::MoveRight);
    }
    assert_eq!(ed.cursor(), (line, column));
    ed
}

fn assert_doc(ed: &Editor, expected: &[&str]) {
    let lines = ed.lines();
    assert_eq!(lines.len(), expected.len());
    for (got, want) in lines.iter().zip(expected.iter()) {
        let want: Vec<char> = chars(want);
        assert_eq!(got, &want);
    }
}

fn assert_bound_cache_consistent(ed: &Editor) {
    assert_eq!(ed.max_column.len(), ed.buffer.len());
    for i in 0..ed.buffer.len() {
        assert_eq!(ed.max_column[i], ed.buffer[i].len() + 1);
    }
    assert!(ed.line < ed.buffer.len());
    assert!(ed.column <= ed.buffer[ed.line].len());
}

#[test]
fn invariant_preserved_along_command_sequence() {
    let mut ed = editor(&["hello", "world", ""], 0, 0);
    let cmds = [
        Command::Insert('a'),
        Command::MoveRight,
        Command::Newline,
        Command::MoveUp,
        Command::MoveRight,
        Command::MoveRight,
        Command::Delete,
        Command::MoveDown,
        Command::MoveDown,
        Command::Delete,
        Command::MoveLeft,
        Command::MoveLeft,
        Command::Newline,
        Command::MoveUp,
        Command::Quit,
    ];
    assert_bound_cache_consistent(&ed);
    for cmd in cmds {
        ed.apply(cmd);
        assert_bound_cache_consistent(&ed);
    }
}

#[test]
fn insert_then_delete_restores_state() {
    let starts = [
        (vec!["hello", "world"], 0, 0),
        (vec!["hello", "world"], 0, 5),
        (vec!["hello", "world"], 1, 3),
        (vec![""], 0, 0),
    ];
    for (lines, line, column) in starts {
        let mut ed = editor(&lines, line, column);
        let before_doc: Vec<Vec<char>> = ed.lines().clone();
        let before_cursor = ed.cursor();
        ed.apply(Command::Insert('q'));
        ed.apply(Command::Delete);
        assert_eq!(ed.lines(), &before_doc);
        assert_eq!(ed.cursor(), before_cursor);
    }
}

#[test]
fn newline_then_delete_restores_state() {
    let starts = [
        (vec!["hello", "world"], 0, 2),
        (vec!["hello", "world"], 0, 0),
        (vec!["hello", "world"], 0, 5),
        (vec!["hello", "world"], 1, 5),
        (vec![""], 0, 0),
    ];
    for (lines, line, column) in starts {
        let mut ed = editor(&lines, line, column);
        let before_doc: Vec<Vec<char>> = ed.lines().clone();
        let before_cursor = ed.cursor();
        ed.apply(Command::Newline);
        ed.apply(Command::Delete);
        assert_eq!(ed.lines(), &before_doc);
        assert_eq!(ed.cursor(), before_cursor);
    }
}

#[test]
fn edge_moves_are_no_ops() {
    // move_up at the top line
    let mut ed = editor(&["ab", "cd"], 0, 1);
    ed.apply(Command::MoveUp);
    assert_eq!(ed.cursor(), (0, 1));
    assert_doc(&ed, &["ab", "cd"]);

    // move_down at the last line
    let mut ed = editor(&["ab", "cd"], 1, 1);
    ed.apply(Command::MoveDown);
    assert_eq!(ed.cursor(), (1, 1));
    assert_doc(&ed, &["ab", "cd"]);

    // move_left at the top-left corner
    let mut ed = editor(&["ab", "cd"], 0, 0);
    ed.apply(Command::MoveLeft);
    assert_eq!(ed.cursor(), (0, 0));
    assert_doc(&ed, &["ab", "cd"]);

    // move_right at the last column of the last line
    let mut ed = editor(&["ab", "cd"], 1, 2);
    ed.apply(Command::MoveRight);
    assert_eq!(ed.cursor(), (1, 2));
    assert_doc(&ed, &["ab", "cd"]);

    // delete at the top-left corner
    let mut ed = editor(&["ab", "cd"], 0, 0);
    ed.apply(Command::Delete);
    assert_eq!(ed.cursor(), (0, 0));
    assert_doc(&ed, &["ab", "cd"]);
}

#[test]
fn round_trip_without_edits() {
    let input = doc(&["hello", "", "world  ", "tab\there"]);
    let ed = Editor::new(input.clone());
    assert_eq!(ed.lines(), &input);
    assert_eq!(ed.cursor(), (0, 0));
}

#[test]
fn empty_input_materializes_one_empty_line() {
    let ed = Editor::new(Vec::new());
    assert_eq!(ed.lines().len(), 1);
    assert!(ed.lines()[0].is_empty());
    assert_eq!(ed.cursor(), (0, 0));
}

#[test]
fn scenario_newline_splits_line() {
    let mut ed = editor(&["hello", "world"], 0, 2);
    ed.apply(Command::Newline);
    assert_doc(&ed, &["he", "llo", "world"]);
    assert_eq!(ed.cursor(), (1, 0));
}

#[test]
fn scenario_delete_joins_after_newline() {
    let mut ed = editor(&["hello", "world"], 0, 2);
    ed.apply(Command::Newline);
    ed.apply(Command::Delete);
    assert_doc(&ed, &["hello", "world"]);
    assert_eq!(ed.cursor(), (0, 2));
}

#[test]
fn scenario_insert_at_line_start() {
    let mut ed = editor(&["abc"], 0, 0);
    ed.apply(Command::Insert('X'));
    assert_doc(&ed, &["Xabc"]);
    assert_eq!(ed.cursor(), (0, 1));
    assert_eq!(ed.max_column[0], 5);
}

#[test]
fn scenario_move_left_wraps_to_previous_line_end() {
    let mut ed = editor(&["abc", "def"], 1, 0);
    ed.apply(Command::MoveLeft);
    assert_eq!(ed.cursor(), (0, 3));
}

#[test]
fn scenario_move_down_twice_with_clamping() {
    let mut ed = editor(&["a", "bb", "c"], 0, 0);
    ed.apply(Command::MoveDown);
    assert_eq!(ed.cursor(), (1, 0));
    ed.apply(Command::MoveDown);
    assert_eq!(ed.cursor(), (2, 0));
}

#[test]
fn move_down_clamps_column_to_shorter_line() {
    let mut ed = editor(&["abcd", "x", "yz"], 0, 4);
    ed.apply(Command::MoveDown);
    assert_eq!(ed.cursor(), (1, 1));
    ed.apply(Command::MoveDown);
    assert_eq!(ed.cursor(), (2, 1));
}

#[test]
fn move_up_clamps_column_to_shorter_line() {
    let mut ed = editor(&["x", "abcd"], 1, 4);
    ed.apply(Command::MoveUp);
    assert_eq!(ed.cursor(), (0, 1));
}

#[test]
fn move_right_wraps_to_next_line_start() {
    let mut ed = editor(&["ab", "cd"], 0, 2);
    ed.apply(Command::MoveRight);
    assert_eq!(ed.cursor(), (1, 0));
}

#[test]
fn insert_in_middle_and_at_end() {
    let mut ed = editor(&["ac"], 0, 1);
    ed.apply(Command::Insert('b'));
    assert_doc(&ed, &["abc"]);
    assert_eq!(ed.cursor(), (0, 2));
    ed.apply(Command::MoveRight);
    ed.apply(Command::Insert('d'));
    assert_doc(&ed, &["abcd"]);
    assert_eq!(ed.cursor(), (0, 4));
}

#[test]
fn delete_in_middle_of_line() {
    let mut ed = editor(&["abc"], 0, 2);
    ed.apply(Command::Delete);
    assert_doc(&ed, &["ac"]);
    assert_eq!(ed.cursor(), (0, 1));
}

#[test]
fn delete_joins_lines_at_column_zero() {
    let mut ed = editor(&["ab", "cd"], 1, 0);
    ed.apply(Command::Delete);
    assert_doc(&ed, &["abcd"]);
    assert_eq!(ed.cursor(), (0, 2));
}

#[test]
fn newline_at_line_end_makes_empty_line() {
    let mut ed = editor(&["ab"], 0, 2);
    ed.apply(Command::Newline);
    assert_doc(&ed, &["ab", ""]);
    assert_eq!(ed.cursor(), (1, 0));
}

#[test]
fn newline_at_line_start_makes_empty_line_above() {
    let mut ed = editor(&["ab"], 0, 0);
    ed.apply(Command::Newline);
    assert_doc(&ed, &["", "ab"]);
    assert_eq!(ed.cursor(), (1, 0));
}

#[test]
fn quit_leaves_state_untouched() {
    let mut ed = editor(&["ab", "cd"], 1, 1);
    ed.apply(Command::Quit);
    assert_doc(&ed, &["ab", "cd"]);
    assert_eq!(ed.cursor(), (1, 1));
}
