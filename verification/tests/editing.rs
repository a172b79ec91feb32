use rshell::editor::{EditAction, LineEditor, StepResult};

fn feed(ed: &mut LineEditor, bytes: &[u8]) -> Vec<StepResult> {
    let mut out = Vec::new();
    for b in bytes {
        out.push(ed.step(*b));
    }
    out
}

fn complete(ed: &mut LineEditor, bytes: &[u8]) -> String {
    let results = feed(ed, bytes);
    match results.last() {
        Some(StepResult::Done(line)) => line.clone(),
        _ => panic!("line did not complete"),
    }
}

#[test]
fn typing_then_newline_completes_the_line() {
    let mut ed = LineEditor::new();
    let line = complete(&mut ed, b"echo hi\n");
    assert_eq!(line, "echo hi");
    assert_eq!(ed.contents(), "");
    assert_eq!(ed.cursor(), 0);
}

#[test]
fn plain_typing_tokenizes_like_split_whitespace() {
    let mut ed = LineEditor::new();
    let line = complete(&mut ed, b"echo  one two\n");
    let words: Vec<String> = line.split_whitespace().map(|w| w.to_string()).collect();
    assert_eq!(rshell::tokenizer::split_line(&line), words);
    assert_eq!(words, vec!["echo", "one", "two"]);
}

#[test]
fn cursor_stays_within_the_buffer() {
    let mut ed = LineEditor::new();
    // Inserts, deletions and arrow movements, including some at the edges.
    let bytes = b"ab\x1b[D\x1b[D\x1b[Dc\x7f\x7f\x7f\x7f\x1b[C\x1b[Cxy";
    for b in bytes {
        ed.step(*b);
        assert!(ed.cursor() <= ed.contents().chars().count());
    }
}

#[test]
fn left_arrow_at_start_is_a_no_op() {
    let mut ed = LineEditor::new();
    feed(&mut ed, b"\x1b[D");
    assert_eq!(ed.cursor(), 0);
    assert_eq!(ed.contents(), "");
}

#[test]
fn right_arrow_at_end_is_a_no_op() {
    let mut ed = LineEditor::new();
    feed(&mut ed, b"ab\x1b[C");
    assert_eq!(ed.cursor(), 2);
    assert_eq!(ed.contents(), "ab");
}

#[test]
fn arrows_move_the_insertion_point() {
    let mut ed = LineEditor::new();
    // Type "ac", move left once, insert "b": the line reads "abc".
    feed(&mut ed, b"ac\x1b[Db");
    assert_eq!(ed.contents(), "abc");
    assert_eq!(ed.cursor(), 2);
    let line = complete(&mut ed, b"\n");
    assert_eq!(line, "abc");
}

#[test]
fn backspace_deletes_before_the_cursor() {
    let mut ed = LineEditor::new();
    feed(&mut ed, b"abc\x7f");
    assert_eq!(ed.contents(), "ab");
    assert_eq!(ed.cursor(), 2);
}

#[test]
fn backspace_on_an_empty_line_is_a_no_op() {
    let mut ed = LineEditor::new();
    let results = feed(&mut ed, b"\x7f");
    assert!(matches!(results[0], StepResult::Pending(EditAction::Ignore)));
    assert_eq!(ed.contents(), "");
    assert_eq!(ed.cursor(), 0);
}

#[test]
fn bracket_without_escape_is_literal() {
    let mut ed = LineEditor::new();
    let line = complete(&mut ed, b"a[D\n");
    assert_eq!(line, "a[D");
}

#[test]
fn interrupt_cancels_and_clears_the_buffer() {
    let mut ed = LineEditor::new();
    let results = feed(&mut ed, b"half a line\x03");
    assert!(matches!(results.last(), Some(StepResult::Cancelled)));
    assert_eq!(ed.contents(), "");
    assert_eq!(ed.cursor(), 0);
    // Editing continues on the next line as if nothing had been typed.
    let line = complete(&mut ed, b"next\n");
    assert_eq!(line, "next");
}

#[test]
fn open_quote_continues_the_line_across_newlines() {
    let mut ed = LineEditor::new();
    let results = feed(&mut ed, b"\"a");
    assert!(matches!(results.last(), Some(StepResult::Pending(_))));
    let results = feed(&mut ed, b"\n");
    assert!(matches!(
        results[0],
        StepResult::Pending(EditAction::Continue)
    ));
    let line = complete(&mut ed, b"b\"\n");
    assert_eq!(line, "\"ab\"");
    assert_eq!(rshell::tokenizer::split_line(&line), vec!["ab"]);
}

#[test]
fn trailing_backslash_continues_the_line() {
    let mut ed = LineEditor::new();
    let results = feed(&mut ed, b"a\\\n");
    assert!(matches!(
        results.last(),
        Some(StepResult::Pending(EditAction::Continue))
    ));
    let line = complete(&mut ed, b"b\n");
    assert_eq!(line, "ab");
}

#[test]
fn backslash_escapes_a_quote_without_opening_it() {
    let mut ed = LineEditor::new();
    // The escaped quote is inserted literally and no quote is open, so the
    // next newline completes the line.
    let line = complete(&mut ed, b"a\\\"b\n");
    assert_eq!(line, "a\"b");
}

#[test]
fn closing_quote_ends_the_continuation() {
    let mut ed = LineEditor::new();
    feed(&mut ed, b"'x y");
    let line = complete(&mut ed, b"'\n");
    assert_eq!(line, "'x y'");
}

#[test]
fn escape_sequence_bytes_are_not_inserted() {
    let mut ed = LineEditor::new();
    let results = feed(&mut ed, b"\x1b[");
    assert!(matches!(results[0], StepResult::Pending(EditAction::Ignore)));
    assert!(matches!(results[1], StepResult::Pending(EditAction::Ignore)));
    assert_eq!(ed.contents(), "");
}

#[test]
fn mid_line_insert_asks_for_a_repaint() {
    let mut ed = LineEditor::new();
    feed(&mut ed, b"ab\x1b[D");
    let results = feed(&mut ed, b"x");
    assert!(matches!(
        results[0],
        StepResult::Pending(EditAction::InsertRepaint('x'))
    ));
    assert_eq!(ed.contents(), "axb");
}
