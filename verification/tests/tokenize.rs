use rshell::tokenizer::split_line;

#[test]
fn plain_words_split_on_whitespace() {
    assert_eq!(split_line("echo a b"), vec!["echo", "a", "b"]);
    let line = "ls -l /tmp";
    let words: Vec<String> = line.split_whitespace().map(|w| w.to_string()).collect();
    assert_eq!(split_line(line), words);
}

#[test]
fn runs_of_whitespace_make_no_empty_tokens() {
    assert_eq!(split_line("a   b"), vec!["a", "b"]);
    assert_eq!(split_line("  a\t\tb  "), vec!["a", "b"]);
}

#[test]
fn empty_and_blank_lines_yield_nothing() {
    assert_eq!(split_line(""), Vec::<String>::new());
    assert_eq!(split_line("   \t  "), Vec::<String>::new());
}

#[test]
fn single_quotes_keep_spaces() {
    assert_eq!(split_line("'hello world'"), vec!["hello world"]);
}

#[test]
fn double_quotes_keep_spaces() {
    assert_eq!(split_line("\"hello world\""), vec!["hello world"]);
}

#[test]
fn backticks_keep_spaces() {
    assert_eq!(split_line("`hello world`"), vec!["hello world"]);
}

#[test]
fn quotes_are_stripped_from_tokens() {
    assert_eq!(split_line("echo \"a b\" c"), vec!["echo", "a b", "c"]);
}

#[test]
fn other_quote_inside_open_quote_is_literal() {
    assert_eq!(split_line("\"a'b\""), vec!["a'b"]);
    assert_eq!(split_line("'a\"b'"), vec!["a\"b"]);
}

#[test]
fn quoted_empty_segment_is_one_empty_token() {
    assert_eq!(split_line("''"), vec![""]);
}

#[test]
fn escaped_space_joins_a_token() {
    assert_eq!(split_line("echo a\\ b"), vec!["echo", "a b"]);
}

#[test]
fn escaped_quote_is_literal() {
    assert_eq!(split_line("\\\"a"), vec!["\"a"]);
}

#[test]
fn double_backslash_is_a_literal_backslash() {
    assert_eq!(split_line("\\\\c"), vec!["\\c"]);
    assert_eq!(split_line("a\\\\b"), vec!["a\\b"]);
}

#[test]
fn single_backslash_before_ordinary_char_is_dropped() {
    assert_eq!(split_line("a\\b"), vec!["ab"]);
}
