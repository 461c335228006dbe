use file_shell::command::Command;

#[test]
fn tokenize_collapses_whitespace_runs() {
    let tokens = Command::parse_user_input("   a   b\tc  ");
    assert_eq!(tokens, vec!["a".to_string(), "b".to_string(), "c".to_string()]);
}

#[test]
fn tokenize_empty_line_gives_no_tokens() {
    let tokens = Command::parse_user_input("");
    assert_eq!(tokens, Vec::<String>::new());
}

#[test]
fn tokenize_single_word() {
    let tokens = Command::parse_user_input("x");
    assert_eq!(tokens, vec!["x".to_string()]);
}

#[test]
fn tokenize_never_yields_empty_strings() {
    let tokens = Command::parse_user_input(" \t cp  a.txt \t b.txt \t ");
    assert_eq!(
        tokens,
        vec!["cp".to_string(), "a.txt".to_string(), "b.txt".to_string()]
    );
    for t in &tokens {
        assert!(!t.is_empty());
    }
}

#[test]
fn identify_args_on_empty_list() {
    let (word, args) = Command::identify_args(Vec::new());
    assert_eq!(word, "");
    assert_eq!(args, Vec::<String>::new());
}

#[test]
fn identify_args_splits_word_from_rest() {
    let words = vec!["mv".to_string(), "a".to_string(), "b".to_string()];
    let (word, args) = Command::identify_args(words);
    assert_eq!(word, "mv");
    assert_eq!(args, vec!["a".to_string(), "b".to_string()]);
}
