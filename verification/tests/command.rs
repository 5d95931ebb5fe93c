use querygate::command::tokenize;

#[test]
fn tokenizer_splits_on_whitespace_runs() {
    assert_eq!(tokenize("GET key"), vec!["GET", "key"]);
    assert_eq!(tokenize("  SET\t key \n value  "), vec!["SET", "key", "value"]);
}

#[test]
fn tokenizer_of_blank_text_yields_no_tokens() {
    assert_eq!(tokenize(""), Vec::<String>::new());
    assert_eq!(tokenize(" \t\r\n \u{b}\u{c}"), Vec::<String>::new());
}

#[test]
fn tokenizer_keeps_single_token_whole() {
    assert_eq!(tokenize("PING"), vec!["PING"]);
    assert_eq!(tokenize("\u{b}INCR\u{c}"), vec!["INCR"]);
}

#[test]
fn tokenizer_splits_on_unicode_whitespace() {
    assert_eq!(tokenize("a\u{a0}b"), vec!["a", "b"]);
    assert_eq!(tokenize("\u{2003}GET\u{3000}key\u{85}"), vec!["GET", "key"]);
    assert_eq!(tokenize("\u{a0}\u{2028}\u{205f}"), Vec::<String>::new());
    assert_eq!("a\u{a0}b".split_whitespace().collect::<Vec<_>>(), tokenize("a\u{a0}b"));
}
