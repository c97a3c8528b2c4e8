use reallystart::quoting::{collect_arg_string, enclose, join_pieces, push_escaped, quote_arg};

fn strings(items: &[&str]) -> Vec<String> {
    items.iter().map(|s| s.to_string()).collect()
}

#[test]
fn no_arguments_give_an_empty_line() {
    let args: Vec<String> = Vec::new();
    assert_eq!(collect_arg_string(&args), "");
}

#[test]
fn plain_token_is_unchanged() {
    assert_eq!(collect_arg_string(&strings(&["notepad.exe"])), "notepad.exe");
    assert_eq!(quote_arg("C:/Windows/notepad.exe"), "C:/Windows/notepad.exe");
    assert_eq!(quote_arg("--flag=value"), "--flag=value");
}

#[test]
fn token_with_a_space_is_enclosed() {
    assert_eq!(collect_arg_string(&strings(&["a b"])), "\"a b\"");
    assert_eq!(quote_arg("a b"), "\"a b\"");
}

#[test]
fn quote_in_a_token_gets_a_backslash() {
    assert_eq!(collect_arg_string(&strings(&["a\"b"])), "a\\\"b");
    assert_eq!(quote_arg("a\"b"), "a\\\"b");
}

#[test]
fn backslash_in_a_token_is_doubled() {
    assert_eq!(quote_arg("C:\\test.txt"), "C:\\\\test.txt");
    assert_eq!(quote_arg("\\"), "\\\\");
}

#[test]
fn white_space_other_than_a_space_calls_for_quotes() {
    assert_eq!(quote_arg("a\tb"), "\"a\tb\"");
    assert_eq!(quote_arg("a\nb"), "\"a\nb\"");
    assert_eq!(quote_arg("a\u{a0}b"), "\"a\u{a0}b\"");
    assert_eq!(quote_arg(" "), "\" \"");
}

#[test]
fn white_space_and_quote_in_one_token() {
    assert_eq!(quote_arg("say \"hi\""), "\"say \\\"hi\\\"\"");
    assert_eq!(quote_arg("C:\\Program Files\\x"), "\"C:\\\\Program Files\\\\x\"");
}

#[test]
fn empty_token_stays_empty() {
    assert_eq!(quote_arg(""), "");
    assert_eq!(collect_arg_string(&strings(&[""])), "");
    assert_eq!(collect_arg_string(&strings(&["a", "", "b"])), "a  b");
}

#[test]
fn tokens_are_joined_by_single_spaces() {
    let args = strings(&["C:\\Windows\\notepad.exe", "C:\\test.txt"]);
    assert_eq!(collect_arg_string(&args), "C:\\\\Windows\\\\notepad.exe C:\\\\test.txt");
    let args = strings(&["prog", "a b", "c\"d", "e"]);
    assert_eq!(collect_arg_string(&args), "prog \"a b\" c\\\"d e");
}

#[test]
fn characters_beyond_ascii_pass_through() {
    assert_eq!(quote_arg("h\u{e9}llo"), "h\u{e9}llo");
    assert_eq!(quote_arg("\u{8d8a}"), "\u{8d8a}");
}

#[test]
fn push_escaped_appends_to_what_is_there() {
    let mut out = String::from("x");
    push_escaped(&mut out, 'a');
    assert_eq!(out, "xa");
    push_escaped(&mut out, '"');
    assert_eq!(out, "xa\\\"");
    push_escaped(&mut out, '\\');
    assert_eq!(out, "xa\\\"\\\\");
    push_escaped(&mut out, ' ');
    assert_eq!(out, "xa\\\"\\\\ ");
}

#[test]
fn enclose_adds_quotes_only_on_demand() {
    assert_eq!(enclose(String::from("ab"), true), "\"ab\"");
    assert_eq!(enclose(String::from("ab"), false), "ab");
    assert_eq!(enclose(String::new(), true), "\"\"");
    assert_eq!(enclose(String::new(), false), "");
}

#[test]
fn join_pieces_puts_one_space_between_neighbours() {
    assert_eq!(join_pieces(&strings(&[])), "");
    assert_eq!(join_pieces(&strings(&["a"])), "a");
    assert_eq!(join_pieces(&strings(&["a", "b"])), "a b");
    assert_eq!(join_pieces(&strings(&["a", "b c", "d"])), "a b c d");
}
