use vizer_gateway::text::normalize_quotes;

#[test]
fn normalize_replaces_every_single_quote() {
    assert_eq!(normalize_quotes("{'a': 'b'}"), "{\"a\": \"b\"}");
    assert_eq!(normalize_quotes("'"), "\"");
    assert_eq!(normalize_quotes("''''"), "\"\"\"\"");
}

#[test]
fn normalize_keeps_text_without_single_quotes() {
    let text = "{\"title\": \"Dark\", \"year\": 2017}";
    assert_eq!(normalize_quotes(text), text);
}

#[test]
fn normalize_of_empty_text_is_empty() {
    assert_eq!(normalize_quotes(""), "");
}

#[test]
fn normalize_twice_is_normalize_once() {
    let once = normalize_quotes("it's ['x', \"y\"]");
    let twice = normalize_quotes(&once);
    assert_eq!(once, "it\"s [\"x\", \"y\"]");
    assert_eq!(twice, once);
}

#[test]
fn normalize_leaves_no_single_quote_and_keeps_the_length() {
    let text = "a'b'c 'd' \u{e9}\u{65e5}'";
    let out = normalize_quotes(text);
    assert!(!out.contains('\''));
    assert_eq!(out.chars().count(), text.chars().count());
    assert_eq!(out, "a\"b\"c \"d\" \u{e9}\u{65e5}\"");
}

#[test]
fn normalize_alters_no_other_character() {
    let text = "`\u{2019}\u{2018}\"\\/\n\t\u{0}";
    assert_eq!(normalize_quotes(text), text);
}

#[test]
fn normalize_corrupts_an_apostrophe_in_a_title() {
    assert_eq!(normalize_quotes("{'title': 'Grey's Anatomy'}"), "{\"title\": \"Grey\"s Anatomy\"}");
}
