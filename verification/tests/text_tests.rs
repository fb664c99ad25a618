use hank::keyed::{string_eq_str, KeyedList};
use hank::text::{
    chars_begin_with, join, line_end, rest_of_line, str_chars, string_of_range, text_is,
};

#[test]
fn characters_of_a_string() {
    assert_eq!(str_chars("a\u{e9}\u{1f600}"), vec!['a', '\u{e9}', '\u{1f600}']);
    assert_eq!(str_chars(""), Vec::<char>::new());
}

#[test]
fn strings_from_characters() {
    let v = str_chars("hello world");
    assert_eq!(string_of_range(&v, 6, 11), "world");
    assert_eq!(string_of_range(&v, 3, 3), "");
}

#[test]
fn joining() {
    let items = vec![String::from("btc"), String::from("eth"), String::from("ltc")];
    assert_eq!(join(&items, "|"), "btc|eth|ltc");
    assert_eq!(join(&vec![String::from("one")], ", "), "one");
    assert_eq!(join(&Vec::new(), "|"), "");
}

#[test]
fn lines() {
    let v = str_chars(".g first\nsecond");
    assert_eq!(line_end(&v, 0), 8);
    assert_eq!(rest_of_line(&v, 3), "first");
    assert_eq!(rest_of_line(&v, 9), "second");
    assert_eq!(rest_of_line(&v, v.len()), "");
}

#[test]
fn comparisons() {
    assert!(text_is("nmu", "nmu"));
    assert!(!text_is("nmu", "nm"));
    assert!(chars_begin_with(&str_chars(".cc 1"), ".cc "));
    assert!(!chars_begin_with(&str_chars(".c"), ".cc "));
    assert!(string_eq_str(&String::from("x"), "x"));
    assert!(!string_eq_str(&String::from("x"), "y"));
}

#[test]
fn keyed_list_reads_back_what_was_written() {
    let mut m: KeyedList<u64> = KeyedList::new();
    assert!(!m.contains_key("BTC"));
    assert_eq!(m.get("BTC"), None);
    m.insert(String::from("BTC"), 10);
    m.insert(String::from("ETH"), 20);
    assert_eq!(m.get("BTC"), Some(&10));
    assert_eq!(m.get("ETH"), Some(&20));
    m.insert(String::from("BTC"), 30);
    assert_eq!(m.get("BTC"), Some(&30));
    assert_eq!(m.get("ETH"), Some(&20));
    assert!(m.contains_key("ETH"));
    assert!(!m.contains_key("btc"));
}
