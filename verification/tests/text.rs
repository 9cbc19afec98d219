use storyforge::text::{decimal_string, join, replace_char};

#[test]
fn decimal_string_writes_numerals() {
    assert_eq!(decimal_string(0), "0");
    assert_eq!(decimal_string(7), "7");
    assert_eq!(decimal_string(10), "10");
    assert_eq!(decimal_string(1905), "1905");
    assert_eq!(decimal_string(usize::MAX), format!("{}", usize::MAX));
}

#[test]
fn join_puts_separator_between_neighbours() {
    let none: Vec<String> = vec![];
    assert_eq!(join(&none, ", "), "");
    assert_eq!(join(&vec!["a".to_string()], ", "), "a");
    assert_eq!(join(&vec!["a".to_string(), "".to_string(), "c".to_string()], ", "), "a, , c");
}

#[test]
fn replace_char_turns_every_occurrence() {
    assert_eq!(replace_char("C:\\clips\\a b.mp4", '\\', '/'), "C:/clips/a b.mp4");
    assert_eq!(replace_char("", '\\', '/'), "");
    assert_eq!(replace_char("no separators", '\\', '/'), "no separators");
}
