use clipboard_history::input::{digit_of, single_char};

#[test]
fn single_char_of_key_text() {
    assert_eq!(single_char("j"), Some('j'));
    assert_eq!(single_char("é"), Some('é'));
    assert_eq!(single_char(""), None);
    assert_eq!(single_char("ab"), None);
}

#[test]
fn digit_of_key_text() {
    assert_eq!(digit_of("1"), Some(1));
    assert_eq!(digit_of("9"), Some(9));
    assert_eq!(digit_of("0"), None);
    assert_eq!(digit_of("10"), None);
    assert_eq!(digit_of("a"), None);
}
