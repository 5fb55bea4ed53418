use lairbnb_rs::scan::{find_byte, find_char, split_text};

#[test]
fn the_first_of_several_is_found() {
    assert_eq!(find_byte(b"a b c", b' '), 1);
    assert_eq!(find_byte(b" ab", b' '), 0);
    assert_eq!(find_byte(b"ab ", b' '), 2);
    assert_eq!(find_char("se:cr:et", ':'), 2);
    assert_eq!(find_char(":", ':'), 0);
}

#[test]
fn what_is_not_there_is_found_at_the_end() {
    assert_eq!(find_byte(b"", b' '), 0);
    assert_eq!(find_byte(b"abc", b' '), 3);
    assert_eq!(find_char("", ':'), 0);
    assert_eq!(find_char("secret", ':'), 6);
}

#[test]
fn characters_are_counted_not_bytes() {
    assert_eq!(find_char("日本:密码", ':'), 2);
    assert_eq!(find_char("日本", ':'), 2);
    assert_eq!(find_byte("日本:密码".as_bytes(), b':'), 6);
}

#[test]
fn text_is_cut_at_the_first_separator() {
    assert_eq!(
        split_text("bob:se:cr:et", ':'),
        Some(("bob".to_string(), "se:cr:et".to_string()))
    );
    assert_eq!(split_text(":", ':'), Some(("".to_string(), "".to_string())));
    assert_eq!(split_text("bob:", ':'), Some(("bob".to_string(), "".to_string())));
    assert_eq!(split_text(":pw", ':'), Some(("".to_string(), "pw".to_string())));
    assert_eq!(
        split_text("日本:密:码", ':'),
        Some(("日本".to_string(), "密:码".to_string()))
    );
}

#[test]
fn text_without_the_separator_is_not_cut() {
    assert_eq!(split_text("", ':'), None);
    assert_eq!(split_text("bobsecret", ':'), None);
    assert_eq!(split_text("bob;secret", ':'), None);
}
