use snippets::ownership::makes_copy;
use snippets::ownership::takes_ownership;
use snippets::render::bool_string;
use snippets::render::i32_string;
use snippets::render::u64_string;
use snippets::user::build_user;
use snippets::user::user_line;
use snippets::words::first_word;

#[test]
fn ownership_demo_two_lines_in_order() {
    let lines = vec![takes_ownership(String::from("hello")), makes_copy(5)];
    assert_eq!(lines, vec![String::from("hello"), String::from("5")]);
}

#[test]
fn takes_ownership_returns_the_text() {
    assert_eq!(takes_ownership(String::from("")), String::from(""));
    assert_eq!(takes_ownership(String::from("spam")), String::from("spam"));
}

#[test]
fn first_word_of_hello_world_is_five() {
    let s = String::from("hello world");
    assert_eq!(first_word(&s), 5);
}

#[test]
fn first_word_without_space_is_the_length() {
    let s = String::from("nospace");
    assert_eq!(first_word(&s), s.len());
}

#[test]
fn first_word_of_empty_text_is_zero() {
    let s = String::from("");
    assert_eq!(first_word(&s), 0);
}

#[test]
fn first_word_with_leading_space_is_zero() {
    let s = String::from(" leading");
    assert_eq!(first_word(&s), 0);
}

#[test]
fn first_word_counts_bytes_not_characters() {
    // The accented vowels take two bytes each, so the space sits at byte 6.
    let s = String::from("h\u{e9}llo w\u{f6}rld");
    assert_eq!(first_word(&s), 6);
}

#[test]
fn unsigned_rendering() {
    assert_eq!(u64_string(0), String::from("0"));
    assert_eq!(u64_string(7), String::from("7"));
    assert_eq!(u64_string(10), String::from("10"));
    assert_eq!(u64_string(907), String::from("907"));
    assert_eq!(u64_string(u64::MAX), String::from("18446744073709551615"));
}

#[test]
fn signed_rendering() {
    assert_eq!(i32_string(0), String::from("0"));
    assert_eq!(i32_string(5), String::from("5"));
    assert_eq!(i32_string(-42), String::from("-42"));
    assert_eq!(i32_string(i32::MAX), String::from("2147483647"));
    assert_eq!(i32_string(i32::MIN), String::from("-2147483648"));
}

#[test]
fn boolean_rendering() {
    assert_eq!(bool_string(true), String::from("true"));
    assert_eq!(bool_string(false), String::from("false"));
}

#[test]
fn build_user_fills_every_field() {
    let user = build_user(
        String::from("test@example.com"),
        String::from("testuser"),
        true,
        1,
    );
    assert_eq!(user.email, String::from("test@example.com"));
    assert_eq!(user.username, String::from("testuser"));
    assert!(user.active);
    assert_eq!(user.sign_in_count, 1);
}

#[test]
fn user_line_presents_the_four_fields() {
    let user = build_user(
        String::from("test@example.com"),
        String::from("testuser"),
        true,
        1,
    );
    assert_eq!(
        user_line(&user),
        String::from("test@example.com, testuser, true, 1")
    );
}

#[test]
fn user_line_with_inactive_user_and_large_count() {
    let user = build_user(String::from("a@b.c"), String::from("ab"), false, 1200);
    assert_eq!(user_line(&user), String::from("a@b.c, ab, false, 1200"));
}
