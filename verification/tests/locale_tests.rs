use main_dispatch::locale::{strip_modifier, MODIFIER_SIGN};

#[test]
fn modifier_sign_is_at() {
    assert_eq!(MODIFIER_SIGN, '@');
}

#[test]
fn locale_without_modifier_is_kept() {
    assert_eq!(strip_modifier("de_DE"), "de_DE");
}

#[test]
fn modifier_is_cut_off() {
    assert_eq!(strip_modifier("de_DE@currency=EUR"), "de_DE");
}

#[test]
fn cut_is_at_the_first_sign() {
    assert_eq!(strip_modifier("sr_RS@latin@extra"), "sr_RS");
}

#[test]
fn empty_identifier_stays_empty() {
    assert_eq!(strip_modifier(""), "");
}

#[test]
fn leading_sign_leaves_nothing() {
    assert_eq!(strip_modifier("@rg=gbzzzz"), "");
}

#[test]
fn trailing_sign_is_dropped() {
    assert_eq!(strip_modifier("en_GB@"), "en_GB");
}

#[test]
fn positions_count_characters() {
    assert_eq!(strip_modifier("日本語@x"), "日本語");
}
