use ecommerce::customer::{CustomerEmail, CustomerName};
use ecommerce::name_email::{email_is_valid, name_is_valid, UserEmail, UserName};

#[test]
fn a_256_grapheme_long_name_is_valid() {
    let name = "a".repeat(256);
    assert!(UserName::parse(name).is_ok());
}

#[test]
fn a_name_longer_than_256_graphemes_is_rejected() {
    let name = "a".repeat(257);
    assert!(UserName::parse(name).is_err());
}

#[test]
fn whitespace_only_names_are_rejected() {
    let name = " ".to_string();
    assert!(UserName::parse(name).is_err());
}

#[test]
fn empty_string_is_rejected() {
    let name = "".to_string();
    assert!(UserName::parse(name).is_err());
}

#[test]
fn names_containing_an_invalid_character_are_rejected() {
    for name in &['/', '(', ')', '"', '<', '>', '\\', '{', '}'] {
        let name = name.to_string();
        assert!(UserName::parse(name).is_err());
    }
}

#[test]
fn a_valid_name_is_parsed_successfully() {
    let name = "Kashish Kashyap".to_string();
    assert!(UserName::parse(name).is_ok());
}

#[test]
fn empty_email_string_is_rejected() {
    let email = "".to_string();
    assert!(UserEmail::parse(email).is_err());
}

#[test]
fn email_missing_at_symbol_is_rejected() {
    let email = "kkgmail.com".to_string();
    assert!(UserEmail::parse(email).is_err());
}

#[test]
fn email_missing_subject_is_rejected() {
    let email = "@gmail.com".to_string();
    assert!(UserEmail::parse(email).is_err());
}

#[test]
fn a_well_formed_email_is_accepted() {
    let e = UserEmail::parse("kk@gmail.com".to_string()).ok().unwrap();
    assert_eq!(e.as_ref(), "kk@gmail.com");
}

#[test]
fn names_are_counted_in_graphemes_not_chars() {
    // "e" followed by a combining acute accent is one grapheme of two chars.
    let accepted = "e\u{301}".repeat(256);
    assert_eq!(accepted.chars().count(), 512);
    assert!(UserName::parse(accepted).is_ok());
    let refused = "e\u{301}".repeat(257);
    assert!(UserName::parse(refused).is_err());
}

#[test]
fn other_white_space_counts_as_blank() {
    assert!(UserName::parse("\t\u{3000}\u{a0}\n".to_string()).is_err());
    assert!(UserName::parse(" x ".to_string()).is_ok());
}

#[test]
fn name_rule_with_a_given_grapheme_count() {
    assert!(name_is_valid("bob", 256));
    assert!(!name_is_valid("bob", 257));
    assert!(!name_is_valid("b{ob", 4));
    assert!(!name_is_valid("   ", 3));
}

#[test]
fn refusal_messages_name_the_input() {
    let m = UserName::parse("a/b".to_string()).err().unwrap();
    assert_eq!(m, "a/b is not a valid subscriber name.");
    let m = UserEmail::parse("nope".to_string()).err().unwrap();
    assert_eq!(m, "nope is not a valid email address.");
}

#[test]
fn email_shape_edges() {
    assert!(email_is_valid("a.b-c+d%e_f@mail.example.org"));
    assert!(!email_is_valid("a@b.c"));
    assert!(!email_is_valid("a@.co"));
    assert!(!email_is_valid("a@b.co\n"));
    assert!(!email_is_valid("a@b.c0m"));
    assert!(!email_is_valid("a b@c.com"));
    assert!(email_is_valid("a@b.co"));
}

#[test]
fn customer_name_and_email_follow_the_same_rules() {
    let n = CustomerName::parse("Alice".to_string()).ok().unwrap();
    assert_eq!(n.as_ref(), "Alice");
    assert!(CustomerName::parse("<script>".to_string()).is_err());
    assert!(CustomerName::parse("x".repeat(257)).is_err());
    assert!(CustomerEmail::parse("alice@example.com".to_string()).is_ok());
    assert!(CustomerEmail::parse("alice.example.com".to_string()).is_err());
}
