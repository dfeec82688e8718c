use newsletter::subscription_token::SubscriptionToken;

#[test]
fn a_25_chars_long_alphanumeric_token_is_valid() {
    let token = "a".repeat(25);
    assert!(SubscriptionToken::parse(token).is_ok());
}

#[test]
fn a_token_longer_than_25_chars_is_rejected() {
    let token = "a".repeat(26);
    assert!(SubscriptionToken::parse(token).is_err());
}

#[test]
fn a_token_less_than_25_chars_is_rejected() {
    let token = "a".repeat(24);
    assert!(SubscriptionToken::parse(token).is_err());
}

#[test]
fn empty_token_is_rejected() {
    let token = "".to_string();
    assert!(SubscriptionToken::parse(token).is_err());
}

#[test]
fn whitespace_only_tokens_are_rejected() {
    let token: String = " ".repeat(25);
    assert!(SubscriptionToken::parse(token).is_err());
}

#[test]
fn tokens_containing_an_invalid_character_are_rejected() {
    for token in &['*', '@', '\u{451}', '\u{1F980}'] {
        let token = format!("{token}").repeat(25);
        assert!(SubscriptionToken::parse(token).is_err());
    }
}

#[test]
fn a_valid_token_is_parsed_successfully() {
    let token = "1".repeat(25);
    assert!(SubscriptionToken::parse(token).is_ok());
}

#[test]
fn a_fresh_token_is_25_alphanumeric_chars() {
    let token = SubscriptionToken::new();
    let s = token.as_ref();
    assert_eq!(s.chars().count(), 25);
    assert!(s.chars().all(|c| c.is_ascii_alphanumeric()));
}

#[test]
fn a_fresh_token_parses_as_valid() {
    let token = SubscriptionToken::new();
    assert!(SubscriptionToken::parse(token.as_ref().to_string()).is_ok());
}

#[test]
fn a_default_token_is_valid() {
    let token = SubscriptionToken::default();
    assert_eq!(token.as_ref().chars().count(), 25);
}

#[test]
fn the_rejection_message_names_the_token() {
    let err = SubscriptionToken::parse("nope".to_string()).unwrap_err();
    assert_eq!(err, "nope is not a valid subscription token");
}
