use ztp_rust::routes::SubReq;
use ztp_rust::{SubscriberDetails, SubscriberEmail, SubscriberName};

#[test]
fn test_name() {}

#[test]
fn valid_name_is_kept_unchanged() {
    let name = SubscriberName::parse("le guin".to_string()).unwrap();
    assert_eq!(name.as_ref(), "le guin");
}

#[test]
fn name_of_256_bytes_is_accepted_and_257_refused() {
    let ok = SubscriberName::parse("a".repeat(256));
    assert!(ok.is_ok());
    let long = SubscriberName::parse("a".repeat(257));
    assert_eq!(long.err(), Some("Name too long".to_string()));
}

#[test]
fn name_length_counts_bytes_not_characters() {
    // 129 two-byte characters: 258 bytes.
    let long = SubscriberName::parse("é".repeat(129));
    assert_eq!(long.err(), Some("Name too long".to_string()));
    let ok = SubscriberName::parse("é".repeat(128));
    assert!(ok.is_ok());
}

#[test]
fn blank_names_are_refused() {
    for blank in ["", "   ", "\t\n\r", "\u{3000}\u{a0}", "\u{2028}"] {
        let r = SubscriberName::parse(blank.to_string());
        assert_eq!(r.err(), Some("Name is empty".to_string()), "{:?}", blank);
    }
}

#[test]
fn name_with_surrounding_space_is_kept_as_given() {
    let name = SubscriberName::parse("  ursula ".to_string()).unwrap();
    assert_eq!(name.as_ref(), "  ursula ");
}

#[test]
fn name_try_from_agrees_with_parse() {
    let name: SubscriberName = "dobro".to_string().try_into().unwrap();
    assert_eq!(name.as_ref(), "dobro");
    let refused: Result<SubscriberName, String> = " ".to_string().try_into();
    assert_eq!(refused.err(), Some("Name is empty".to_string()));
}

#[test]
fn valid_email_is_kept_unchanged() {
    let email = SubscriberEmail::parse("ursula_le_guin@gmail.com".to_string()).unwrap();
    assert_eq!(email.as_ref(), "ursula_le_guin@gmail.com");
    assert_eq!(email.clone().as_ref(), "ursula_le_guin@gmail.com");
}

#[test]
fn email_needs_exactly_one_at() {
    for bad in ["ursula@_le_guin@gmail.com", "some@@gmail.com", "no-at-sign.com", ""] {
        let r = SubscriberEmail::parse(bad.to_string());
        assert_eq!(r.err(), Some("More than one @ symbol".to_string()), "{}", bad);
    }
    assert!(SubscriberEmail::parse("@".to_string()).is_ok());
}

#[test]
fn long_email_is_refused_before_at_check() {
    let long = format!("{}@@x", "a".repeat(254));
    let r = SubscriberEmail::parse(long);
    assert_eq!(r.err(), Some("Email too long".to_string()));
    let ok = format!("{}@x", "a".repeat(254));
    assert!(SubscriberEmail::parse(ok).is_ok());
}

#[test]
fn email_try_from_agrees_with_parse() {
    let email: SubscriberEmail = "tester@test.com".to_string().try_into().unwrap();
    assert_eq!(email.as_ref(), "tester@test.com");
}

#[test]
fn details_check_name_before_email() {
    let req = SubReq { name: "  ".to_string(), email: "some@@gmail.com".to_string() };
    let r = SubscriberDetails::parse(req);
    assert_eq!(r.err(), Some("Name is empty".to_string()));
    let req = SubReq { name: "dobro".to_string(), email: "ursula@_le_guin@gmail.com".to_string() };
    let r: Result<SubscriberDetails, String> = req.try_into();
    assert_eq!(r.err(), Some("More than one @ symbol".to_string()));
}

#[test]
fn valid_details_keep_both_fields() {
    let req = SubReq {
        name: "le guin".to_string(),
        email: "ursula_le_guin@gmail.com".to_string(),
    };
    let d = SubscriberDetails::parse(req).unwrap();
    assert_eq!(d.name.as_ref(), "le guin");
    assert_eq!(d.email.as_ref(), "ursula_le_guin@gmail.com");
    let copy = d.duplicate();
    assert_eq!(copy.name.as_ref(), "le guin");
    assert_eq!(copy.email.as_ref(), "ursula_le_guin@gmail.com");
}
