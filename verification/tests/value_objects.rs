use user_service::email::{EmailAddress, EmailError};
use user_service::password::{Password, PasswordError};
use user_service::username::{UserNameError, Username};

#[test]
fn test_username_too_short() {
    let result = Username::new("ab");
    assert!(matches!(result, Err(UserNameError::TooShort)));
}

#[test]
fn test_username_too_long() {
    let result = Username::new(&"a".repeat(21));
    assert!(matches!(result, Err(UserNameError::TooLong)));
}

#[test]
fn test_username_invalid_characters() {
    let result_with_period = Username::new("invalid.user");
    let result_with_space = Username::new("invalid user");
    let result_with_special = Username::new("invalid$user");
    assert!(matches!(
        result_with_period,
        Err(UserNameError::InvalidCharacters)
    ));
    assert!(matches!(
        result_with_space,
        Err(UserNameError::InvalidCharacters)
    ));
    assert!(matches!(
        result_with_special,
        Err(UserNameError::InvalidCharacters)
    ));
}

#[test]
fn test_username_with_valid_characters() {
    let result_with_underscore = Username::new("valid_user");
    let result_with_dash = Username::new("valid-user");
    let result_with_both = Username::new("valid_user-name");
    assert!(result_with_underscore.is_ok());
    assert!(result_with_dash.is_ok());
    assert!(result_with_both.is_ok());
}

#[test]
fn test_trimmed_usernames() {
    let result = Username::new("  valid_user  ");
    assert!(result.is_ok());
    assert_eq!(result.unwrap().as_str(), "valid_user");
}

#[test]
fn test_username_as_str() {
    let username = Username::new("test_user").unwrap();
    assert_eq!(username.as_str(), "test_user");
}

#[test]
fn test_username_boundary_lengths() {
    assert!(Username::new("abc").is_ok());
    assert!(Username::new(&"a".repeat(20)).is_ok());
    assert!(matches!(Username::new("ab"), Err(UserNameError::TooShort)));
    assert!(matches!(Username::new(""), Err(UserNameError::TooShort)));
    assert!(matches!(
        Username::new(&"a".repeat(21)),
        Err(UserNameError::TooLong)
    ));
}

#[test]
fn test_username_accepts_unicode_alphanumerics() {
    let accented = Username::new("\u{e1}bc");
    assert!(accented.is_ok());
    assert_eq!(accented.unwrap().as_str(), "\u{e1}bc");
    let umlaut = Username::new("m\u{fc}ller");
    assert!(umlaut.is_ok());
    assert_eq!(umlaut.unwrap().as_str(), "m\u{fc}ller");
}

#[test]
fn test_username_rejects_unicode_symbols() {
    // an arrow is neither a letter nor a number
    let result = Username::new("ab\u{2192}");
    assert!(matches!(result, Err(UserNameError::InvalidCharacters)));
}

#[test]
fn test_email_stored_form_is_length_checked() {
    // each dotted capital I lower-cases to two characters, so a 130-character
    // input stores as 256 characters: over the bound
    let local: String = "\u{130}".repeat(126);
    let email = format!("{}@b.c", local);
    assert_eq!(email.chars().count(), 130);
    let result = EmailAddress::new(email);
    assert!(matches!(result, Err(EmailError::TooLong)));
}

#[test]
fn test_username_trims_unicode_whitespace() {
    let result = Username::new("\u{2000}alice\u{a0}");
    assert!(result.is_ok());
    assert_eq!(result.unwrap().as_str(), "alice");
}

#[test]
fn test_email_rejects_unicode_whitespace() {
    let result = EmailAddress::new("a\u{a0}b@c.d".to_string());
    assert!(matches!(result, Err(EmailError::InvalidFormat)));
}

#[test]
fn test_username_equality_of_same_text() {
    let a = Username::new(" alice ").unwrap();
    let b = Username::new("alice").unwrap();
    assert!(a == b);
}

#[test]
fn test_valid_email() {
    let email = "User@Example.COM".to_string();
    let result = EmailAddress::new(email.clone());
    assert!(result.is_ok());
    let address = result.unwrap();
    assert_eq!(address.as_str(), "user@example.com");
}

#[test]
fn test_invalid_email_format() {
    let result = EmailAddress::new("invalid-email".to_string());
    assert!(matches!(result, Err(EmailError::InvalidFormat)));
}

#[test]
fn test_missing_at_symbol() {
    let result = EmailAddress::new("invalid.email.com".to_string());
    assert!(matches!(result, Err(EmailError::InvalidFormat)));
}

#[test]
fn test_missing_tld() {
    let result = EmailAddress::new("user@domain".to_string());
    assert!(matches!(result, Err(EmailError::InvalidFormat)));
}

#[test]
fn test_email_with_spaces() {
    let result = EmailAddress::new("user @example.com".to_string());
    assert!(matches!(result, Err(EmailError::InvalidFormat)));
}

#[test]
fn test_email_too_long() {
    let long_email = "a".repeat(255) + "@example.com";
    let result = EmailAddress::new(long_email);
    assert!(matches!(result, Err(EmailError::TooLong)));
}

#[test]
fn test_email_too_long_wins_over_format() {
    // over-long and also format-invalid: the length verdict comes first
    let result = EmailAddress::new("a".repeat(300));
    assert!(matches!(result, Err(EmailError::TooLong)));
}

#[test]
fn test_email_at_length_boundary() {
    let local = "a".repeat(242);
    let email = format!("{}@example.com", local); // 254 characters
    assert!(EmailAddress::new(email).is_ok());
    let local = "a".repeat(243);
    let email = format!("{}@example.com", local); // 255 characters
    assert!(matches!(EmailAddress::new(email), Err(EmailError::TooLong)));
}

#[test]
fn test_email_double_at_rejected() {
    let result = EmailAddress::new("a@b@c.com".to_string());
    assert!(matches!(result, Err(EmailError::InvalidFormat)));
}

#[test]
fn test_password_too_short() {
    let result = Password::from_plain("short");
    assert!(matches!(result, Err(PasswordError::TooShort)));
}

#[test]
fn test_password_to_long() {
    let result = Password::from_plain("thisisalongpassword");
    assert!(result.is_ok());
}

#[test]
fn test_password_verify() {
    let password = "securepassword";
    let pwd_obj = Password::from_plain(password).unwrap();
    assert!(pwd_obj.verify(password));
    assert!(!pwd_obj.verify("wrongpassword"));
}

#[test]
fn test_password_verify_rejects_appended_suffix() {
    let secret = "correcthorsebattery";
    let cred = Password::from_plain(secret).unwrap();
    assert!(cred.verify(secret));
    assert!(!cred.verify(&format!("{}x", secret)));
}

#[test]
fn test_password_artifact_is_not_the_plaintext() {
    let secret = "anothergoodsecret";
    let cred = Password::from_plain(secret).unwrap();
    assert_ne!(cred.as_str(), secret);
    assert!(cred.as_str().starts_with("$argon2"));
}

#[test]
fn test_password_from_hash_keeps_artifact() {
    let cred = Password::from_plain("roundtripsecret").unwrap();
    let stored = cred.as_str().to_string();
    let back = Password::from_hash(stored.clone());
    assert_eq!(back.as_str(), stored);
    assert!(back.verify("roundtripsecret"));
}

#[test]
fn test_password_verify_malformed_artifact_is_false() {
    let broken = Password::from_hash("not a phc string".to_string());
    assert!(!broken.verify("whatever1"));
}

#[test]
fn test_password_length_boundary() {
    assert!(matches!(
        Password::from_plain("1234567"),
        Err(PasswordError::TooShort)
    ));
    assert!(Password::from_plain("12345678").is_ok());
}
