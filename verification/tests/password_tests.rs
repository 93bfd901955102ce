use auth_service::password::{hash_password, validate_password, verify_password, PasswordRule};

#[test]
fn password_without_uppercase_is_refused() {
    assert_eq!(validate_password("abcdef1!"), Err(PasswordRule::MissingUppercase));
}

#[test]
fn password_without_lowercase_is_refused() {
    assert_eq!(validate_password("ABCDEF1!"), Err(PasswordRule::MissingLowercase));
}

#[test]
fn password_without_digit_is_refused() {
    assert_eq!(validate_password("Abcdefg!"), Err(PasswordRule::MissingDigit));
}

#[test]
fn password_without_special_is_refused() {
    assert_eq!(validate_password("Abcdefg1"), Err(PasswordRule::MissingSpecial));
}

#[test]
fn short_password_is_refused() {
    assert_eq!(validate_password("Ab1!"), Err(PasswordRule::TooShort));
    assert_eq!(validate_password("Abcd1!x"), Err(PasswordRule::TooShort));
}

#[test]
fn empty_password_reports_uppercase_first() {
    assert_eq!(validate_password(""), Err(PasswordRule::MissingUppercase));
}

#[test]
fn good_password_is_accepted() {
    assert_eq!(validate_password("Abcdef1!"), Ok(()));
    assert_eq!(validate_password("admin#2025!A"), Ok(()));
}

#[test]
fn password_length_counts_bytes() {
    // six characters, eight bytes
    assert_eq!(validate_password("Ab1!éé"), Ok(()));
    // seven characters, seven bytes
    assert_eq!(validate_password("Ab1!xyz"), Err(PasswordRule::TooShort));
}

#[test]
fn unicode_letters_count_as_cases() {
    assert_eq!(validate_password("Éé1!abcd"), Ok(()));
    assert_eq!(validate_password("éé1!abcd"), Err(PasswordRule::MissingUppercase));
}

#[test]
fn every_special_character_counts() {
    for c in "!@#$%^&*()_+-=[]{}|;:'\",.<>/?".chars() {
        let p = format!("Abcdef1{}", c);
        assert_eq!(validate_password(&p), Ok(()), "{}", p);
    }
    assert_eq!(validate_password("Abcdef1~"), Err(PasswordRule::MissingSpecial));
}

#[test]
fn rule_codes_and_messages() {
    assert_eq!(PasswordRule::MissingUppercase.code(), "password");
    assert_eq!(
        PasswordRule::MissingUppercase.message(),
        "password must contain at least one uppercase letter"
    );
    assert_eq!(
        PasswordRule::MissingLowercase.message(),
        "password must contain at least one lowercase letter"
    );
    assert_eq!(PasswordRule::MissingDigit.message(), "password must contain at least one digit");
    assert_eq!(PasswordRule::MissingSpecial.message(), "must contain at least one special character");
    assert_eq!(PasswordRule::TooShort.code(), "password must be at least 8 characters long");
    assert_eq!(PasswordRule::TooShort.message(), "password must be at least 8 characters long");
}

#[test]
fn verify_password_against_known_hashes() {
    assert!(verify_password("password", "$2a$04$UuTkLRZZ6QofpDOlMz32MuuxEHA43WOemOYHPz6.SjsVsyO1tDU96"));
    assert!(verify_password(
        "correctbatteryhorsestapler",
        "$2b$04$EGdrhbKUv8Oc9vGiXX0HQOxSg445d458Muh7DAHskb6QbtCvdxcie"
    ));
    assert!(!verify_password("wrong", "$2a$04$UuTkLRZZ6QofpDOlMz32MuuxEHA43WOemOYHPz6.SjsVsyO1tDU96"));
}

#[test]
fn malformed_hash_never_matches() {
    assert!(!verify_password("password", "not a hash"));
    assert!(!verify_password("password", ""));
    assert!(!verify_password("password", "not-a-bcrypt-hash"));
}

#[test]
fn hashed_password_is_accepted_and_others_are_not() {
    let h = hash_password("Secret#123".to_string()).unwrap();
    assert!(h.starts_with("$2b$12$"));
    assert_eq!(h.len(), 60);
    assert!(h[7..].chars().all(|c| c == '.' || c == '/' || c.is_ascii_alphanumeric()));
    assert_ne!(h, "Secret#123");
    assert!(verify_password("Secret#123", &h));
    assert!(!verify_password("Secret#124", &h));
}
