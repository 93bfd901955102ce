use auth_service::validation::{ParamValue, RegistrationDto, SignInDto};

fn reg(name: &str, email: &str, password: &str) -> RegistrationDto {
    RegistrationDto { name: name.to_string(), email: email.to_string(), password: password.to_string() }
}

#[test]
fn valid_registration_passes() {
    assert!(reg("Jo", "jo@example.com", "Abcdef1!").validate().is_ok());
}

#[test]
fn short_name_is_reported_with_min_and_value() {
    let e = reg("J", "jo@example.com", "Abcdef1!").validate().unwrap_err();
    assert_eq!(e.errors.len(), 1);
    let f = &e.errors[0];
    assert_eq!(f.field, "name");
    assert_eq!(f.code, "length");
    assert_eq!(f.message.as_deref(), Some("Name must be greater than 2 chars"));
    assert_eq!(
        f.params,
        vec![("min".to_string(), ParamValue::Number(2)), ("value".to_string(), ParamValue::Text("J".to_string()))]
    );
}

#[test]
fn name_length_counts_characters() {
    assert!(reg("Éé", "jo@example.com", "Abcdef1!").validate().is_ok());
    assert!(reg("É", "jo@example.com", "Abcdef1!").validate().is_err());
}

#[test]
fn bad_email_is_reported() {
    let e = reg("Jo", "not-an-email", "Abcdef1!").validate().unwrap_err();
    assert_eq!(e.errors.len(), 1);
    assert_eq!(e.errors[0].field, "email");
    assert_eq!(e.errors[0].code, "email");
    assert_eq!(e.errors[0].message.as_deref(), Some("Invalid email format"));
    assert_eq!(e.errors[0].params, vec![("value".to_string(), ParamValue::Text("not-an-email".to_string()))]);
}

#[test]
fn empty_email_is_reported() {
    let e = SignInDto { email: String::new(), password: "Abcdef1!".to_string() }.validate().unwrap_err();
    assert_eq!(e.errors[0].field, "email");
}

#[test]
fn bad_password_is_reported_with_its_rule() {
    let e = reg("Jo", "jo@example.com", "abc").validate().unwrap_err();
    assert_eq!(e.errors.len(), 1);
    assert_eq!(e.errors[0].field, "password");
    assert_eq!(e.errors[0].code, "password");
    assert_eq!(e.errors[0].message.as_deref(), Some("password must contain at least one uppercase letter"));
    assert_eq!(e.errors[0].params, vec![("value".to_string(), ParamValue::Text("abc".to_string()))]);
}

#[test]
fn all_errors_are_reported_in_field_order() {
    let e = reg("J", "x", "Ab1!").validate().unwrap_err();
    let fields: Vec<&str> = e.errors.iter().map(|f| f.field.as_str()).collect();
    assert_eq!(fields, vec!["name", "email", "password"]);
    assert_eq!(e.errors[2].code, "password must be at least 8 characters long");
}

#[test]
fn sign_in_body_validation() {
    assert!(SignInDto { email: "a@b.co".to_string(), password: "Abcdef1!".to_string() }.validate().is_ok());
    let e = SignInDto { email: "a@b.co".to_string(), password: "abcdefgh".to_string() }.validate().unwrap_err();
    assert_eq!(e.errors.len(), 1);
    assert_eq!(e.errors[0].field, "password");
}
