use auth_service::auth::{
    delete_access_token_sql, extract_token_from_header, guard_claims, guard_connection, guard_next, guard_public_key,
    guard_token, guard_token_stored, registration_email_check, GuardAction, GuardEvent, registration_new_user, registration_outcome,
    sign_in_lookup, sign_in_password, sign_in_success, sign_out, validation_failed, SignInLookup,
};
use auth_service::jwt::IAuth;
use auth_service::password::verify_password;
use auth_service::response::ResponseBody;
use auth_service::users::UserWithRole;
use auth_service::validation::{ParamValue, RegistrationDto, SignInDto};

#[test]
fn token_is_second_piece_of_header() {
    assert_eq!(extract_token_from_header(Some("Bearer abc.def")), Some("abc.def".to_string()));
    assert_eq!(extract_token_from_header(Some("Bearer a b")), Some("a".to_string()));
    assert_eq!(extract_token_from_header(Some("Bearer  b")), Some(String::new()));
    assert_eq!(extract_token_from_header(Some("Bearer ")), Some(String::new()));
    assert_eq!(extract_token_from_header(Some(" t")), Some("t".to_string()));
    assert_eq!(extract_token_from_header(Some("Bearer")), None);
    assert_eq!(extract_token_from_header(Some("")), None);
    assert_eq!(extract_token_from_header(None), None);
    assert_eq!(extract_token_from_header(Some("Bé tø ken")), Some("tø".to_string()));
}

#[test]
fn token_extraction_agrees_with_split() {
    for h in ["Bearer abc", "a  b c", "x", "", " ", "  ", "a b", "é ü ö"] {
        let expected = h.split(" ").nth(1).map(|t| t.to_string());
        assert_eq!(extract_token_from_header(Some(h)), expected, "{:?}", h);
    }
}

#[test]
fn guard_steps() {
    assert_eq!(guard_token(Some("Bearer t")).unwrap(), "t");
    let r = guard_token(Some("nospace")).unwrap_err();
    assert_eq!((r.meta.status_code, r.meta.error.as_deref()), (401, Some("401 Unauthorized")));
    let r = guard_token(None).unwrap_err();
    assert_eq!(r.meta.status_code, 401);

    assert!(guard_connection(true).is_ok());
    let r = guard_connection(false).unwrap_err();
    assert_eq!((r.meta.status_code, r.meta.error.as_deref()), (500, Some("Database connection not found")));

    assert!(guard_token_stored(true).is_ok());
    let r = guard_token_stored(false).unwrap_err();
    assert_eq!((r.meta.status_code, r.meta.error.as_deref()), (401, Some("Token doesn't exists")));

    assert_eq!(guard_public_key(Some("k".to_string())).unwrap(), "k");
    let r = guard_public_key(None).unwrap_err();
    assert_eq!((r.meta.status_code, r.meta.error.as_deref()), (500, Some("Invalid token or keys")));

    let claims = IAuth::for_user(&user("x"), 1, 1);
    assert_eq!(guard_claims(Ok(claims)).unwrap().id, 3);
    let r = guard_claims(Err("ExpiredSignature".to_string())).unwrap_err();
    assert_eq!((r.meta.status_code, r.meta.error.as_deref()), (500, Some("ExpiredSignature")));
}

fn refusal(a: GuardAction) -> (u16, Option<String>) {
    match a {
        GuardAction::Refuse(r) => (r.meta.status_code, r.meta.error),
        _ => panic!("expected a refusal"),
    }
}

#[test]
fn guard_runs_its_checks_in_order() {
    let a = guard_next(GuardEvent::Authorization(Some("Bearer tok".to_string())));
    let token = match a {
        GuardAction::CheckConnection { token } => token,
        _ => panic!("expected the connection check"),
    };
    assert_eq!(token, "tok");
    assert!(matches!(
        guard_next(GuardEvent::Connection { token: token.clone(), present: true }),
        GuardAction::LookUpToken { token } if token == "tok"
    ));
    assert!(matches!(
        guard_next(GuardEvent::Stored { token: token.clone(), stored: true }),
        GuardAction::ReadPublicKey { token } if token == "tok"
    ));
    assert!(matches!(
        guard_next(GuardEvent::PublicKey { token: token.clone(), public_key: Some("k".to_string()) }),
        GuardAction::ReadClaims { token, public_key } if token == "tok" && public_key == "k"
    ));
    let claims = IAuth::for_user(&user("x"), 1, 1);
    let a = guard_next(GuardEvent::Claims { token: token.clone(), public_key: "k".to_string(), claims: Ok(claims) });
    let claims = match a {
        GuardAction::CheckToken { token, public_key, claims } => {
            assert_eq!((token.as_str(), public_key.as_str()), ("tok", "k"));
            claims
        },
        _ => panic!("expected the full check"),
    };
    assert!(matches!(
        guard_next(GuardEvent::Checked { claims, outcome: Ok("{}".to_string()) }),
        GuardAction::Admit(c) if c.id == 3
    ));
}

#[test]
fn guard_refusals() {
    assert_eq!(refusal(guard_next(GuardEvent::Authorization(None))), (401, Some("401 Unauthorized".to_string())));
    assert_eq!(
        refusal(guard_next(GuardEvent::Authorization(Some("Bearer".to_string())))),
        (401, Some("401 Unauthorized".to_string()))
    );
    assert_eq!(
        refusal(guard_next(GuardEvent::Connection { token: "t".to_string(), present: false })),
        (500, Some("Database connection not found".to_string()))
    );
    assert_eq!(
        refusal(guard_next(GuardEvent::Stored { token: "t".to_string(), stored: false })),
        (401, Some("Token doesn't exists".to_string()))
    );
    assert_eq!(
        refusal(guard_next(GuardEvent::PublicKey { token: "t".to_string(), public_key: None })),
        (500, Some("Invalid token or keys".to_string()))
    );
    let e = "JSON error: missing field `id` at line 1 column 8".to_string();
    assert_eq!(
        refusal(guard_next(GuardEvent::Claims { token: "t".to_string(), public_key: "k".to_string(), claims: Err(e.clone()) })),
        (500, Some(e))
    );
    let claims = IAuth::for_user(&user("x"), 1, 1);
    assert_eq!(
        refusal(guard_next(GuardEvent::Checked { claims, outcome: Err("ExpiredSignature".to_string()) })),
        (500, Some("ExpiredSignature".to_string()))
    );
}

fn user(hash: &str) -> UserWithRole {
    UserWithRole { id: 3, email: "a@b.co".to_string(), password: hash.to_string(), role_name: "user".to_string() }
}

fn dto(password: &str) -> SignInDto {
    SignInDto { email: "a@b.co".to_string(), password: password.to_string() }
}

#[test]
fn sign_in_unknown_email() {
    match sign_in_lookup(&dto("x"), Ok(None)) {
        SignInLookup::Unknown { note, response } => {
            assert_eq!(note, "email not found");
            assert_eq!(response.meta.status_code, 400);
            assert_eq!(response.meta.error.as_deref(), Some("Validation failed"));
            let d = response.meta.details.unwrap();
            assert_eq!(d.errors.len(), 1);
            assert_eq!(d.errors[0].field, "email");
            assert_eq!(d.errors[0].code, "email");
            assert_eq!(d.errors[0].message.as_deref(), Some("email not found"));
            assert_eq!(d.errors[0].params, vec![("email".to_string(), ParamValue::Text("a@b.co".to_string()))]);
        },
        _ => panic!("expected Unknown"),
    }
}

#[test]
fn sign_in_lookup_failure_and_success() {
    match sign_in_lookup(&dto("x"), Err("db down".to_string())) {
        SignInLookup::Failed(r) => assert_eq!((r.meta.status_code, r.meta.error.as_deref()), (500, Some("db down"))),
        _ => panic!("expected Failed"),
    }
    match sign_in_lookup(&dto("x"), Ok(Some(user("h")))) {
        SignInLookup::Found(u) => assert_eq!(u.id, 3),
        _ => panic!("expected Found"),
    }
}

#[test]
fn sign_in_checks_password() {
    let hash = "$2a$04$UuTkLRZZ6QofpDOlMz32MuuxEHA43WOemOYHPz6.SjsVsyO1tDU96";
    assert_eq!(sign_in_password(&dto("password"), user(hash)).unwrap().id, 3);
    let r = sign_in_password(&dto("Password"), user(hash)).unwrap_err();
    assert_eq!(r.meta.status_code, 400);
    let d = r.meta.details.unwrap();
    assert_eq!(d.errors[0].field, "password");
    assert_eq!(d.errors[0].message.as_deref(), Some("invalid password"));
    assert_eq!(d.errors[0].params, vec![("password".to_string(), ParamValue::Text("Password".to_string()))]);
}

#[test]
fn sign_in_success_carries_token() {
    let r = sign_in_success("tok".to_string());
    assert_eq!(r.meta.status_code, 200);
    assert_eq!(r.data.as_deref(), Some(&ResponseBody::AccessToken("tok".to_string())));
}

fn reg() -> RegistrationDto {
    RegistrationDto { name: "Jo".to_string(), email: "jo@x.co".to_string(), password: "Abcdef1!".to_string() }
}

#[test]
fn registration_refuses_taken_email() {
    assert!(registration_email_check(&reg(), false).is_ok());
    let r = registration_email_check(&reg(), true).unwrap_err();
    assert_eq!(r.meta.status_code, 400);
    let d = r.meta.details.unwrap();
    assert_eq!(d.errors[0].field, "email");
    assert_eq!(d.errors[0].message.as_deref(), Some("email already exists"));
    assert_eq!(d.errors[0].params, vec![("email".to_string(), ParamValue::Text("jo@x.co".to_string()))]);
}

#[test]
fn registration_stores_a_hash_of_the_password() {
    let u = registration_new_user(reg()).unwrap();
    assert_eq!(u.name, "Jo");
    assert_eq!(u.email, "jo@x.co");
    assert_ne!(u.password_hash, "Abcdef1!");
    assert_eq!(u.password_hash.len(), 60);
    assert!(u.password_hash.starts_with("$2b$12$"));
    assert!(verify_password("Abcdef1!", &u.password_hash));
}

#[test]
fn registration_outcomes() {
    let r = registration_outcome(Ok(()));
    assert_eq!(r.meta.status_code, 200);
    assert_eq!(r.data.as_deref(), Some(&ResponseBody::Message("registration success".to_string())));
    let r = registration_outcome(Err("duplicate key".to_string()));
    assert_eq!((r.meta.status_code, r.meta.error.as_deref()), (500, Some("duplicate key")));
    assert!(r.data.is_none());
}

#[test]
fn validation_failed_response() {
    let errors = SignInDto { email: "bad".to_string(), password: "Abcdef1!".to_string() }.validate().unwrap_err();
    let r = validation_failed(errors);
    assert_eq!((r.meta.status_code, r.meta.error.as_deref()), (400, Some("Validation failed")));
    assert_eq!(r.meta.details.unwrap().errors[0].field, "email");
}

#[test]
fn sign_out_deletes_the_users_token() {
    let (id, r) = sign_out(&IAuth::for_user(&user("h"), 5, 5));
    assert_eq!(id, 3);
    assert_eq!(r.data.as_deref(), Some(&ResponseBody::Message("sign out success".to_string())));
    assert_eq!(delete_access_token_sql(3), "DELETE FROM access_tokens WHERE user_id = 3");
    assert_eq!(delete_access_token_sql(-12), format!("DELETE FROM access_tokens WHERE user_id = {:?}", -12i64));
    assert_eq!(delete_access_token_sql(i64::MIN), format!("DELETE FROM access_tokens WHERE user_id = {:?}", i64::MIN));
}

#[test]
fn missing_role_undoes_registration() {
    assert_eq!(auth_service::auth::role_to_assign(Some(4)), Ok(4));
    assert_eq!(auth_service::auth::role_to_assign(None), Err("Role not found".to_string()));
}
