use vstd::prelude::*;
use vstd::string::{StringExecFns, StrSliceExecFns};
use validator::ValidateEmail;

use crate::password::{password_violation, rule_code, rule_message, validate_password, PasswordRule};

verus! {

broadcast use vstd::string::group_string_axioms;

/// A value attached to a validation error under a parameter name.
#[derive(Debug, Clone, PartialEq, Eq)]
pub enum ParamValue {
    Text(String),
    Number(u64),
}

/// The mathematical form of a `ParamValue`.
pub enum ParamView {
    Text(Seq<char>),
    Number(u64),
}

impl View for ParamValue {
    type V = ParamView;

    open spec fn view(&self) -> ParamView {
        match self {
            ParamValue::Text(s) => ParamView::Text(s@),
            ParamValue::Number(n) => ParamView::Number(*n),
        }
    }
}

/// One failed check on one field of a request body.
#[derive(Debug, Clone)]
pub struct FieldError {
    pub field: String,
    pub code: String,
    pub message: Option<String>,
    pub params: Vec<(String, ParamValue)>,
}

pub struct FieldErrorView {
    pub field: Seq<char>,
    pub code: Seq<char>,
    pub message: Option<Seq<char>>,
    pub params: Seq<(Seq<char>, ParamView)>,
}

pub open spec fn option_view(o: Option<String>) -> Option<Seq<char>> {
    match o {
        Some(s) => Some(s@),
        None => None,
    }
}

impl View for FieldError {
    type V = FieldErrorView;

    open spec fn view(&self) -> FieldErrorView {
        FieldErrorView {
            field: self.field@,
            code: self.code@,
            message: option_view(self.message),
            params: self.params@.map_values(|p: (String, ParamValue)| (p.0@, p.1@)),
        }
    }
}

/// The failed checks of a request body, in the order of its fields.
#[derive(Debug, Clone)]
pub struct ValidationErrors {
    pub errors: Vec<FieldError>,
}

impl View for ValidationErrors {
    type V = Seq<FieldErrorView>;

    open spec fn view(&self) -> Seq<FieldErrorView> {
        self.errors@.map_values(|e: FieldError| e@)
    }
}

impl ValidationErrors {
    pub fn new() -> (r: ValidationErrors)
        ensures
            r@ == Seq::<FieldErrorView>::empty(),
    {
        ValidationErrors { errors: Vec::new() }
    }

    /// Appends one error.
    pub fn add(&mut self, error: FieldError)
        ensures
            final(self)@ == old(self)@.push(error@),
    {
        self.errors.push(error);
        proof {
            assert(self@ =~= old(self)@.push(error@));
        }
    }

    pub fn is_empty(&self) -> (r: bool)
        ensures
            r == (self@.len() == 0),
    {
        self.errors.len() == 0
    }
}

/// Whether `validator` accepts a text as an e-mail address.
pub uninterp spec fn valid_email(s: Seq<char>) -> bool;

/// `ValidateEmail::validate_email` of the `validator` crate on a `&str`:
/// splits at the last `@` and matches both sides against its patterns,
/// falling back to IDNA for the domain. The patterns are not written out; the
/// result is named. Its source rejects the empty text and every text without
/// an `@` before anything else.
#[verifier::external_body]
fn email_accepted(email: &str) -> (r: bool)
    ensures
        r == valid_email(email@),
        r ==> email@.len() > 0 && email@.contains('@'),
{
    email.validate_email()
}

/// A minimum length, in characters, that a field failed.
pub open spec fn length_error_view(field: Seq<char>, message: Seq<char>, min: u64, value: Seq<char>) -> FieldErrorView {
    FieldErrorView {
        field: field,
        code: "length"@,
        message: Some(message),
        params: seq![("min"@, ParamView::Number(min)), ("value"@, ParamView::Text(value))],
    }
}

/// A field that is not an e-mail address.
pub open spec fn email_error_view(field: Seq<char>, message: Seq<char>, value: Seq<char>) -> FieldErrorView {
    FieldErrorView {
        field: field,
        code: "email"@,
        message: Some(message),
        params: seq![("value"@, ParamView::Text(value))],
    }
}

/// A password field that breaks the password policy.
pub open spec fn password_error_view(field: Seq<char>, rule: PasswordRule, value: Seq<char>) -> FieldErrorView {
    FieldErrorView {
        field: field,
        code: rule_code(rule),
        message: Some(rule_message(rule)),
        params: seq![("value"@, ParamView::Text(value))],
    }
}

fn text(s: &str) -> (r: String)
    ensures
        r@ == s@,
{
    String::from_str(s)
}

fn length_error(field: &str, message: &str, min: u64, value: &String) -> (r: FieldError)
    ensures
        r@ == length_error_view(field@, message@, min, value@),
{
    let mut params: Vec<(String, ParamValue)> = Vec::new();
    params.push((text("min"), ParamValue::Number(min)));
    params.push((text("value"), ParamValue::Text(value.clone())));
    let r = FieldError { field: text(field), code: text("length"), message: Some(text(message)), params };
    proof {
        assert(r@.params =~= length_error_view(field@, message@, min, value@).params);
    }
    r
}

fn email_error(field: &str, message: &str, value: &String) -> (r: FieldError)
    ensures
        r@ == email_error_view(field@, message@, value@),
{
    let mut params: Vec<(String, ParamValue)> = Vec::new();
    params.push((text("value"), ParamValue::Text(value.clone())));
    let r = FieldError { field: text(field), code: text("email"), message: Some(text(message)), params };
    proof {
        assert(r@.params =~= email_error_view(field@, message@, value@).params);
    }
    r
}

/// The error reported for a password field that breaks `rule`.
pub fn password_error(field: &str, rule: PasswordRule, value: &String) -> (r: FieldError)
    ensures
        r@ == password_error_view(field@, rule, value@),
{
    let mut params: Vec<(String, ParamValue)> = Vec::new();
    params.push((text("value"), ParamValue::Text(value.clone())));
    let r = FieldError { field: text(field), code: rule.code(), message: Some(rule.message()), params };
    proof {
        assert(r@.params =~= password_error_view(field@, rule, value@).params);
    }
    r
}

/// The errors of a password field, if any.
pub open spec fn password_field_errors(field: Seq<char>, value: Seq<char>) -> Seq<FieldErrorView> {
    match password_violation(value) {
        Some(rule) => seq![password_error_view(field, rule, value)],
        None => seq![],
    }
}

/// The errors of an e-mail field, if any.
pub open spec fn email_field_errors(field: Seq<char>, message: Seq<char>, value: Seq<char>) -> Seq<FieldErrorView> {
    if valid_email(value) {
        seq![]
    } else {
        seq![email_error_view(field, message, value)]
    }
}

fn check_email(errors: &mut ValidationErrors, field: &str, message: &str, value: &String)
    ensures
        final(errors)@ == old(errors)@ + email_field_errors(field@, message@, value@),
{
    if !email_accepted(value.as_str()) {
        errors.add(email_error(field, message, value));
    }
    proof {
        assert(final(errors)@ =~= old(errors)@ + email_field_errors(field@, message@, value@));
    }
}

fn check_password(errors: &mut ValidationErrors, field: &str, value: &String)
    ensures
        final(errors)@ == old(errors)@ + password_field_errors(field@, value@),
{
    match validate_password(value.as_str()) {
        Ok(()) => {},
        Err(rule) => {
            errors.add(password_error(field, rule, value));
        },
    }
    proof {
        assert(final(errors)@ =~= old(errors)@ + password_field_errors(field@, value@));
    }
}

/// The body of a registration request.
#[derive(Debug, Clone)]
pub struct RegistrationDto {
    pub name: String,
    pub email: String,
    pub password: String,
}

/// The body of a sign-in request.
#[derive(Debug, Clone)]
pub struct SignInDto {
    pub email: String,
    pub password: String,
}

/// Everything wrong with a registration body: a name of fewer than two
/// characters, an e-mail that is not one, a password that breaks the policy.
pub open spec fn registration_errors(name: Seq<char>, email: Seq<char>, password: Seq<char>) -> Seq<FieldErrorView> {
    (if name.len() < 2 {
        seq![length_error_view("name"@, "Name must be greater than 2 chars"@, 2, name)]
    } else {
        seq![]
    }) + email_field_errors("email"@, "Invalid email format"@, email) + password_field_errors(
        "password"@,
        password,
    )
}

/// Everything wrong with a sign-in body.
pub open spec fn sign_in_errors(email: Seq<char>, password: Seq<char>) -> Seq<FieldErrorView> {
    email_field_errors("email"@, "Invalid email format"@, email) + password_field_errors(
        "password"@,
        password,
    )
}

/// The outcome of a validation: success exactly when nothing is wrong.
pub open spec fn validation_outcome(r: Result<(), ValidationErrors>, expected: Seq<FieldErrorView>) -> bool {
    match r {
        Ok(()) => expected.len() == 0,
        Err(e) => expected.len() > 0 && e@ == expected,
    }
}

impl RegistrationDto {
    pub fn validate(&self) -> (r: Result<(), ValidationErrors>)
        ensures
            validation_outcome(r, registration_errors(self.name@, self.email@, self.password@)),
    {
        let mut errors = ValidationErrors::new();
        if self.name.as_str().unicode_len() < 2 {
            errors.add(length_error("name", "Name must be greater than 2 chars", 2, &self.name));
        }
        check_email(&mut errors, "email", "Invalid email format", &self.email);
        check_password(&mut errors, "password", &self.password);
        proof {
            assert(errors@ =~= registration_errors(self.name@, self.email@, self.password@));
        }
        if errors.is_empty() {
            Ok(())
        } else {
            Err(errors)
        }
    }
}

impl SignInDto {
    pub fn validate(&self) -> (r: Result<(), ValidationErrors>)
        ensures
            validation_outcome(r, sign_in_errors(self.email@, self.password@)),
    {
        let mut errors = ValidationErrors::new();
        check_email(&mut errors, "email", "Invalid email format", &self.email);
        check_password(&mut errors, "password", &self.password);
        proof {
            assert(errors@ =~= sign_in_errors(self.email@, self.password@));
        }
        if errors.is_empty() {
            Ok(())
        } else {
            Err(errors)
        }
    }
}

} // verus!
