use vstd::prelude::*;
use vstd::string::{StringExecFns, StrSliceExecFns};

use crate::jwt::IAuth;
use crate::log::{signed_decimal, signed_decimal_text};
use crate::password::{
    bcrypt_hash_form, hash_password, password_matches, verify_password, HashPasswordError,
};
use crate::response::{
    is_detailed_error, is_message_response, is_error_response, plain_meta, status_text, GlobalResponse,
    ResponseBody, BAD_REQUEST, INTERNAL_SERVER_ERROR, UNAUTHORIZED,
};
use crate::users::UserWithRole;
use crate::validation::{FieldError, FieldErrorView, ParamValue, ParamView, RegistrationDto, SignInDto, ValidationErrors};

verus! {

broadcast use vstd::string::group_string_axioms;

// ---------------------------------------------------------------------------
// The bearer token of a request
// ---------------------------------------------------------------------------

/// The position of the first space at or after `k`, or the length of `s`.
pub open spec fn space_from(s: Seq<char>, k: int) -> int
    decreases s.len() - k,
{
    if k >= s.len() {
        s.len() as int
    } else if s[k] == ' ' {
        k
    } else {
        space_from(s, k + 1)
    }
}

proof fn lemma_space_from_bounds(s: Seq<char>, k: int)
    requires
        0 <= k,
    ensures
        k <= space_from(s, k) || k > s.len(),
        space_from(s, k) <= s.len(),
        space_from(s, k) < s.len() ==> s[space_from(s, k)] == ' ',
    decreases s.len() - k,
{
    if k < s.len() && s[k] != ' ' {
        lemma_space_from_bounds(s, k + 1);
    }
}

/// The second of the pieces that splitting a header value at each space
/// gives: the text between the first and the second space (or the end), or
/// nothing where there is no space.
pub open spec fn second_piece(s: Seq<char>) -> Option<Seq<char>> {
    let i: int = space_from(s, 0);
    if i >= s.len() {
        None
    } else {
        Some(s.subrange(i + 1, space_from(s, i + 1)))
    }
}

fn find_space(s: &str, from: usize) -> (r: usize)
    requires
        from <= s@.len(),
    ensures
        r == space_from(s@, from as int),
{
    let n: usize = s.unicode_len();
    let mut i: usize = from;
    while i < n && s.get_char(i) != ' '
        invariant
            n == s@.len(),
            from <= i <= n,
            space_from(s@, from as int) == space_from(s@, i as int),
        decreases n - i,
    {
        i = i + 1;
    }
    i
}

/// The token of an `Authorization` header value such as `Bearer <token>`:
/// the second piece of the value split at spaces.
pub fn extract_token_from_header(authorization: Option<&str>) -> (r: Option<String>)
    ensures
        match authorization {
            None => r is None,
            Some(h) => match second_piece(h@) {
                None => r is None,
                Some(t) => r matches Some(s) && s@ == t,
            },
        },
{
    match authorization {
        None => None,
        Some(h) => {
            let n: usize = h.unicode_len();
            let i: usize = find_space(h, 0);
            if i >= n {
                None
            } else {
                let j: usize = find_space(h, i + 1);
                proof {
                    lemma_space_from_bounds(h@, i + 1);
                }
                Some(h.substring_char(i + 1, j).to_owned())
            }
        },
    }
}

// ---------------------------------------------------------------------------
// The guard of authenticated routes
// ---------------------------------------------------------------------------

fn text(s: &str) -> (r: String)
    ensures
        r@ == s@,
{
    String::from_str(s)
}

/// A request without a bearer token is refused as unauthorized.
pub fn guard_token(authorization: Option<&str>) -> (r: Result<String, GlobalResponse<()>>)
    ensures
        match authorization {
            Some(h) if second_piece(h@) is Some => r matches Ok(t) && t@ == second_piece(h@)->0,
            _ => r matches Err(resp) && is_error_response(resp, UNAUTHORIZED, "401 Unauthorized"@),
        },
{
    match extract_token_from_header(authorization) {
        Some(token) => Ok(token),
        None => Err(GlobalResponse::error(UNAUTHORIZED, status_text(UNAUTHORIZED))),
    }
}

/// Without a database connection the request cannot be checked.
pub fn guard_connection(connection_present: bool) -> (r: Result<(), GlobalResponse<()>>)
    ensures
        connection_present <==> r is Ok,
        r matches Err(resp) ==> is_error_response(resp, INTERNAL_SERVER_ERROR, "Database connection not found"@),
{
    if connection_present {
        Ok(())
    } else {
        Err(GlobalResponse::error(INTERNAL_SERVER_ERROR, text("Database connection not found")))
    }
}

/// A token that is not among the stored tokens is refused.
pub fn guard_token_stored(stored: bool) -> (r: Result<(), GlobalResponse<()>>)
    ensures
        stored <==> r is Ok,
        r matches Err(resp) ==> is_error_response(resp, UNAUTHORIZED, "Token doesn't exists"@),
{
    if stored {
        Ok(())
    } else {
        Err(GlobalResponse::error(UNAUTHORIZED, text("Token doesn't exists")))
    }
}

/// Without the public key the token cannot be checked.
pub fn guard_public_key(public_key: Option<String>) -> (r: Result<String, GlobalResponse<()>>)
    ensures
        match public_key {
            Some(k) => r == Ok::<String, GlobalResponse<()>>(k),
            None => r matches Err(resp) && is_error_response(resp, INTERNAL_SERVER_ERROR, "Invalid token or keys"@),
        },
{
    match public_key {
        Some(k) => Ok(k),
        None => Err(GlobalResponse::error(INTERNAL_SERVER_ERROR, text("Invalid token or keys"))),
    }
}

/// A token that does not decode is refused with the decoder's reason.
pub fn guard_claims(decoded: Result<IAuth, String>) -> (r: Result<IAuth, GlobalResponse<()>>)
    ensures
        match decoded {
            Ok(c) => r == Ok::<IAuth, GlobalResponse<()>>(c),
            Err(e) => r matches Err(resp) && is_error_response(resp, INTERNAL_SERVER_ERROR, e@),
        },
{
    match decoded {
        Ok(c) => Ok(c),
        Err(e) => Err(GlobalResponse::error(INTERNAL_SERVER_ERROR, e)),
    }
}

/// What the guard learned at its last step, with what it carries forward.
pub enum GuardEvent {
    /// The request's `Authorization` header, where it has one.
    Authorization(Option<String>),
    /// Whether a database connection is at hand.
    Connection { token: String, present: bool },
    /// Whether the token is among the stored tokens.
    Stored { token: String, stored: bool },
    /// The public key tokens are checked with, where it is configured.
    PublicKey { token: String, public_key: Option<String> },
    /// The token's claims read into `IAuth` after its signature and form were
    /// checked, or the reason that failed.
    Claims { token: String, public_key: String, claims: Result<IAuth, String> },
    /// The outcome of the full check of the token, expiry included.
    Checked { claims: IAuth, outcome: Result<String, String> },
}

/// What the guard does next.
pub enum GuardAction {
    CheckConnection { token: String },
    LookUpToken { token: String },
    ReadPublicKey { token: String },
    ReadClaims { token: String, public_key: String },
    CheckToken { token: String, public_key: String, claims: IAuth },
    /// Let the request through, carrying the token's claims.
    Admit(IAuth),
    /// Answer the request with this refusal.
    Refuse(GlobalResponse<()>),
}

/// One step of the guard of authenticated routes. The checks come in a fixed
/// order: a bearer token in the header, a database connection, the token
/// among the stored tokens, a public key, the token's signature and claims,
/// and last its expiry. The first that fails answers the request; a request
/// is let through only after the last has passed.
pub fn guard_next(event: GuardEvent) -> (r: GuardAction)
    ensures
        match event {
            GuardEvent::Authorization(a) => match a {
                Some(h) if second_piece(h@) is Some =>
                    r matches GuardAction::CheckConnection { token } && token@ == second_piece(h@)->0,
                _ => r matches GuardAction::Refuse(resp)
                    && is_error_response(resp, UNAUTHORIZED, "401 Unauthorized"@),
            },
            GuardEvent::Connection { token, present } => if present {
                r == (GuardAction::LookUpToken { token })
            } else {
                r matches GuardAction::Refuse(resp)
                    && is_error_response(resp, INTERNAL_SERVER_ERROR, "Database connection not found"@)
            },
            GuardEvent::Stored { token, stored } => if stored {
                r == (GuardAction::ReadPublicKey { token })
            } else {
                r matches GuardAction::Refuse(resp)
                    && is_error_response(resp, UNAUTHORIZED, "Token doesn't exists"@)
            },
            GuardEvent::PublicKey { token, public_key } => match public_key {
                Some(k) => r == (GuardAction::ReadClaims { token, public_key: k }),
                None => r matches GuardAction::Refuse(resp)
                    && is_error_response(resp, INTERNAL_SERVER_ERROR, "Invalid token or keys"@),
            },
            GuardEvent::Claims { token, public_key, claims } => match claims {
                Ok(c) => r == (GuardAction::CheckToken { token, public_key, claims: c }),
                Err(e) => r matches GuardAction::Refuse(resp)
                    && is_error_response(resp, INTERNAL_SERVER_ERROR, e@),
            },
            GuardEvent::Checked { claims, outcome } => match outcome {
                Ok(_) => r == GuardAction::Admit(claims),
                Err(e) => r matches GuardAction::Refuse(resp)
                    && is_error_response(resp, INTERNAL_SERVER_ERROR, e@),
            },
        },
{
    match event {
        GuardEvent::Authorization(a) => {
            let found = match &a {
                Some(h) => guard_token(Some(h.as_str())),
                None => guard_token(None),
            };
            match found {
                Ok(token) => GuardAction::CheckConnection { token },
                Err(resp) => GuardAction::Refuse(resp),
            }
        },
        GuardEvent::Connection { token, present } => match guard_connection(present) {
            Ok(()) => GuardAction::LookUpToken { token },
            Err(resp) => GuardAction::Refuse(resp),
        },
        GuardEvent::Stored { token, stored } => match guard_token_stored(stored) {
            Ok(()) => GuardAction::ReadPublicKey { token },
            Err(resp) => GuardAction::Refuse(resp),
        },
        GuardEvent::PublicKey { token, public_key } => match guard_public_key(public_key) {
            Ok(k) => GuardAction::ReadClaims { token, public_key: k },
            Err(resp) => GuardAction::Refuse(resp),
        },
        GuardEvent::Claims { token, public_key, claims } => match guard_claims(claims) {
            Ok(c) => GuardAction::CheckToken { token, public_key, claims: c },
            Err(resp) => GuardAction::Refuse(resp),
        },
        GuardEvent::Checked { claims, outcome } => match outcome {
            Ok(_) => GuardAction::Admit(claims),
            Err(e) => GuardAction::Refuse(GlobalResponse::error(INTERNAL_SERVER_ERROR, e)),
        },
    }
}

// ---------------------------------------------------------------------------
// Validation failures
// ---------------------------------------------------------------------------

/// The response to a body that failed validation.
pub fn validation_failed(errors: ValidationErrors) -> (r: GlobalResponse<ResponseBody>)
    ensures
        is_detailed_error(r, BAD_REQUEST, "Validation failed"@, errors@),
{
    GlobalResponse::error(BAD_REQUEST, text("Validation failed")).with_validation_errors(errors)
}

/// A single field error that echoes the offending value under the field's
/// own name.
pub open spec fn echo_error_view(field: Seq<char>, message: Seq<char>, value: Seq<char>) -> FieldErrorView {
    FieldErrorView {
        field: field,
        code: field,
        message: Some(message),
        params: seq![(field, ParamView::Text(value))],
    }
}

fn echo_error(field: &str, message: &str, value: &String) -> (r: FieldError)
    ensures
        r@ == echo_error_view(field@, message@, value@),
{
    let mut params: Vec<(String, ParamValue)> = Vec::new();
    params.push((text(field), ParamValue::Text(value.clone())));
    let r = FieldError { field: text(field), code: text(field), message: Some(text(message)), params };
    proof {
        assert(r@.params =~= echo_error_view(field@, message@, value@).params);
    }
    r
}

fn single_field_failure(field: &str, message: &str, value: &String) -> (r: GlobalResponse<ResponseBody>)
    ensures
        is_detailed_error(r, BAD_REQUEST, "Validation failed"@, seq![echo_error_view(field@, message@, value@)]),
{
    let mut errors = ValidationErrors::new();
    errors.add(echo_error(field, message, value));
    proof {
        assert(errors@ =~= seq![echo_error_view(field@, message@, value@)]);
    }
    validation_failed(errors)
}

// ---------------------------------------------------------------------------
// Registration
// ---------------------------------------------------------------------------

/// A registration whose e-mail is already taken is refused; otherwise it goes
/// on.
pub fn registration_email_check(dto: &RegistrationDto, email_taken: bool) -> (r: Result<(), GlobalResponse<ResponseBody>>)
    ensures
        email_taken <==> r is Err,
        r matches Err(resp) ==> is_detailed_error(
            resp,
            BAD_REQUEST,
            "Validation failed"@,
            seq![echo_error_view("email"@, "email already exists"@, dto.email@)],
        ),
{
    if email_taken {
        Err(single_field_failure("email", "email already exists", &dto.email))
    } else {
        Ok(())
    }
}

/// The user row a registration creates: name, e-mail and the bcrypt hash of
/// the password, never the password itself unless the password is already
/// written in bcrypt's form; the role given to it is `user`.
pub struct NewUser {
    pub name: String,
    pub email: String,
    pub password_hash: String,
}

pub fn registration_new_user(dto: RegistrationDto) -> (r: Result<NewUser, HashPasswordError>)
    ensures
        r matches Ok(u) ==> {
            &&& u.name@ == dto.name@
            &&& u.email@ == dto.email@
            &&& password_matches(dto.password@, u.password_hash@)
            &&& bcrypt_hash_form(u.password_hash@)
            &&& !bcrypt_hash_form(dto.password@) ==> u.password_hash@ != dto.password@
        },
{
    let RegistrationDto { name, email, password } = dto;
    let password_hash = hash_password(password)?;
    Ok(NewUser { name, email, password_hash })
}

/// The role to give a new user must exist: its key where it was found, else
/// the refusal `Role not found` that undoes the registration.
pub fn role_to_assign(found: Option<i32>) -> (r: Result<i32, String>)
    ensures
        match found {
            Some(id) => r == Ok::<i32, String>(id),
            None => r matches Err(e) && e@ == "Role not found"@,
        },
{
    match found {
        Some(id) => Ok(id),
        None => Err(text("Role not found")),
    }
}

/// The response once the user and its role are stored, or the store failed
/// with the given reason.
pub fn registration_outcome(stored: Result<(), String>) -> (r: GlobalResponse<ResponseBody>)
    ensures
        match stored {
            Ok(()) => is_message_response(r, "registration success"@),
            Err(e) => is_error_response(r, INTERNAL_SERVER_ERROR, e@),
        },
{
    match stored {
        Ok(()) => GlobalResponse::success(ResponseBody::Message(text("registration success"))),
        Err(e) => GlobalResponse::error(INTERNAL_SERVER_ERROR, e),
    }
}

// ---------------------------------------------------------------------------
// Sign-in
// ---------------------------------------------------------------------------

/// What happens after the user was looked up by e-mail.
pub enum SignInLookup {
    /// The user exists: its password is checked next.
    Found(UserWithRole),
    /// No user has this e-mail: the attempt is recorded as a failed sign-in
    /// with the given note, and the response sent.
    Unknown { note: String, response: GlobalResponse<ResponseBody> },
    /// The lookup failed.
    Failed(GlobalResponse<ResponseBody>),
}

/// The next step of a sign-in after the lookup of its e-mail gave `found`
/// (the user, no user, or the reason the lookup failed).
pub fn sign_in_lookup(dto: &SignInDto, found: Result<Option<UserWithRole>, String>) -> (r: SignInLookup)
    ensures
        match found {
            Ok(Some(u)) => r matches SignInLookup::Found(v) && v == u,
            Ok(None) => r matches SignInLookup::Unknown { note, response } && note@ == "email not found"@
                && is_detailed_error(
                    response,
                    BAD_REQUEST,
                    "Validation failed"@,
                    seq![echo_error_view("email"@, "email not found"@, dto.email@)],
                ),
            Err(e) => r matches SignInLookup::Failed(response) && is_error_response(response, INTERNAL_SERVER_ERROR, e@),
        },
{
    match found {
        Ok(Some(u)) => SignInLookup::Found(u),
        Ok(None) => SignInLookup::Unknown {
            note: text("email not found"),
            response: single_field_failure("email", "email not found", &dto.email),
        },
        Err(e) => SignInLookup::Failed(GlobalResponse::error(INTERNAL_SERVER_ERROR, e)),
    }
}

/// The password check of a sign-in: the user goes on where the password
/// matches the stored hash; otherwise the sign-in is refused.
pub fn sign_in_password(dto: &SignInDto, user: UserWithRole) -> (r: Result<UserWithRole, GlobalResponse<ResponseBody>>)
    ensures
        password_matches(dto.password@, user.password@) <==> r is Ok,
        r matches Ok(u) ==> u == user,
        r matches Err(resp) ==> is_detailed_error(
            resp,
            BAD_REQUEST,
            "Validation failed"@,
            seq![echo_error_view("password"@, "invalid password"@, dto.password@)],
        ),
{
    if verify_password(dto.password.as_str(), user.password.as_str()) {
        Ok(user)
    } else {
        Err(single_field_failure("password", "invalid password", &dto.password))
    }
}

/// The response of a successful sign-in: the access token.
pub fn sign_in_success(token: String) -> (r: GlobalResponse<ResponseBody>)
    ensures
        r.meta.status_code == 200,
        r.meta.error is None,
        r.meta.details is None,
        plain_meta(r.meta),
        r.data == Some(Box::new(ResponseBody::AccessToken(token))),
{
    GlobalResponse::success(ResponseBody::AccessToken(token))
}

// ---------------------------------------------------------------------------
// Sign-out
// ---------------------------------------------------------------------------

/// Signing out deletes the stored token of the user in the claims and
/// answers at once. Gives the user whose token is deleted, and the response.
pub fn sign_out(claims: &IAuth) -> (r: (i64, GlobalResponse<ResponseBody>))
    ensures
        r.0 == claims.id,
        is_message_response(r.1, "sign out success"@),
{
    (claims.id, GlobalResponse::success(ResponseBody::Message(text("sign out success"))))
}


/// The statement that deletes the stored token of a user.
pub fn delete_access_token_sql(user_id: i64) -> (r: String)
    ensures
        r@ == "DELETE FROM access_tokens WHERE user_id = "@ + signed_decimal(user_id as int),
{
    let mut s = text("DELETE FROM access_tokens WHERE user_id = ");
    s.append(signed_decimal_text(user_id).as_str());
    s
}

} // verus!
