use vstd::prelude::*;
use vstd::string::StringExecFns;

use crate::validation::{FieldError, FieldErrorView, ValidationErrors};

verus! {

broadcast use vstd::string::group_string_axioms;

pub const OK: u16 = 200;
pub const BAD_REQUEST: u16 = 400;
pub const UNAUTHORIZED: u16 = 401;
pub const NOT_FOUND: u16 = 404;
pub const METHOD_NOT_ALLOWED: u16 = 405;
pub const UNSUPPORTED_MEDIA_TYPE: u16 = 415;
pub const UNPROCESSABLE_ENTITY: u16 = 422;
pub const INTERNAL_SERVER_ERROR: u16 = 500;

/// The status line text of an HTTP status code, such as `404 Not Found`.
pub uninterp spec fn http_status_text(code: u16) -> Seq<char>;

/// `StatusCode::from_u16` of the `http` crate (through `axum`), then its
/// `Display`: the code, a space and its canonical reason phrase. The table of
/// phrases is not written out; the result is named. `from_u16` accepts
/// exactly the codes from 100 to 999. The phrases of the three codes the
/// service answers with by itself are stated as that table gives them.
#[verifier::external_body]
pub(crate) fn status_text(code: u16) -> (r: String)
    requires
        100 <= code <= 999,
    ensures
        r@ == http_status_text(code),
        code == 401 ==> r@ == "401 Unauthorized"@,
        code == 404 ==> r@ == "404 Not Found"@,
        code == 405 ==> r@ == "405 Method Not Allowed"@,
{
    axum::http::StatusCode::from_u16(code).unwrap().to_string()
}

/// Whether `http` accepts a number as a status code.
pub open spec fn is_status_code(code: u16) -> bool {
    100 <= code <= 999
}

/// The status a response is sent with: its own code where that is a status
/// code, else 500.
pub fn response_status(code: u16) -> (r: u16)
    ensures
        r == (if is_status_code(code) { code } else { INTERNAL_SERVER_ERROR }),
{
    if 100 <= code && code <= 999 {
        code
    } else {
        INTERNAL_SERVER_ERROR
    }
}

/// The envelope of every response: its status, error and pagination.
#[derive(Debug, Clone)]
pub struct Meta {
    pub status_code: u16,
    pub error: Option<String>,
    pub details: Option<ValidationErrors>,
    pub last_page: Option<u64>,
    pub per_page: Option<u64>,
    pub page: Option<u64>,
    pub total: Option<u64>,
}

/// A response body: the envelope and, on success, the data.
#[derive(Debug, Clone)]
pub struct GlobalResponse<T> {
    pub meta: Meta,
    pub data: Option<Box<T>>,
}

/// The data of the service's successful responses.
#[derive(Debug, Clone, PartialEq, Eq)]
pub enum ResponseBody {
    /// `{"message": ...}`
    Message(String),
    /// `{"access_token": ...}`
    AccessToken(String),
}

pub open spec fn details_view(d: Option<ValidationErrors>) -> Option<Seq<FieldErrorView>> {
    match d {
        Some(e) => Some(e@),
        None => None,
    }
}

pub open spec fn text_view(o: Option<String>) -> Option<Seq<char>> {
    match o {
        Some(s) => Some(s@),
        None => None,
    }
}

/// A response without pagination.
pub open spec fn plain_meta(m: Meta) -> bool {
    &&& m.last_page is None
    &&& m.per_page is None
    &&& m.page is None
    &&& m.total is None
}

/// An error response with the given status and message, without details.
pub open spec fn is_error_response<T>(r: GlobalResponse<T>, status: u16, message: Seq<char>) -> bool {
    &&& r.meta.status_code == status
    &&& text_view(r.meta.error) == Some(message)
    &&& r.meta.details is None
    &&& plain_meta(r.meta)
    &&& r.data is None
}

/// An error response with the given status, message and details.
pub open spec fn is_detailed_error<T>(
    r: GlobalResponse<T>,
    status: u16,
    message: Seq<char>,
    details: Seq<FieldErrorView>,
) -> bool {
    &&& r.meta.status_code == status
    &&& text_view(r.meta.error) == Some(message)
    &&& details_view(r.meta.details) == Some(details)
    &&& plain_meta(r.meta)
    &&& r.data is None
}

/// A 200 response whose data is `{"message": message}`.
pub open spec fn is_message_response(r: GlobalResponse<ResponseBody>, message: Seq<char>) -> bool {
    &&& r.meta.status_code == OK
    &&& r.meta.error is None
    &&& r.meta.details is None
    &&& plain_meta(r.meta)
    &&& match r.data {
        Some(b) => match *b {
            ResponseBody::Message(m) => m@ == message,
            _ => false,
        },
        None => false,
    }
}

impl<T> GlobalResponse<T> {
    /// A 200 response that carries `data`.
    pub fn success(data: T) -> (r: Self)
        ensures
            r.meta.status_code == OK,
            r.meta.error is None,
            r.meta.details is None,
            plain_meta(r.meta),
            r.data == Some(Box::new(data)),
    {
        GlobalResponse {
            meta: Meta {
                status_code: OK,
                error: None,
                details: None,
                last_page: None,
                per_page: None,
                page: None,
                total: None,
            },
            data: Some(Box::new(data)),
        }
    }

    /// A response with the given status and error message and no data.
    pub fn error(status_code: u16, error: String) -> (r: Self)
        ensures
            is_error_response(r, status_code, error@),
    {
        GlobalResponse {
            meta: Meta {
                status_code,
                error: Some(error),
                details: None,
                last_page: None,
                per_page: None,
                page: None,
                total: None,
            },
            data: None,
        }
    }

    /// The same response with `errors` as its details.
    pub fn with_validation_errors(self, errors: ValidationErrors) -> (r: Self)
        ensures
            r.meta.status_code == self.meta.status_code,
            r.meta.error == self.meta.error,
            details_view(r.meta.details) == Some(errors@),
            r.meta.details == Some(errors),
            r.meta.last_page == self.meta.last_page,
            r.meta.per_page == self.meta.per_page,
            r.meta.page == self.meta.page,
            r.meta.total == self.meta.total,
            r.data == self.data,
    {
        let mut r = self;
        r.meta.details = Some(errors);
        r
    }

    /// The same response with the given page numbers.
    pub fn with_pagination(self, page: u64, per_page: u64, total: u64, last_page: u64) -> (r: Self)
        ensures
            r.meta.status_code == self.meta.status_code,
            r.meta.error == self.meta.error,
            r.meta.details == self.meta.details,
            r.meta.page == Some(page),
            r.meta.per_page == Some(per_page),
            r.meta.total == Some(total),
            r.meta.last_page == Some(last_page),
            r.data == self.data,
    {
        let mut r = self;
        r.meta.page = Some(page);
        r.meta.per_page = Some(per_page);
        r.meta.total = Some(total);
        r.meta.last_page = Some(last_page);
        r
    }
}

/// Why a JSON request body was refused.
#[derive(Debug, Clone, Copy, PartialEq, Eq)]
pub enum JsonRejectionKind {
    /// The JSON was well formed but did not fit the expected type.
    DataError,
    /// The body was not JSON.
    SyntaxError,
    /// The request had no `Content-Type: application/json`.
    MissingContentType,
    /// The body could not be read.
    BytesRejection,
    /// Any other refusal.
    Other,
}

/// The status and message sent for a refused JSON body, where `detail` is the
/// refusal's own description.
pub open spec fn rejection_outcome(kind: JsonRejectionKind, detail: Seq<char>) -> (u16, Seq<char>) {
    match kind {
        JsonRejectionKind::DataError => (UNPROCESSABLE_ENTITY, "Invalid JSON data: "@ + detail),
        JsonRejectionKind::SyntaxError => (BAD_REQUEST, "Invalid JSON syntax: "@ + detail),
        JsonRejectionKind::MissingContentType => (UNSUPPORTED_MEDIA_TYPE, "Missing Content-Type: "@ + detail),
        JsonRejectionKind::BytesRejection => (BAD_REQUEST, "Failed to read request body: "@ + detail),
        JsonRejectionKind::Other => (INTERNAL_SERVER_ERROR, "Unknown JSON processing error"@),
    }
}

fn prefixed(prefix: &str, detail: &str) -> (r: String)
    ensures
        r@ == prefix@ + detail@,
{
    let mut s = String::from_str(prefix);
    s.append(detail);
    s
}

impl GlobalResponse<()> {
    /// The response to a request whose JSON body was refused.
    pub fn from_json_rejection(kind: JsonRejectionKind, detail: &str) -> (r: Self)
        ensures
            is_error_response(r, rejection_outcome(kind, detail@).0, rejection_outcome(kind, detail@).1),
    {
        match kind {
            JsonRejectionKind::DataError => Self::error(UNPROCESSABLE_ENTITY, prefixed("Invalid JSON data: ", detail)),
            JsonRejectionKind::SyntaxError => Self::error(BAD_REQUEST, prefixed("Invalid JSON syntax: ", detail)),
            JsonRejectionKind::MissingContentType => Self::error(
                UNSUPPORTED_MEDIA_TYPE,
                prefixed("Missing Content-Type: ", detail),
            ),
            JsonRejectionKind::BytesRejection => Self::error(
                BAD_REQUEST,
                prefixed("Failed to read request body: ", detail),
            ),
            JsonRejectionKind::Other => Self::error(
                INTERNAL_SERVER_ERROR,
                String::from_str("Unknown JSON processing error"),
            ),
        }
    }
}

/// The single error detail of a fallback response: under the code's digits,
/// with the status line as message.
pub open spec fn status_detail_view(digits: Seq<char>, line: Seq<char>) -> FieldErrorView {
    FieldErrorView { field: digits, code: digits, message: Some(line), params: seq![] }
}

fn status_detail(digits: &str, line: &String) -> (r: FieldError)
    ensures
        r@ == status_detail_view(digits@, line@),
{
    let r = FieldError {
        field: String::from_str(digits),
        code: String::from_str(digits),
        message: Some(line.clone()),
        params: Vec::new(),
    };
    proof {
        assert(r@.params =~= seq![]);
    }
    r
}

/// The response for a path that no route serves.
pub fn handle_404() -> (r: GlobalResponse<()>)
    ensures
        is_detailed_error(
            r,
            NOT_FOUND,
            "404 Not Found"@,
            seq![status_detail_view("404"@, "404 Not Found"@)],
        ),
{
    let line = status_text(NOT_FOUND);
    let mut errors = ValidationErrors::new();
    errors.add(status_detail("404", &line));
    GlobalResponse::error(NOT_FOUND, line).with_validation_errors(errors)
}

/// The response for a route that does not take the request's method.
pub fn handle_405() -> (r: GlobalResponse<()>)
    ensures
        is_detailed_error(
            r,
            METHOD_NOT_ALLOWED,
            "405 Method Not Allowed"@,
            seq![status_detail_view("405"@, "405 Method Not Allowed"@)],
        ),
{
    let line = status_text(METHOD_NOT_ALLOWED);
    let mut errors = ValidationErrors::new();
    errors.add(status_detail("405", &line));
    GlobalResponse::error(METHOD_NOT_ALLOWED, line).with_validation_errors(errors)
}

} // verus!
