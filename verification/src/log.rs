use vstd::prelude::*;
use vstd::string::StringExecFns;

use crate::enums::LogStatusEnum;
use crate::validation::option_view;

verus! {

broadcast use vstd::string::group_string_axioms;

/// The offset from UTC, in seconds east, of the time in which log files are
/// dated and log lines stamped: UTC+7.
pub const LOG_UTC_OFFSET_SECS: i32 = 25_200;

/// The `Debug` form of a text: quoted, with escapes.
pub uninterp spec fn debug_str(s: Seq<char>) -> Seq<char>;

/// `format!("{:?}", s)` of std on a `&str`: the text in double quotes with
/// quotes, backslashes and control characters escaped. The escape rules are
/// not written out; the result is named.
#[verifier::external_body]
pub(crate) fn debug_text(s: &str) -> (r: String)
    ensures
        r@ == debug_str(s@),
{
    format!("{:?}", s)
}

/// The decimal digit `d`.
pub open spec fn digit_char(d: nat) -> char {
    (('0' as nat) + d) as char
}

/// The decimal notation of a number, without leading zeros.
pub open spec fn decimal(n: nat) -> Seq<char>
    decreases n,
{
    if n < 10 {
        seq![digit_char(n)]
    } else {
        decimal(n / 10).push(digit_char(n % 10))
    }
}

fn digit_text(d: u128) -> (r: &'static str)
    requires
        d < 10,
    ensures
        r@ == seq![digit_char(d as nat)],
{
    proof {
        reveal_strlit("0");
        reveal_strlit("1");
        reveal_strlit("2");
        reveal_strlit("3");
        reveal_strlit("4");
        reveal_strlit("5");
        reveal_strlit("6");
        reveal_strlit("7");
        reveal_strlit("8");
        reveal_strlit("9");
    }
    if d == 0 {
        "0"
    } else if d == 1 {
        "1"
    } else if d == 2 {
        "2"
    } else if d == 3 {
        "3"
    } else if d == 4 {
        "4"
    } else if d == 5 {
        "5"
    } else if d == 6 {
        "6"
    } else if d == 7 {
        "7"
    } else if d == 8 {
        "8"
    } else {
        "9"
    }
}

/// The decimal notation of `n`, as `n.to_string()` writes it.
pub fn decimal_text(n: u128) -> (r: String)
    ensures
        r@ == decimal(n as nat),
    decreases n,
{
    if n < 10 {
        String::from_str(digit_text(n))
    } else {
        let mut s = decimal_text(n / 10);
        s.append(digit_text(n % 10));
        s
    }
}

/// The decimal notation of an integer, with a leading `-` when negative, as
/// `Debug` and `Display` write integers.
pub open spec fn signed_decimal(n: int) -> Seq<char> {
    if n < 0 {
        seq!['-'] + decimal((-n) as nat)
    } else {
        decimal(n as nat)
    }
}

pub fn signed_decimal_text(n: i64) -> (r: String)
    ensures
        r@ == signed_decimal(n as int),
{
    if n < 0 {
        let magnitude: u128 = (0i128 - (n as i128)) as u128;
        let mut s = String::from_str("-");
        s.append(decimal_text(magnitude).as_str());
        proof {
            reveal_strlit("-");
        }
        s
    } else {
        decimal_text(n as u128)
    }
}

/// One line of the request log, before the time it is written at.
#[derive(Debug, Clone)]
pub struct Log {
    pub log_status: LogStatusEnum,
    pub status_code: Option<u16>,
    pub http_method: String,
    pub endpoint: String,
    pub request_header: String,
    pub request_body: Option<String>,
    pub request_params: Option<String>,
    pub response_body: Option<String>,
    pub process_taken_time: Option<u128>,
}

/// The severity of a response with the given status: 200 and 201 are
/// verbose, 400 a warning, anything else an error.
pub open spec fn response_log_status(status: u16) -> LogStatusEnum {
    if status == 200 || status == 201 {
        LogStatusEnum::Verbose
    } else if status == 400 {
        LogStatusEnum::Warning
    } else {
        LogStatusEnum::Error
    }
}

impl Log {
    /// The entry for an incoming request.
    pub fn request(http_method: &String, endpoint: &String, request_header: &String, body: Option<String>) -> (r: Log)
        ensures
            r.log_status == LogStatusEnum::Info,
            r.status_code is None,
            r.http_method@ == http_method@,
            r.endpoint@ == debug_str(endpoint@),
            r.request_header@ == debug_str(request_header@),
            option_view(r.request_body) == option_view(body),
            r.request_params is None,
            r.response_body is None,
            r.process_taken_time is None,
    {
        Log {
            log_status: LogStatusEnum::Info,
            status_code: None,
            http_method: http_method.clone(),
            endpoint: debug_text(endpoint.as_str()),
            request_header: debug_text(request_header.as_str()),
            request_body: body,
            request_params: None,
            response_body: None,
            process_taken_time: None,
        }
    }

    /// The entry for a response sent with `status` after `response_time`
    /// milliseconds.
    pub fn response(
        http_method: String,
        endpoint: String,
        request_header: String,
        status: u16,
        body: Option<String>,
        response_time: u128,
    ) -> (r: Log)
        ensures
            r.log_status == response_log_status(status),
            r.status_code == Some(status),
            r.http_method@ == http_method@,
            r.endpoint@ == debug_str(endpoint@),
            r.request_header@ == debug_str(request_header@),
            r.request_body is None,
            r.request_params is None,
            option_view(r.response_body) == option_view(body),
            r.process_taken_time == Some(response_time),
    {
        let log_status = if status == 200 || status == 201 {
            LogStatusEnum::Verbose
        } else if status == 400 {
            LogStatusEnum::Warning
        } else {
            LogStatusEnum::Error
        };
        Log {
            log_status,
            status_code: Some(status),
            http_method,
            endpoint: debug_text(endpoint.as_str()),
            request_header: debug_text(request_header.as_str()),
            request_body: None,
            request_params: None,
            response_body: body,
            process_taken_time: Some(response_time),
        }
    }

    /// The entry for a failure while serving a request; it is logged as a
    /// 500.
    pub fn error(
        http_method: String,
        endpoint: String,
        request_header: String,
        error_message: String,
        response_time: u128,
    ) -> (r: Log)
        ensures
            r.log_status == LogStatusEnum::Error,
            r.status_code == Some(500u16),
            r.http_method@ == http_method@,
            r.endpoint@ == debug_str(endpoint@),
            r.request_header@ == debug_str(request_header@),
            r.request_body is None,
            r.request_params is None,
            option_view(r.response_body) == Some(error_message@),
            r.process_taken_time == Some(response_time),
    {
        Log {
            log_status: LogStatusEnum::Error,
            status_code: Some(500),
            http_method,
            endpoint: debug_text(endpoint.as_str()),
            request_header: debug_text(request_header.as_str()),
            request_body: None,
            request_params: None,
            response_body: Some(error_message),
            process_taken_time: Some(response_time),
        }
    }
}

/// The variant name of a log status, as `Debug` shows it.
pub open spec fn status_variant(s: LogStatusEnum) -> Seq<char> {
    match s {
        LogStatusEnum::Error => "Error"@,
        LogStatusEnum::Info => "Info"@,
        LogStatusEnum::Verbose => "Verbose"@,
        LogStatusEnum::Warning => "Warning"@,
    }
}

fn status_variant_text(s: LogStatusEnum) -> (r: String)
    ensures
        r@ == status_variant(s),
{
    match s {
        LogStatusEnum::Error => String::from_str("Error"),
        LogStatusEnum::Info => String::from_str("Info"),
        LogStatusEnum::Verbose => String::from_str("Verbose"),
        LogStatusEnum::Warning => String::from_str("Warning"),
    }
}

/// An optional text, or the empty text.
pub open spec fn or_empty(o: Option<Seq<char>>) -> Seq<char> {
    match o {
        Some(s) => s,
        None => Seq::empty(),
    }
}

/// An optional number in decimal, or the empty text.
pub open spec fn number_or_empty(o: Option<nat>) -> Seq<char> {
    match o {
        Some(n) => decimal(n),
        None => Seq::empty(),
    }
}

pub open spec fn code_nat(o: Option<u16>) -> Option<nat> {
    match o {
        Some(c) => Some(c as nat),
        None => None,
    }
}

pub open spec fn time_nat(o: Option<u128>) -> Option<nat> {
    match o {
        Some(t) => Some(t as nat),
        None => None,
    }
}

/// The fields of a log line, separated by `|`: the time, the severity, the
/// status, the method, the endpoint, the header, the body, the parameters,
/// the response and the time taken.
pub open spec fn log_line_text(log: Log, timestamp: Seq<char>) -> Seq<char> {
    timestamp + "|"@ + status_variant(log.log_status) + "|"@ + debug_str(number_or_empty(code_nat(log.status_code)))
        + "|"@ + log.http_method@ + "|"@ + log.endpoint@ + "|"@ + debug_str(log.request_header@) + "|"@
        + debug_str(or_empty(option_view(log.request_body))) + "|"@ + debug_str(or_empty(option_view(log.request_params)))
        + "|"@ + debug_str(or_empty(option_view(log.response_body))) + "|"@ + debug_str(
        number_or_empty(time_nat(log.process_taken_time)),
    )
}

fn optional_text(o: &Option<String>) -> (r: String)
    ensures
        r@ == or_empty(option_view(*o)),
{
    match o {
        Some(s) => s.clone(),
        None => String::new(),
    }
}

fn optional_number(o: Option<u128>) -> (r: String)
    ensures
        r@ == number_or_empty(time_nat(o)),
{
    match o {
        Some(n) => decimal_text(n),
        None => String::new(),
    }
}

impl Log {
    /// The line written to the log file for this entry at `timestamp`.
    pub fn line(&self, timestamp: &str) -> (r: String)
        ensures
            r@ == log_line_text(*self, timestamp@),
    {
        let code: Option<u128> = match self.status_code {
            Some(c) => Some(c as u128),
            None => None,
        };
        let code_text = optional_number(code);
        let time_text = optional_number(self.process_taken_time);
        let body = optional_text(&self.request_body);
        let params = optional_text(&self.request_params);
        let response = optional_text(&self.response_body);

        let mut s = String::from_str(timestamp);
        s.append("|");
        s.append(status_variant_text(self.log_status).as_str());
        s.append("|");
        s.append(debug_text(code_text.as_str()).as_str());
        s.append("|");
        s.append(self.http_method.as_str());
        s.append("|");
        s.append(self.endpoint.as_str());
        s.append("|");
        s.append(debug_text(self.request_header.as_str()).as_str());
        s.append("|");
        s.append(debug_text(body.as_str()).as_str());
        s.append("|");
        s.append(debug_text(params.as_str()).as_str());
        s.append("|");
        s.append(debug_text(response.as_str()).as_str());
        s.append("|");
        s.append(debug_text(time_text.as_str()).as_str());
        proof {
            assert(code_nat(self.status_code) == time_nat(code));
        }
        s
    }
}

/// The log file of a day: `<date>_apps.log`.
pub fn log_file_name(date: &str) -> (r: String)
    ensures
        r@ == date@ + "_apps.log"@,
{
    let mut s = String::from_str(date);
    s.append("_apps.log");
    s
}


/// The status and body sent when a request body cannot be read.
pub fn request_body_unreadable() -> (r: (u16, String))
    ensures
        r.0 == 400,
        r.1@ == "Failed to read request body"@,
{
    (400, String::from_str("Failed to read request body"))
}

/// The status and body sent when a response body cannot be read.
pub fn response_body_unreadable() -> (r: (u16, String))
    ensures
        r.0 == 500,
        r.1@ == "Failed to read response body"@,
{
    (500, String::from_str("Failed to read response body"))
}

/// The error logged when either body cannot be read.
pub fn body_unreadable_log_message() -> (r: String)
    ensures
        r@ == "Failed to read response body"@,
{
    String::from_str("Failed to read response body")
}

} // verus!
