use vstd::prelude::*;
use vstd::string::{StringExecFns, StrSliceExecFns};

verus! {

broadcast use vstd::string::group_string_axioms;

/// Smallest number of bytes a password may have.
pub const PASSWORD_MIN_LENGTH: usize = 8;

/// The largest number of database connections kept open.
pub const DATABASE_MAX_CONNECTIONS: u32 = 20;

/// The smallest number of database connections kept open.
pub const DATABASE_MIN_CONNECTIONS: u32 = 5;

/// The largest number of Redis connections kept open.
pub const REDIS_POOL_SIZE: u32 = 10;

/// The settings the service runs with.
#[derive(Debug, Clone)]
pub struct ApplicationConfig {
    pub app_name: String,
    pub app_prefix: String,
    pub app_port: String,
    pub app_cpu_multiplier: String,
    pub database_url: String,
    pub redis_url: String,
}

/// The environment variables the settings are read from, as found.
#[derive(Debug, Clone)]
pub struct EnvSettings {
    pub app_name: String,
    pub app_prefix: String,
    pub app_port: String,
    pub app_cpu_multiplier: String,
    pub db_host: String,
    pub db_name: String,
    pub db_username: String,
    pub db_password: String,
    /// `DATABASE_URL`, where it is set.
    pub database_url: Option<String>,
    pub redis_host: String,
    pub redis_port: String,
    /// `REDIS_URL`, where it is set.
    pub redis_url: Option<String>,
}

/// `postgresql://{username}:{password}@{host}/{name}`
pub open spec fn default_database_url_text(
    username: Seq<char>,
    password: Seq<char>,
    host: Seq<char>,
    name: Seq<char>,
) -> Seq<char> {
    "postgresql://"@ + username + ":"@ + password + "@"@ + host + "/"@ + name
}

/// `redis://{host}:{port}`
pub open spec fn default_redis_url_text(host: Seq<char>, port: Seq<char>) -> Seq<char> {
    "redis://"@ + host + ":"@ + port
}

pub fn default_database_url(username: &str, password: &str, host: &str, name: &str) -> (r: String)
    ensures
        r@ == default_database_url_text(username@, password@, host@, name@),
{
    let mut s = String::from_str("postgresql://");
    s.append(username);
    s.append(":");
    s.append(password);
    s.append("@");
    s.append(host);
    s.append("/");
    s.append(name);
    s
}

pub fn default_redis_url(host: &str, port: &str) -> (r: String)
    ensures
        r@ == default_redis_url_text(host@, port@),
{
    let mut s = String::from_str("redis://");
    s.append(host);
    s.append(":");
    s.append(port);
    s
}

impl ApplicationConfig {
    /// The settings taken from the environment: each variable as it stands,
    /// with the database and Redis addresses built from their parts where
    /// `DATABASE_URL` or `REDIS_URL` is not set.
    pub fn from_env(env: EnvSettings) -> (r: ApplicationConfig)
        ensures
            r.app_name@ == env.app_name@,
            r.app_prefix@ == env.app_prefix@,
            r.app_port@ == env.app_port@,
            r.app_cpu_multiplier@ == env.app_cpu_multiplier@,
            r.database_url@ == (match env.database_url {
                Some(u) => u@,
                None => default_database_url_text(
                    env.db_username@,
                    env.db_password@,
                    env.db_host@,
                    env.db_name@,
                ),
            }),
            r.redis_url@ == (match env.redis_url {
                Some(u) => u@,
                None => default_redis_url_text(env.redis_host@, env.redis_port@),
            }),
    {
        let database_url = match env.database_url {
            Some(u) => u,
            None => default_database_url(
                env.db_username.as_str(),
                env.db_password.as_str(),
                env.db_host.as_str(),
                env.db_name.as_str(),
            ),
        };
        let redis_url = match env.redis_url {
            Some(u) => u,
            None => default_redis_url(env.redis_host.as_str(), env.redis_port.as_str()),
        };
        ApplicationConfig {
            app_name: env.app_name,
            app_prefix: env.app_prefix,
            app_port: env.app_port,
            app_cpu_multiplier: env.app_cpu_multiplier,
            database_url,
            redis_url,
        }
    }
}

/// The address the server listens on: every interface, at the given port.
pub fn bind_address(port: &str) -> (r: String)
    ensures
        r@ == "0.0.0.0:"@ + port@,
{
    let mut s = String::from_str("0.0.0.0:");
    s.append(port);
    s
}

/// The path under which all versioned routes are nested.
pub fn route_prefix(prefix: &str) -> (r: String)
    ensures
        r@ == "/"@ + prefix@,
{
    let mut s = String::from_str("/");
    s.append(prefix);
    s
}

/// The key pair tokens are signed and checked with, in PEM.
#[derive(Debug, Clone)]
pub struct JwtKeys {
    pub public_key: String,
    pub private_key: String,
}

/// Refusal of a key pair.
#[derive(Debug, Clone, Copy, PartialEq, Eq)]
pub enum JwtKeysError {
    /// One of the two keys is empty.
    Empty,
}

impl JwtKeysError {
    pub fn message(&self) -> (r: String)
        ensures
            r@ == "JWT keys are empty"@,
    {
        String::from_str("JWT keys are empty")
    }
}

impl JwtKeys {
    /// A key pair from the text of the two key files; refused where either is
    /// empty.
    pub fn new(public_key: String, private_key: String) -> (r: Result<JwtKeys, JwtKeysError>)
        ensures
            (public_key@.len() == 0 || private_key@.len() == 0) <==> r is Err,
            r matches Ok(k) ==> k.public_key == public_key && k.private_key == private_key,
    {
        if private_key.as_str().is_empty() || public_key.as_str().is_empty() {
            return Err(JwtKeysError::Empty);
        }
        Ok(JwtKeys { public_key, private_key })
    }
}

/// Why a text is not a number.
#[derive(Debug, Clone, Copy, PartialEq, Eq)]
pub enum IntErrorKind {
    Empty,
    InvalidDigit,
    PosOverflow,
}

impl IntErrorKind {
    /// The description std gives of the same parse error.
    pub fn description(&self) -> (r: String)
        ensures
            r@ == (match *self {
                IntErrorKind::Empty => "cannot parse integer from empty string"@,
                IntErrorKind::InvalidDigit => "invalid digit found in string"@,
                IntErrorKind::PosOverflow => "number too large to fit in target type"@,
            }),
    {
        match self {
            IntErrorKind::Empty => String::from_str("cannot parse integer from empty string"),
            IntErrorKind::InvalidDigit => String::from_str("invalid digit found in string"),
            IntErrorKind::PosOverflow => String::from_str("number too large to fit in target type"),
        }
    }
}

pub open spec fn digit_value(c: char) -> nat {
    ((c as int) - ('0' as int)) as nat
}

/// Reads decimal digits left to right onto `acc`, stopping at the first
/// character that is not a digit or the first digit that takes the value past
/// `usize::MAX`.
pub open spec fn scan_digits(d: Seq<char>, acc: nat) -> Result<nat, IntErrorKind>
    decreases d.len(),
{
    if d.len() == 0 {
        Ok(acc)
    } else if !('0' <= d[0] && d[0] <= '9') {
        Err(IntErrorKind::InvalidDigit)
    } else if acc * 10 + digit_value(d[0]) > usize::MAX {
        Err(IntErrorKind::PosOverflow)
    } else {
        scan_digits(d.drop_first(), acc * 10 + digit_value(d[0]))
    }
}

/// How `str::parse::<usize>` reads a text: an optional leading `+`, then
/// decimal digits.
pub open spec fn parse_usize_spec(s: Seq<char>) -> Result<nat, IntErrorKind> {
    if s.len() == 0 {
        Err(IntErrorKind::Empty)
    } else if s[0] == '+' || s[0] == '-' {
        if s.len() == 1 {
            Err(IntErrorKind::InvalidDigit)
        } else if s[0] == '+' {
            scan_digits(s.drop_first(), 0)
        } else {
            Err(IntErrorKind::InvalidDigit)
        }
    } else {
        scan_digits(s, 0)
    }
}

/// Parses a decimal count, as `str::parse::<usize>` does.
pub fn parse_usize(s: &str) -> (r: Result<usize, IntErrorKind>)
    ensures
        match r {
            Ok(x) => parse_usize_spec(s@) == Ok::<nat, IntErrorKind>(x as nat),
            Err(e) => parse_usize_spec(s@) == Err::<nat, IntErrorKind>(e),
        },
{
    let n: usize = s.unicode_len();
    if n == 0 {
        return Err(IntErrorKind::Empty);
    }
    let first = s.get_char(0);
    let mut i: usize = 0;
    if first == '+' || first == '-' {
        if n == 1 {
            return Err(IntErrorKind::InvalidDigit);
        }
        if first == '-' {
            return Err(IntErrorKind::InvalidDigit);
        }
        i = 1;
    }
    let ghost start = i as int;
    let mut acc: usize = 0;
    proof {
        assert(s@.subrange(start, s@.len() as int) =~= if start == 1 { s@.drop_first() } else { s@ });
    }
    while i < n
        invariant
            n == s@.len(),
            start <= i <= n,
            0 <= start <= 1,
            parse_usize_spec(s@) == scan_digits(s@.subrange(start, n as int), 0),
            scan_digits(s@.subrange(start, n as int), 0) == scan_digits(s@.subrange(i as int, n as int), acc as nat),
        decreases n - i,
    {
        let c = s.get_char(i);
        let ghost rest = s@.subrange(i as int, n as int);
        assert(rest[0] == c);
        assert(rest.drop_first() =~= s@.subrange(i + 1, n as int));
        if !('0' <= c && c <= '9') {
            return Err(IntErrorKind::InvalidDigit);
        }
        let d: usize = (c as u32 - '0' as u32) as usize;
        assert(d == digit_value(c));
        if acc > (usize::MAX - d) / 10 {
            assert(acc * 10 + d > usize::MAX) by (nonlinear_arith)
                requires
                    acc > (usize::MAX - d) / 10,
                    d <= 9,
            ;
            return Err(IntErrorKind::PosOverflow);
        }
        assert(acc * 10 + d <= usize::MAX) by (nonlinear_arith)
            requires
                acc <= (usize::MAX - d) / 10,
                d <= 9,
        ;
        acc = acc * 10 + d;
        i = i + 1;
    }
    proof {
        assert(s@.subrange(i as int, n as int) =~= Seq::<char>::empty());
    }
    Ok(acc)
}

/// The number of worker threads: the processor count times the multiplier.
pub fn worker_thread_count(cpus: usize, multiplier: usize) -> (r: usize)
    requires
        cpus * multiplier <= usize::MAX,
    ensures
        r == cpus * multiplier,
{
    cpus * multiplier
}

} // verus!
