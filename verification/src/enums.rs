use vstd::prelude::*;
use vstd::string::StringExecFns;

verus! {

/// Severity written into each log line.
#[derive(Debug, Clone, Copy, PartialEq, Eq)]
pub enum LogStatusEnum {
    Error,
    Info,
    Verbose,
    Warning,
}

/// Keys under which the service keeps data in Redis.
#[derive(Debug, Clone, Copy, PartialEq, Eq)]
#[allow(non_camel_case_types)]
pub enum RedisKey {
    HK_SMART_HOME_SYSTEMCONFIG,
}

/// Roles a user can be given.
#[derive(Debug, Clone, Copy, PartialEq, Eq)]
pub enum RoleEnum {
    Admin,
    User,
}

/// The name under which a log status is shown to users.
pub open spec fn log_status_text(s: LogStatusEnum) -> Seq<char> {
    match s {
        LogStatusEnum::Error => "error"@,
        LogStatusEnum::Info => "info"@,
        LogStatusEnum::Verbose => "verbose"@,
        LogStatusEnum::Warning => "warning"@,
    }
}

/// The textual form of a Redis key.
pub open spec fn redis_key_text(k: RedisKey) -> Seq<char> {
    match k {
        RedisKey::HK_SMART_HOME_SYSTEMCONFIG => "hk-smart_home-systemconfig"@,
    }
}

/// The name of a role as stored in the `roles` table.
pub open spec fn role_text(r: RoleEnum) -> Seq<char> {
    match r {
        RoleEnum::Admin => "admin"@,
        RoleEnum::User => "user"@,
    }
}

impl LogStatusEnum {
    pub fn to_string(&self) -> (r: String)
        ensures
            r@ == log_status_text(*self),
    {
        match self {
            LogStatusEnum::Error => String::from_str("error"),
            LogStatusEnum::Info => String::from_str("info"),
            LogStatusEnum::Verbose => String::from_str("verbose"),
            LogStatusEnum::Warning => String::from_str("warning"),
        }
    }
}

impl RedisKey {
    pub fn to_string(&self) -> (r: String)
        ensures
            r@ == redis_key_text(*self),
    {
        match self {
            RedisKey::HK_SMART_HOME_SYSTEMCONFIG => String::from_str("hk-smart_home-systemconfig"),
        }
    }
}

impl RoleEnum {
    pub fn to_string(&self) -> (r: String)
        ensures
            r@ == role_text(*self),
    {
        match self {
            RoleEnum::Admin => String::from_str("admin"),
            RoleEnum::User => String::from_str("user"),
        }
    }
}

} // verus!
