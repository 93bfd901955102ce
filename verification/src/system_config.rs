use vstd::prelude::*;
use vstd::string::StringExecFns;

use crate::enums::{redis_key_text, RedisKey};

verus! {

broadcast use vstd::string::group_string_axioms;

/// The Redis key of a system setting: the settings key, a hyphen, the name.
pub open spec fn config_key_text(parameter: Seq<char>) -> Seq<char> {
    redis_key_text(RedisKey::HK_SMART_HOME_SYSTEMCONFIG) + "-"@ + parameter
}

pub fn config_key(parameter: &str) -> (r: String)
    ensures
        r@ == config_key_text(parameter@),
{
    let mut key = RedisKey::HK_SMART_HOME_SYSTEMCONFIG.to_string();
    key.append("-");
    key.append(parameter);
    key
}

/// Why a system setting could not be had.
#[derive(Debug, Clone, Copy, PartialEq, Eq)]
pub enum ConfigError {
    /// The setting is stored as the empty text.
    Empty,
    /// Nothing is stored under the key.
    NotFound,
    /// Redis could not be asked.
    Unavailable,
}

pub open spec fn config_error_text(e: ConfigError) -> Seq<char> {
    match e {
        ConfigError::Empty => "Empty configuration value"@,
        ConfigError::NotFound => "Configuration key not found"@,
        ConfigError::Unavailable => "Failed to fetch configuration from Redis"@,
    }
}

impl ConfigError {
    pub fn message(&self) -> (r: String)
        ensures
            r@ == config_error_text(*self),
    {
        match self {
            ConfigError::Empty => String::from_str("Empty configuration value"),
            ConfigError::NotFound => String::from_str("Configuration key not found"),
            ConfigError::Unavailable => String::from_str("Failed to fetch configuration from Redis"),
        }
    }
}

/// What a lookup in Redis gave: `Err` where the store could not be asked,
/// `Ok(None)` where nothing is stored under the key.
pub type RedisLookup = Result<Option<String>, ()>;

/// The setting a lookup yields: the stored text where it is not empty.
pub open spec fn config_outcome(lookup: RedisLookup) -> Result<Seq<char>, ConfigError> {
    match lookup {
        Ok(Some(v)) => if v@.len() == 0 {
            Err(ConfigError::Empty)
        } else {
            Ok(v@)
        },
        Ok(None) => Err(ConfigError::NotFound),
        Err(()) => Err(ConfigError::Unavailable),
    }
}

pub fn config_value(lookup: RedisLookup) -> (r: Result<String, ConfigError>)
    ensures
        match config_outcome(lookup) {
            Ok(v) => r matches Ok(s) && s@ == v,
            Err(e) => r == Err::<String, ConfigError>(e),
        },
{
    match lookup {
        Ok(Some(record)) => {
            if record.as_str().is_empty() {
                Err(ConfigError::Empty)
            } else {
                Ok(record)
            }
        },
        Ok(None) => Err(ConfigError::NotFound),
        Err(()) => Err(ConfigError::Unavailable),
    }
}

/// The setting that holds how many failed sign-ins are allowed.
pub fn max_retry_login_parameter() -> (r: String)
    ensures
        r@ == "max_retry_login"@,
{
    String::from_str("max_retry_login")
}

/// The key and value written, read back and deleted to check that Redis
/// answers.
pub fn ping_entry() -> (r: (String, String))
    ensures
        r.0@ == "foo"@,
        r.1@ == "bar"@,
{
    (String::from_str("foo"), String::from_str("bar"))
}

} // verus!
