use vstd::prelude::*;
use vstd::string::StringExecFns;

use crate::config::PASSWORD_MIN_LENGTH;

verus! {

broadcast use vstd::string::group_string_axioms;

/// Whether a character has the Unicode `Uppercase` property.
pub uninterp spec fn unicode_uppercase(c: char) -> bool;

/// Whether a character has the Unicode `Lowercase` property.
pub uninterp spec fn unicode_lowercase(c: char) -> bool;

/// `char::is_uppercase` of std: whether `c` has the Unicode `Uppercase`
/// property. The property table is not written out; the result is named.
#[verifier::external_body]
fn char_is_uppercase(c: char) -> (r: bool)
    ensures
        r == unicode_uppercase(c),
{
    c.is_uppercase()
}

/// `char::is_lowercase` of std: whether `c` has the Unicode `Lowercase`
/// property. The property table is not written out; the result is named.
#[verifier::external_body]
fn char_is_lowercase(c: char) -> (r: bool)
    ensures
        r == unicode_lowercase(c),
{
    c.is_lowercase()
}

/// A digit in radix ten.
pub open spec fn is_decimal_digit(c: char) -> bool {
    '0' <= c && c <= '9'
}

/// The punctuation a password must draw at least one character from:
/// `!@#$%^&*()_+-=[]{}|;:'",.<>/?`
pub open spec fn is_special_char(c: char) -> bool {
    ||| c == '!' ||| c == '@' ||| c == '#' ||| c == '$' ||| c == '%'
    ||| c == '^' ||| c == '&' ||| c == '*' ||| c == '(' ||| c == ')'
    ||| c == '_' ||| c == '+' ||| c == '-' ||| c == '=' ||| c == '['
    ||| c == ']' ||| c == '{' ||| c == '}' ||| c == '|' ||| c == ';'
    ||| c == ':' ||| c == '\'' ||| c == '"' ||| c == ',' ||| c == '.'
    ||| c == '<' ||| c == '>' ||| c == '/' ||| c == '?'
}

pub fn decimal_digit(c: char) -> (r: bool)
    ensures
        r == is_decimal_digit(c),
{
    '0' <= c && c <= '9'
}

pub fn special_char(c: char) -> (r: bool)
    ensures
        r == is_special_char(c),
{
    c == '!' || c == '@' || c == '#' || c == '$' || c == '%'
    || c == '^' || c == '&' || c == '*' || c == '(' || c == ')'
    || c == '_' || c == '+' || c == '-' || c == '=' || c == '['
    || c == ']' || c == '{' || c == '}' || c == '|' || c == ';'
    || c == ':' || c == '\'' || c == '"' || c == ',' || c == '.'
    || c == '<' || c == '>' || c == '/' || c == '?'
}

pub open spec fn has_uppercase(p: Seq<char>) -> bool {
    exists|i: int| 0 <= i < p.len() && #[trigger] unicode_uppercase(p[i])
}

pub open spec fn has_lowercase(p: Seq<char>) -> bool {
    exists|i: int| 0 <= i < p.len() && #[trigger] unicode_lowercase(p[i])
}

pub open spec fn has_digit(p: Seq<char>) -> bool {
    exists|i: int| 0 <= i < p.len() && #[trigger] is_decimal_digit(p[i])
}

pub open spec fn has_special(p: Seq<char>) -> bool {
    exists|i: int| 0 <= i < p.len() && #[trigger] is_special_char(p[i])
}

/// The size of a text in bytes once encoded as UTF-8, as `str::len`
/// reports it.
pub open spec fn byte_len(p: Seq<char>) -> usize {
    vstd::utf8::encode_utf8(p).len() as usize
}

/// A rule of the password policy that a password can break.
#[derive(Debug, Clone, Copy, PartialEq, Eq)]
pub enum PasswordRule {
    MissingUppercase,
    MissingLowercase,
    MissingDigit,
    MissingSpecial,
    TooShort,
}

/// The first rule, in the order the policy checks them, that `p` breaks.
pub open spec fn password_violation(p: Seq<char>) -> Option<PasswordRule> {
    if !has_uppercase(p) {
        Some(PasswordRule::MissingUppercase)
    } else if !has_lowercase(p) {
        Some(PasswordRule::MissingLowercase)
    } else if !has_digit(p) {
        Some(PasswordRule::MissingDigit)
    } else if !has_special(p) {
        Some(PasswordRule::MissingSpecial)
    } else if byte_len(p) < PASSWORD_MIN_LENGTH {
        Some(PasswordRule::TooShort)
    } else {
        None
    }
}

/// Checks a password against the policy: at least one uppercase letter, one
/// lowercase letter, one decimal digit, one special character, and at least
/// `PASSWORD_MIN_LENGTH` bytes. Reports the first rule broken.
pub fn validate_password(password: &str) -> (r: Result<(), PasswordRule>)
    ensures
        r == (match password_violation(password@) {
            None => Ok(()),
            Some(rule) => Err(rule),
        }),
{
    let mut has_upper: bool = false;
    let mut has_lower: bool = false;
    let mut has_dig: bool = false;
    let mut has_spec: bool = false;

    for c in it: password.chars()
        invariant
            it.seq() == password@,
            has_upper == (exists|j: int| 0 <= j < it.index() && #[trigger] unicode_uppercase(password@[j])),
            has_lower == (exists|j: int| 0 <= j < it.index() && #[trigger] unicode_lowercase(password@[j])),
            has_dig == (exists|j: int| 0 <= j < it.index() && #[trigger] is_decimal_digit(password@[j])),
            has_spec == (exists|j: int| 0 <= j < it.index() && #[trigger] is_special_char(password@[j])),
    {
        if char_is_uppercase(c) {
            has_upper = true;
        }
        if char_is_lowercase(c) {
            has_lower = true;
        }
        if decimal_digit(c) {
            has_dig = true;
        }
        if special_char(c) {
            has_spec = true;
        }
    }

    if !has_upper {
        return Err(PasswordRule::MissingUppercase);
    }
    if !has_lower {
        return Err(PasswordRule::MissingLowercase);
    }
    if !has_dig {
        return Err(PasswordRule::MissingDigit);
    }
    if !has_spec {
        return Err(PasswordRule::MissingSpecial);
    }
    if password.len() < PASSWORD_MIN_LENGTH {
        return Err(PasswordRule::TooShort);
    }
    Ok(())
}


/// The code under which a broken rule is reported.
pub open spec fn rule_code(rule: PasswordRule) -> Seq<char> {
    match rule {
        PasswordRule::TooShort => "password must be at least 8 characters long"@,
        _ => "password"@,
    }
}

/// The message shown for a broken rule.
pub open spec fn rule_message(rule: PasswordRule) -> Seq<char> {
    match rule {
        PasswordRule::MissingUppercase => "password must contain at least one uppercase letter"@,
        PasswordRule::MissingLowercase => "password must contain at least one lowercase letter"@,
        PasswordRule::MissingDigit => "password must contain at least one digit"@,
        PasswordRule::MissingSpecial => "must contain at least one special character"@,
        PasswordRule::TooShort => "password must be at least 8 characters long"@,
    }
}

impl PasswordRule {
    pub fn code(&self) -> (r: String)
        ensures
            r@ == rule_code(*self),
    {
        match self {
            PasswordRule::TooShort => String::from_str("password must be at least 8 characters long"),
            _ => String::from_str("password"),
        }
    }

    pub fn message(&self) -> (r: String)
        ensures
            r@ == rule_message(*self),
    {
        match self {
            PasswordRule::MissingUppercase => String::from_str(
                "password must contain at least one uppercase letter",
            ),
            PasswordRule::MissingLowercase => String::from_str(
                "password must contain at least one lowercase letter",
            ),
            PasswordRule::MissingDigit => String::from_str("password must contain at least one digit"),
            PasswordRule::MissingSpecial => String::from_str("must contain at least one special character"),
            PasswordRule::TooShort => String::from_str("password must be at least 8 characters long"),
        }
    }
}

/// What `bcrypt::verify` returns for a password and a stored hash: `None`
/// where it fails (a malformed hash), else whether the password matches.
pub uninterp spec fn bcrypt_verification(password: Seq<char>, hash: Seq<char>) -> Option<bool>;

/// Whether a password is accepted against a stored hash.
pub open spec fn password_matches(password: Seq<char>, hash: Seq<char>) -> bool {
    bcrypt_verification(password, hash) == Some(true)
}

#[verifier::external_type_specification]
#[verifier::external_body]
pub struct ExBcryptError(bcrypt::BcryptError);

/// A character of the alphabet in which bcrypt writes its salt and digest.
pub open spec fn bcrypt_base64_char(c: char) -> bool {
    ||| c == '.'
    ||| c == '/'
    ||| ('A' <= c && c <= 'Z')
    ||| ('a' <= c && c <= 'z')
    ||| ('0' <= c && c <= '9')
}

/// The form of a fresh hash: the prefix `$2b$12$` (version and cost), then the
/// 22 characters of the salt and the 31 of the digest, 60 characters in all.
pub open spec fn bcrypt_hash_form(h: Seq<char>) -> bool {
    &&& h.len() == 60
    &&& h.take(7) == seq!['$', '2', 'b', '$', '1', '2', '$']
    &&& forall|i: int| 7 <= i < 60 ==> #[trigger] bcrypt_base64_char(h[i])
}

/// `bcrypt::verify` on the UTF-8 bytes of `password`. It parses the stored
/// hash, hashes the password again with the salt and cost found there and
/// compares; its outcome depends on the two arguments alone and is named, with
/// every error folded into `None`. The parse splits the stored text at `$`
/// and wants three non-empty parts, so a text without `$` is an error.
#[verifier::external_body]
fn bcrypt_verify(password: &str, hash: &str) -> (r: Option<bool>)
    ensures
        r == bcrypt_verification(password@, hash@),
        !hash@.contains('$') ==> r is None,
{
    bcrypt::verify(password, hash).ok()
}

/// `bcrypt::hash` with `bcrypt::DEFAULT_COST`. The salt comes from the
/// operating system's randomness, so the hash itself is not stated; what the
/// source shows is that `bcrypt::verify` of the same password against a hash it
/// produced recomputes the same digest from the salt and cost in it, and so
/// reports a match. The text is formatted as version `2b`, the cost as two
/// digits, then the 16 salt bytes and 23 digest bytes in bcrypt's base64
/// alphabet without padding. An error comes only from the randomness source.
#[verifier::external_body]
fn bcrypt_hash(password: &str) -> (r: Result<String, bcrypt::BcryptError>)
    ensures
        r matches Ok(h) ==> password_matches(password@, h@),
        r matches Ok(h) ==> bcrypt_hash_form(h@),
{
    bcrypt::hash(password, bcrypt::DEFAULT_COST)
}

/// Failure to draw the random salt of a new password hash.
#[derive(Debug, Clone, Copy, PartialEq, Eq)]
pub struct HashPasswordError;

/// Hashes a password for storage. Whatever hash comes back has bcrypt's form
/// and is one that the same password is later accepted against.
pub fn hash_password(password: String) -> (r: Result<String, HashPasswordError>)
    ensures
        r matches Ok(h) ==> password_matches(password@, h@),
        r matches Ok(h) ==> bcrypt_hash_form(h@),
{
    match bcrypt_hash(password.as_str()) {
        Ok(h) => Ok(h),
        Err(_) => Err(HashPasswordError),
    }
}

/// Whether `password` matches the stored `hashed` value; a malformed stored
/// value never matches.
pub fn verify_password(password: &str, hashed: &str) -> (r: bool)
    ensures
        r == password_matches(password@, hashed@),
        !hashed@.contains('$') ==> !r,
{
    match bcrypt_verify(password, hashed) {
        Some(result) => result,
        None => false,
    }
}

} // verus!
