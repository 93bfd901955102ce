use vstd::prelude::*;

use crate::users::UserWithRole;
use crate::validation::option_view;

verus! {

broadcast use vstd::string::group_string_axioms;

/// How long a token stays valid, in seconds: fifteen minutes.
pub const TOKEN_LIFETIME_SECS: i64 = 900;

/// The latest Unix time, in seconds, that a `chrono::DateTime<Utc>` can hold:
/// the last second of the year 262142.
pub const LATEST_TIMESTAMP: i64 = 8_210_266_876_799;

/// The claims carried by an access token.
#[derive(Debug, Clone)]
pub struct IAuth {
    pub iat: u64,
    pub id: i64,
    pub email: String,
    pub role: String,
    pub exp: u64,
}

/// The claims issued to `user`: issued at `issued_at`, expiring
/// `TOKEN_LIFETIME_SECS` after `expiry_base`; both times as Unix seconds taken
/// to `u64` as a cast does.
pub open spec fn claims_match(c: IAuth, user: UserWithRole, issued_at: i64, expiry_base: i64) -> bool {
    &&& c.iat == issued_at as u64
    &&& c.id == user.id as i64
    &&& c.email@ == user.email@
    &&& c.role@ == user.role_name@
    &&& c.exp == (expiry_base + TOKEN_LIFETIME_SECS) as u64
}

/// `chrono::Utc::now().timestamp()`: the current Unix time in seconds. It
/// depends on the clock, so only the range that a `DateTime<Utc>` can hold is
/// stated. `Utc::now` panics only where the system clock reads a time before
/// 1970 or after the year 262142; that is a state of the machine, not an input,
/// and is left out.
#[verifier::external_body]
fn unix_now() -> (r: i64)
    ensures
        r <= LATEST_TIMESTAMP,
{
    chrono::Utc::now().timestamp()
}

impl IAuth {
    /// The claims for `user`, from two readings of the clock.
    pub fn for_user(user: &UserWithRole, issued_at: i64, expiry_base: i64) -> (r: IAuth)
        requires
            expiry_base <= LATEST_TIMESTAMP,
        ensures
            claims_match(r, *user, issued_at, expiry_base),
    {
        let exp: i64 = expiry_base + TOKEN_LIFETIME_SECS;
        IAuth {
            iat: issued_at as u64,
            id: user.id as i64,
            email: user.email.clone(),
            role: user.role_name.clone(),
            exp: exp as u64,
        }
    }

    /// The claims for `user` issued now: the expiry is read from the clock
    /// first, then the time of issue.
    pub fn issue(user: &UserWithRole) -> (r: IAuth)
        ensures
            exists|issued_at: i64, expiry_base: i64|
                issued_at <= LATEST_TIMESTAMP && expiry_base <= LATEST_TIMESTAMP
                    && claims_match(r, *user, issued_at, expiry_base),
    {
        let expiry_base: i64 = unix_now();
        let issued_at: i64 = unix_now();
        IAuth::for_user(user, issued_at, expiry_base)
    }
}

/// The signature schemes tokens can be made with.
#[derive(Debug, Clone, Copy, PartialEq, Eq)]
pub enum SigningAlgorithm {
    RS256,
}

/// The algorithm the service signs and checks tokens with.
pub const TOKEN_ALGORITHM: SigningAlgorithm = SigningAlgorithm::RS256;

/// The token `jsonwebtoken::encode` makes with an RS256 header from the JSON
/// text of the claims and an RSA private key in PEM, or `None` where it fails.
pub uninterp spec fn rs256_token(claims_json: Seq<char>, private_key_pem: Seq<char>) -> Option<Seq<char>>;

/// `jsonwebtoken::encode` with `Header::new(algorithm)`, the claims given as
/// JSON text (handed to serde verbatim as a `RawValue`) and the key read by
/// `EncodingKey::from_rsa_pem`. RSA PKCS#1 v1.5 signatures do not depend on
/// chance, so the token depends on the two texts alone and is named. A key
/// that does not parse, or claims that are not JSON, give `None`.
#[verifier::external_body]
fn jwt_encode(algorithm: SigningAlgorithm, claims_json: &str, private_key_pem: &str) -> (r: Option<String>)
    ensures
        algorithm == SigningAlgorithm::RS256 ==> option_view(r) == rs256_token(claims_json@, private_key_pem@),
{
    let alg = match algorithm {
        SigningAlgorithm::RS256 => jsonwebtoken::Algorithm::RS256,
    };
    let key = jsonwebtoken::EncodingKey::from_rsa_pem(private_key_pem.as_bytes()).ok()?;
    let claims = serde_json::value::RawValue::from_string(claims_json.to_string()).ok()?;
    jsonwebtoken::encode(&jsonwebtoken::Header::new(alg), &claims, &key).ok()
}

/// The private key could not sign the claims.
#[derive(Debug, Clone, Copy, PartialEq, Eq)]
pub struct TokenSigningError;

/// Signs the claims, given as their JSON text, into an RS256 token. The key
/// must be an RSA private key in PEM that signs these claims: the service
/// cannot run without one.
pub fn generate_token(claims_json: &str, private_key: &str) -> (r: String)
    requires
        rs256_token(claims_json@, private_key@) is Some,
    ensures
        Some(r@) == rs256_token(claims_json@, private_key@),
{
    jwt_encode(TOKEN_ALGORITHM, claims_json, private_key).unwrap()
}

/// Signs the claims where the key can sign them, else reports
/// `TokenSigningError` and signs nothing.
pub fn try_generate_token(claims_json: &str, private_key: &str) -> (r: Result<String, TokenSigningError>)
    ensures
        match rs256_token(claims_json@, private_key@) {
            Some(t) => r matches Ok(s) && s@ == t,
            None => r == Err::<String, TokenSigningError>(TokenSigningError),
        },
{
    match jwt_encode(TOKEN_ALGORITHM, claims_json, private_key) {
        Some(_) => Ok(generate_token(claims_json, private_key)),
        None => Err(TokenSigningError),
    }
}

/// What a token is checked for besides its signature.
pub struct TokenChecks {
    pub algorithm: SigningAlgorithm,
    pub validate_exp: bool,
    pub validate_aud: bool,
    /// The registered claims that must be present.
    pub required_claims: Vec<String>,
}

/// Whether `checks` asks for the `exp` claim and nothing else (`Some(true)`),
/// for no claim (`Some(false)`), or for something else (`None`).
pub open spec fn requires_exp(checks: TokenChecks) -> Option<bool> {
    if checks.required_claims@.len() == 0 {
        Some(false)
    } else if checks.required_claims@.len() == 1 && checks.required_claims@[0]@ == "exp"@ {
        Some(true)
    } else {
        None
    }
}

/// The checks the service applies: RS256 signature, the `exp` claim present and
/// not past, no audience.
pub fn token_checks() -> (r: TokenChecks)
    ensures
        r.algorithm == SigningAlgorithm::RS256,
        r.validate_exp,
        !r.validate_aud,
        requires_exp(r) == Some(true),
{
    let mut required: Vec<String> = Vec::new();
    required.push(String::from_str("exp"));
    TokenChecks { algorithm: TOKEN_ALGORITHM, validate_exp: true, validate_aud: false, required_claims: required }
}

/// The checks made before the claims are read: RS256 signature and well-formed
/// claims, with no claim required and no clock read.
pub fn signature_checks() -> (r: TokenChecks)
    ensures
        r.algorithm == SigningAlgorithm::RS256,
        !r.validate_exp,
        !r.validate_aud,
        requires_exp(r) == Some(false),
{
    TokenChecks { algorithm: TOKEN_ALGORITHM, validate_exp: false, validate_aud: false, required_claims: Vec::new() }
}

/// What `jsonwebtoken::decode` gives for `token` with the key read by
/// `DecodingKey::from_rsa_pem` and a `Validation::new(Algorithm::RS256)` whose
/// expiry and audience checks are off and whose required claims are `exp`
/// where `require_exp` holds, else none: the claims as JSON text where the
/// header, the signature, the claims and the required claims pass, else the
/// error's description. With those checks off it reads no clock, so it depends
/// on its arguments alone.
pub uninterp spec fn rs256_decoding(token: Seq<char>, public_key_pem: Seq<char>, require_exp: bool) -> Result<Seq<char>, Seq<char>>;

/// A decoding outcome with its texts taken by their views.
pub open spec fn decoding_view(r: Result<String, String>) -> Result<Seq<char>, Seq<char>> {
    match r {
        Ok(c) => Ok(c@),
        Err(e) => Err(e@),
    }
}

/// What decoding with the expiry check on gives, where `unchecked` is what it
/// gives with that check off: the same, except that a token which passes
/// everything else may be refused as expired.
pub open spec fn expiry_checked(outcome: Result<Seq<char>, Seq<char>>, unchecked: Result<Seq<char>, Seq<char>>) -> bool {
    ||| outcome == unchecked
    ||| (unchecked is Ok && outcome == Err::<Seq<char>, Seq<char>>("ExpiredSignature"@))
}

/// `jsonwebtoken::decode` of `token` with the key read by
/// `DecodingKey::from_rsa_pem` and a `Validation::new(algorithm)` whose expiry
/// and audience checks and required claims are set as given; on success the
/// claims come back as their JSON text, on failure the error's description.
/// With the expiry check off (and no audience check) the outcome is
/// `rs256_decoding`. With it on, `decode` runs the same steps and then, last,
/// compares `exp` with the system clock: the outcome is `rs256_decoding`, or,
/// where that succeeded, the error `ExpiredSignature`; which of the two is not
/// stated, since it rests on the clock.
#[verifier::external_body]
fn jwt_decode(token: &str, public_key_pem: &str, checks: &TokenChecks) -> (r: Result<String, String>)
    ensures
        checks.algorithm == SigningAlgorithm::RS256 && !checks.validate_aud && !checks.validate_exp
            && requires_exp(*checks) is Some
            ==> decoding_view(r) == rs256_decoding(token@, public_key_pem@, requires_exp(*checks)->0),
        checks.algorithm == SigningAlgorithm::RS256 && !checks.validate_aud && checks.validate_exp
            && requires_exp(*checks) is Some
            ==> expiry_checked(decoding_view(r), rs256_decoding(token@, public_key_pem@, requires_exp(*checks)->0)),
{
    let alg = match checks.algorithm {
        SigningAlgorithm::RS256 => jsonwebtoken::Algorithm::RS256,
    };
    let key = jsonwebtoken::DecodingKey::from_rsa_pem(public_key_pem.as_bytes()).map_err(|e| e.to_string())?;
    let mut validation = jsonwebtoken::Validation::new(alg);
    validation.validate_exp = checks.validate_exp;
    validation.validate_aud = checks.validate_aud;
    validation.set_required_spec_claims(&checks.required_claims);
    jsonwebtoken::decode::<Box<serde_json::value::RawValue>>(token, &key, &validation)
        .map(|data| data.claims.get().to_string()).map_err(|e| e.to_string())
}

/// How far past its `exp` claim a token is still accepted, in seconds: the
/// default leeway of `jsonwebtoken::Validation`.
pub const EXPIRY_LEEWAY_SECS: u64 = 60;

/// The checks made before the expiry: RS256 signature, well-formed claims with
/// an `exp` claim, no clock read.
fn exp_present_checks() -> (r: TokenChecks)
    ensures
        r.algorithm == SigningAlgorithm::RS256,
        !r.validate_exp,
        !r.validate_aud,
        requires_exp(r) == Some(true),
{
    let mut required: Vec<String> = Vec::new();
    required.push(String::from_str("exp"));
    TokenChecks { algorithm: TOKEN_ALGORITHM, validate_exp: false, validate_aud: false, required_claims: required }
}

/// An ASCII decimal digit.
pub open spec fn ascii_digit(c: char) -> bool {
    '0' <= c && c <= '9'
}

/// The value of a run of decimal digits.
pub open spec fn digits_value(s: Seq<char>) -> nat
    decreases s.len(),
{
    if s.len() == 0 {
        0
    } else {
        digits_value(s.drop_last()) * 10 + ((s.last() as nat) - ('0' as nat)) as nat
    }
}

/// Where the run of digits that ends at `end` (exclusive) begins.
pub open spec fn digit_run_start(c: Seq<char>, end: int) -> int
    decreases end,
{
    if end <= 0 {
        0
    } else if ascii_digit(c[end - 1]) {
        digit_run_start(c, end - 1)
    } else {
        end
    }
}

proof fn lemma_digit_run(c: Seq<char>, end: int)
    requires
        0 <= end <= c.len(),
    ensures
        0 <= digit_run_start(c, end) <= end,
        forall|j: int| digit_run_start(c, end) <= j < end ==> ascii_digit(#[trigger] c[j]),
        digit_run_start(c, end) > 0 ==> !ascii_digit(c[digit_run_start(c, end) - 1]),
    decreases end,
{
    if end > 0 && ascii_digit(c[end - 1]) {
        lemma_digit_run(c, end - 1);
    }
}

/// The member `"exp":` as it is written in claims.
pub open spec fn exp_key() -> Seq<char> {
    seq!['"', 'e', 'x', 'p', '"', ':']
}

/// The `exp` claim of claims whose text ends with it as the last member of
/// the object, written as digits (`...,"exp":1700000900}`, or the object
/// `{"exp":...}` alone), where it fits in a `u64`; `None` for claims written
/// otherwise.
pub open spec fn trailing_exp(c: Seq<char>) -> Option<u64> {
    let n: int = c.len() as int;
    if n < 1 || c[n - 1] != '}' {
        None
    } else {
        let k: int = digit_run_start(c, n - 1);
        if k == n - 1 || k < 7 {
            None
        } else if c.subrange(k - 6, k) == exp_key() && (c[k - 7] == ',' || c[k - 7] == '{')
            && digits_value(c.subrange(k, n - 1)) <= u64::MAX {
            Some(digits_value(c.subrange(k, n - 1)) as u64)
        } else {
            None
        }
    }
}

/// What checking the expiry at the clock reading `now` makes of `unchecked`,
/// the outcome of decoding with every check but the expiry: a refusal stays;
/// claims whose `exp` claim is read are refused as `ExpiredSignature` where
/// `exp` is more than the leeway before `now`, and given back otherwise;
/// claims written so that `exp` is not read here are judged by `jsonwebtoken`
/// against its own clock.
pub open spec fn expiry_decided(outcome: Result<Seq<char>, Seq<char>>, unchecked: Result<Seq<char>, Seq<char>>, now: u64) -> bool {
    match unchecked {
        Err(_) => outcome == unchecked,
        Ok(c) => match trailing_exp(c) {
            Some(x) => outcome == (if x + EXPIRY_LEEWAY_SECS < now {
                Err::<Seq<char>, Seq<char>>("ExpiredSignature"@)
            } else {
                unchecked
            }),
            None => expiry_checked(outcome, unchecked),
        },
    }
}

/// The `exp` claim of claims written with it last, as `trailing_exp` reads it.
fn read_trailing_exp(claims: &str) -> (r: Option<u64>)
    ensures
        r == trailing_exp(claims@),
{
    let mut cs: Vec<char> = Vec::new();
    for ch in it: claims.chars()
        invariant
            it.seq() == claims@,
            cs@ == claims@.take(it.index() as int),
    {
        cs.push(ch);
    }
    proof {
        assert(cs@ =~= claims@);
    }
    let n: usize = cs.len();
    if n < 1 || cs[n - 1] != '}' {
        return None;
    }
    let mut k: usize = n - 1;
    while k > 0 && '0' <= cs[k - 1] && cs[k - 1] <= '9'
        invariant
            cs@ == claims@,
            n == cs@.len(),
            k <= n - 1,
            digit_run_start(cs@, n - 1) == digit_run_start(cs@, k as int),
        decreases k,
    {
        k = k - 1;
    }
    assert(digit_run_start(cs@, k as int) == k as int);
    if k == n - 1 || k < 7 {
        return None;
    }
    if !(cs[k - 6] == '"' && cs[k - 5] == 'e' && cs[k - 4] == 'x' && cs[k - 3] == 'p' && cs[k - 2] == '"'
        && cs[k - 1] == ':' && (cs[k - 7] == ',' || cs[k - 7] == '{')) {
        proof {
            if cs@.subrange(k - 6, k as int) == exp_key() {
                assert(cs@.subrange(k - 6, k as int)[0] == cs@[k - 6]);
                assert(cs@.subrange(k - 6, k as int)[1] == cs@[k - 5]);
                assert(cs@.subrange(k - 6, k as int)[2] == cs@[k - 4]);
                assert(cs@.subrange(k - 6, k as int)[3] == cs@[k - 3]);
                assert(cs@.subrange(k - 6, k as int)[4] == cs@[k - 2]);
                assert(cs@.subrange(k - 6, k as int)[5] == cs@[k - 1]);
            }
        }
        return None;
    }
    assert(cs@.subrange(k - 6, k as int) =~= exp_key());
    proof {
        lemma_digit_run(cs@, n - 1);
    }
    let mut value: u64 = 0;
    let mut overflow: bool = false;
    let mut i: usize = k;
    while i < n - 1
        invariant
            cs@ == claims@,
            n == cs@.len(),
            k <= i <= n - 1,
            digit_run_start(cs@, n - 1) == k as int,
            forall|j: int| k <= j < n - 1 ==> ascii_digit(#[trigger] cs@[j]),
            !overflow ==> value == digits_value(cs@.subrange(k as int, i as int)),
            overflow ==> digits_value(cs@.subrange(k as int, i as int)) > u64::MAX,
        decreases n - 1 - i,
    {
        let d: u64 = (cs[i] as u32 - '0' as u32) as u64;
        proof {
            assert(cs@.subrange(k as int, i + 1).drop_last() =~= cs@.subrange(k as int, i as int));
            assert(ascii_digit(cs@[i as int]));
        }
        if !overflow {
            if value > (u64::MAX - d) / 10 {
                overflow = true;
            } else {
                value = value * 10 + d;
            }
        }
        i = i + 1;
    }
    if overflow {
        None
    } else {
        Some(value)
    }
}

/// Decodes a token as `decode_token` does, with the expiry judged against the
/// clock reading `now`, in Unix seconds: a token whose `exp` claim is more than
/// `EXPIRY_LEEWAY_SECS` before `now` is refused as `ExpiredSignature`.
pub fn decode_token_at(token: &str, public_key: &str, now: u64) -> (r: Result<String, String>)
    ensures
        expiry_decided(decoding_view(r), rs256_decoding(token@, public_key@, true), now),
{
    let checks = exp_present_checks();
    match jwt_decode(token, public_key, &checks) {
        Err(e) => Err(e),
        Ok(claims) => match read_trailing_exp(claims.as_str()) {
            Some(x) => {
                if now > EXPIRY_LEEWAY_SECS && x < now - EXPIRY_LEEWAY_SECS {
                    Err(String::from_str("ExpiredSignature"))
                } else {
                    Ok(claims)
                }
            },
            None => {
                let full = token_checks();
                jwt_decode(token, public_key, &full)
            },
        },
    }
}

/// Checks a token's RS256 signature, claims and expiry against the public key
/// and gives back its claims as JSON text, or the reason it was refused: what
/// `rs256_decoding` gives with `exp` required, except that a token which passes
/// everything else is refused as `ExpiredSignature` where its `exp` claim is
/// more than the leeway before the clock, read once, as `decode_token_at`
/// states.
pub fn decode_token(token: &str, public_key: &str) -> (r: Result<String, String>)
    ensures
        expiry_checked(decoding_view(r), rs256_decoding(token@, public_key@, true)),
        exists|now: u64| expiry_decided(decoding_view(r), rs256_decoding(token@, public_key@, true), now),
{
    let t: i64 = unix_now();
    let now: u64 = if t < 0 { 0 } else { t as u64 };
    let r = decode_token_at(token, public_key, now);
    assert(expiry_decided(decoding_view(r), rs256_decoding(token@, public_key@, true), now));
    r
}

/// Checks a token's RS256 signature and the form of its claims against the
/// public key, requiring no claim and reading no clock, and gives back its
/// claims as JSON text, or the reason it was refused. This is the part of
/// `decode_token` that comes before the claims are read into `IAuth`.
pub fn decode_token_claims(token: &str, public_key: &str) -> (r: Result<String, String>)
    ensures
        decoding_view(r) == rs256_decoding(token@, public_key@, false),
{
    let checks = signature_checks();
    jwt_decode(token, public_key, &checks)
}

} // verus!
