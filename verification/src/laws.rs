use vstd::prelude::*;

use crate::auth::{second_piece, space_from, NewUser};
use crate::config::PASSWORD_MIN_LENGTH;
use crate::enums::{role_text, RoleEnum};
use crate::jwt::{
    ascii_digit, claims_match, digit_run_start, digits_value, exp_key, expiry_decided, trailing_exp, IAuth,
    LATEST_TIMESTAMP, TOKEN_LIFETIME_SECS,
};
use crate::log::{decimal, digit_char};
use crate::password::{
    byte_len, has_digit, has_lowercase, has_special, has_uppercase, is_decimal_digit, is_special_char,
    password_matches, password_violation, PasswordRule,
};
use crate::response::{is_status_code, INTERNAL_SERVER_ERROR};
use crate::seed::{
    admin_permission_prefix, first_permission_id, first_role_id, role_permission_grants, user_grants,
    PermissionRecord, RoleRecord,
};
use crate::system_config::{config_outcome, ConfigError, RedisLookup};
use crate::users::UserWithRole;
use crate::validation::{registration_errors, valid_email, RegistrationDto, SignInDto};

verus! {

/// A password is accepted exactly when it has an uppercase letter, a
/// lowercase letter, a digit and a special character, and at least
/// `PASSWORD_MIN_LENGTH` bytes.
pub proof fn law_password_policy(p: Seq<char>)
    ensures
        password_violation(p) is None <==> {
            &&& has_uppercase(p)
            &&& has_lowercase(p)
            &&& has_digit(p)
            &&& has_special(p)
            &&& byte_len(p) >= PASSWORD_MIN_LENGTH
        },
{
}

/// A registration body is accepted exactly when its name has at least two
/// characters, its e-mail is an e-mail address and its password meets the
/// policy.
pub proof fn law_registration_accepted(name: Seq<char>, email: Seq<char>, password: Seq<char>)
    ensures
        registration_errors(name, email, password).len() == 0 <==> {
            &&& name.len() >= 2
            &&& valid_email(email)
            &&& password_violation(password) is None
        },
{
}

/// A user who registered with a password is let in when signing in with the
/// same password: the hash stored at registration accepts it.
pub proof fn law_registered_password_signs_in(
    registration: RegistrationDto,
    stored: NewUser,
    sign_in: SignInDto,
    row: UserWithRole,
)
    requires
        password_matches(registration.password@, stored.password_hash@),
        row.password@ == stored.password_hash@,
        sign_in.password@ == registration.password@,
    ensures
        password_matches(sign_in.password@, row.password@),
{
}

proof fn lemma_space_scan(s: Seq<char>, k: int, m: int)
    requires
        0 <= k <= m <= s.len(),
        forall|j: int| k <= j < m ==> s[j] != ' ',
        m == s.len() || s[m] == ' ',
    ensures
        space_from(s, k) == m,
    decreases m - k,
{
    if k < m {
        lemma_space_scan(s, k + 1, m);
    }
}

/// The token of `<scheme> <token>` is `<token>` where neither part holds a
/// space: what a client puts after the scheme is what the guard reads.
pub proof fn law_bearer_token_round_trip(scheme: Seq<char>, token: Seq<char>)
    requires
        !scheme.contains(' '),
        !token.contains(' '),
    ensures
        second_piece(scheme + seq![' '] + token) == Some(token),
{
    let s = scheme + seq![' '] + token;
    let m: int = scheme.len() as int;
    assert forall|j: int| 0 <= j < m implies s[j] != ' ' by {
        assert(s[j] == scheme[j]);
    }
    lemma_space_scan(s, 0, m);
    assert forall|j: int| m + 1 <= j < s.len() implies s[j] != ' ' by {
        assert(s[j] == token[j - m - 1]);
    }
    lemma_space_scan(s, m + 1, s.len() as int);
    assert(s.subrange(m + 1, s.len() as int) =~= token);
}

/// A token issued at one reading of the clock expires fifteen minutes after
/// it was issued.
pub proof fn law_token_lifetime(c: IAuth, user: UserWithRole, t: i64)
    requires
        0 <= t <= LATEST_TIMESTAMP,
        claims_match(c, user, t, t),
    ensures
        c.exp == c.iat + TOKEN_LIFETIME_SECS,
{
}

/// A system setting that is handed out is never empty.
pub proof fn law_config_value_nonempty(lookup: RedisLookup)
    ensures
        config_outcome(lookup) matches Ok(v) ==> v.len() > 0,
{
}

/// Every response goes out with a status code that `http` accepts.
pub proof fn law_response_status_valid(code: u16)
    ensures
        is_status_code(if is_status_code(code) { code } else { INTERNAL_SERVER_ERROR }),
{
}

proof fn lemma_first_permission_prefix(perms: Seq<PermissionRecord>, prefix: Seq<char>)
    ensures
        first_permission_id(perms, prefix) matches Some(id) ==> exists|j: int|
            0 <= j < perms.len() && (#[trigger] perms[j]).id == id && perms[j].prefix@ == prefix,
    decreases perms.len(),
{
    if perms.len() > 0 && perms[0].prefix@ != prefix {
        lemma_first_permission_prefix(perms.drop_first(), prefix);
        if first_permission_id(perms, prefix) is Some {
            let j: int = choose|j: int|
                0 <= j < perms.drop_first().len() && (#[trigger] perms.drop_first()[j]).id
                    == first_permission_id(perms, prefix)->0 && perms.drop_first()[j].prefix@ == prefix;
            assert(perms[j + 1] == perms.drop_first()[j]);
        }
    }
}

proof fn lemma_user_grants(perms: Seq<PermissionRecord>, user: i32)
    ensures
        forall|k: int|
            0 <= k < user_grants(perms, user).len() ==> (#[trigger] user_grants(perms, user)[k]).0 == user
                && exists|j: int|
                0 <= j < perms.len() && (#[trigger] perms[j]).id == user_grants(perms, user)[k].1
                    && perms[j].prefix@ != admin_permission_prefix(),
    decreases perms.len(),
{
    if perms.len() > 0 {
        let init = perms.drop_last();
        lemma_user_grants(init, user);
        let g = user_grants(perms, user);
        let gi = user_grants(init, user);
        assert forall|k: int| 0 <= k < g.len() implies (#[trigger] g[k]).0 == user && exists|j: int|
            0 <= j < perms.len() && (#[trigger] perms[j]).id == g[k].1 && perms[j].prefix@
                != admin_permission_prefix() by {
            if k < gi.len() {
                assert(g[k] == gi[k]);
                let j: int = choose|j: int|
                    0 <= j < init.len() && (#[trigger] init[j]).id == gi[k].1 && init[j].prefix@
                        != admin_permission_prefix();
                assert(perms[j] == init[j]);
            } else {
                assert(g[k] == (user, perms.last().id));
                assert(perms[perms.len() - 1] == perms.last());
            }
        }
    }
}

/// Of the grants made with the schema, the first gives the administrator role
/// the statistics permission, and every other one gives the user role a
/// permission whose prefix is not the statistics one.
pub proof fn law_role_permission_grants(roles: Seq<RoleRecord>, perms: Seq<PermissionRecord>)
    ensures
        role_permission_grants(roles, perms) matches Some(g) ==> {
            &&& g.len() >= 1
            &&& first_role_id(roles, role_text(RoleEnum::Admin)) == Some(g[0].0)
            &&& exists|j: int|
                0 <= j < perms.len() && (#[trigger] perms[j]).id == g[0].1 && perms[j].prefix@
                    == admin_permission_prefix()
            &&& forall|k: int|
                1 <= k < g.len() ==> first_role_id(roles, role_text(RoleEnum::User)) == Some(
                    (#[trigger] g[k]).0,
                ) && exists|j: int|
                    0 <= j < perms.len() && (#[trigger] perms[j]).id == g[k].1 && perms[j].prefix@
                        != admin_permission_prefix()
        },
{
    lemma_first_permission_prefix(perms, admin_permission_prefix());
    if let Some(g) = role_permission_grants(roles, perms) {
        let user: i32 = first_role_id(roles, role_text(RoleEnum::User))->0;
        let admin: i32 = first_role_id(roles, role_text(RoleEnum::Admin))->0;
        let stat: i32 = first_permission_id(perms, admin_permission_prefix())->0;
        let ug = user_grants(perms, user);
        lemma_user_grants(perms, user);
        assert(g == seq![(admin, stat)] + ug);
        assert forall|k: int| 1 <= k < g.len() implies first_role_id(roles, role_text(RoleEnum::User)) == Some(
            (#[trigger] g[k]).0,
        ) && exists|j: int|
            0 <= j < perms.len() && (#[trigger] perms[j]).id == g[k].1 && perms[j].prefix@
                != admin_permission_prefix() by {
            assert(g[k] == ug[k - 1]);
        }
    }
}


/// The special characters of the password policy, as the policy writes them.
pub open spec fn policy_specials() -> Seq<char> {
    "!@#$%^&*()_+-=[]{}|;:'\",.<>/?"@
}

proof fn lemma_policy_special(c: char)
    ensures
        is_special_char(c) <==> policy_specials().contains(c),
{
    reveal_strlit("!@#$%^&*()_+-=[]{}|;:'\",.<>/?");
    let s = policy_specials();
    assert(s.len() == 29);
    if is_special_char(c) {
        if c == '!' {
            assert(s[0] == c);
        } else if c == '@' {
            assert(s[1] == c);
        } else if c == '#' {
            assert(s[2] == c);
        } else if c == '$' {
            assert(s[3] == c);
        } else if c == '%' {
            assert(s[4] == c);
        } else if c == '^' {
            assert(s[5] == c);
        } else if c == '&' {
            assert(s[6] == c);
        } else if c == '*' {
            assert(s[7] == c);
        } else if c == '(' {
            assert(s[8] == c);
        } else if c == ')' {
            assert(s[9] == c);
        } else if c == '_' {
            assert(s[10] == c);
        } else if c == '+' {
            assert(s[11] == c);
        } else if c == '-' {
            assert(s[12] == c);
        } else if c == '=' {
            assert(s[13] == c);
        } else if c == '[' {
            assert(s[14] == c);
        } else if c == ']' {
            assert(s[15] == c);
        } else if c == '{' {
            assert(s[16] == c);
        } else if c == '}' {
            assert(s[17] == c);
        } else if c == '|' {
            assert(s[18] == c);
        } else if c == ';' {
            assert(s[19] == c);
        } else if c == ':' {
            assert(s[20] == c);
        } else if c == '\'' {
            assert(s[21] == c);
        } else if c == '"' {
            assert(s[22] == c);
        } else if c == ',' {
            assert(s[23] == c);
        } else if c == '.' {
            assert(s[24] == c);
        } else if c == '<' {
            assert(s[25] == c);
        } else if c == '>' {
            assert(s[26] == c);
        } else if c == '/' {
            assert(s[27] == c);
        } else if c == '?' {
            assert(s[28] == c);
        }
    }
    if s.contains(c) {
        let j: int = choose|j: int| 0 <= j < s.len() && s[j] == c;
        assert(is_special_char(s[j])) by {
            if j == 0 {
            } else if j == 1 {
            } else if j == 2 {
            } else if j == 3 {
            } else if j == 4 {
            } else if j == 5 {
            } else if j == 6 {
            } else if j == 7 {
            } else if j == 8 {
            } else if j == 9 {
            } else if j == 10 {
            } else if j == 11 {
            } else if j == 12 {
            } else if j == 13 {
            } else if j == 14 {
            } else if j == 15 {
            } else if j == 16 {
            } else if j == 17 {
            } else if j == 18 {
            } else if j == 19 {
            } else if j == 20 {
            } else if j == 21 {
            } else if j == 22 {
            } else if j == 23 {
            } else if j == 24 {
            } else if j == 25 {
            } else if j == 26 {
            } else if j == 27 {
            } else if j == 28 {
            }
        }
    }
}

/// The password policy on the characters of a password, stated by their
/// sets: a digit is one of `0` to `9`, a special character one of
/// `!@#$%^&*()_+-=[]{}|;:'",.<>/?`, and at least 8 bytes are needed. A password
/// with an uppercase and a lowercase letter but no digit is refused as
/// `MissingDigit`; one that has a digit too but none of the special characters
/// (spaces do not count) is refused as `MissingSpecial`; one with all four and
/// 8 bytes is accepted.
pub proof fn law_password_character_sets(p: Seq<char>)
    ensures
        password_violation(p) is None <==> {
            &&& has_uppercase(p)
            &&& has_lowercase(p)
            &&& exists|i: int| 0 <= i < p.len() && '0' <= #[trigger] p[i] && p[i] <= '9'
            &&& exists|i: int| 0 <= i < p.len() && policy_specials().contains(#[trigger] p[i])
            &&& byte_len(p) >= 8
        },
        password_violation(p) == Some(PasswordRule::MissingDigit) <==> {
            &&& has_uppercase(p)
            &&& has_lowercase(p)
            &&& forall|i: int| 0 <= i < p.len() ==> !('0' <= #[trigger] p[i] && p[i] <= '9')
        },
        password_violation(p) == Some(PasswordRule::MissingSpecial) <==> {
            &&& has_uppercase(p)
            &&& has_lowercase(p)
            &&& exists|i: int| 0 <= i < p.len() && '0' <= #[trigger] p[i] && p[i] <= '9'
            &&& forall|i: int| 0 <= i < p.len() ==> !policy_specials().contains(#[trigger] p[i])
        },
{
    assert(PASSWORD_MIN_LENGTH == 8);
    assert(has_digit(p) <==> exists|i: int| 0 <= i < p.len() && '0' <= #[trigger] p[i] && p[i] <= '9') by {
        if has_digit(p) {
            let i: int = choose|i: int| 0 <= i < p.len() && #[trigger] is_decimal_digit(p[i]);
            assert('0' <= p[i] && p[i] <= '9');
        }
        if exists|i: int| 0 <= i < p.len() && '0' <= #[trigger] p[i] && p[i] <= '9' {
            let i: int = choose|i: int| 0 <= i < p.len() && '0' <= #[trigger] p[i] && p[i] <= '9';
            assert(is_decimal_digit(p[i]));
        }
    }
    assert(has_special(p) <==> exists|i: int| 0 <= i < p.len() && policy_specials().contains(#[trigger] p[i])) by {
        if has_special(p) {
            let i: int = choose|i: int| 0 <= i < p.len() && #[trigger] is_special_char(p[i]);
            lemma_policy_special(p[i]);
        }
        if exists|i: int| 0 <= i < p.len() && policy_specials().contains(#[trigger] p[i]) {
            let i: int = choose|i: int| 0 <= i < p.len() && policy_specials().contains(#[trigger] p[i]);
            lemma_policy_special(p[i]);
        }
    }
}

/// A stored setting that is not empty is handed out exactly as it is stored;
/// an empty one is refused as `Empty`, a missing one as `NotFound`, and a
/// store that cannot be asked as `Unavailable`.
pub proof fn law_config_value_exact(lookup: RedisLookup)
    ensures
        match lookup {
            Ok(Some(s)) => if s@.len() > 0 {
                config_outcome(lookup) == Ok::<Seq<char>, ConfigError>(s@)
            } else {
                config_outcome(lookup) == Err::<Seq<char>, ConfigError>(ConfigError::Empty)
            },
            Ok(None) => config_outcome(lookup) == Err::<Seq<char>, ConfigError>(ConfigError::NotFound),
            Err(_) => config_outcome(lookup) == Err::<Seq<char>, ConfigError>(ConfigError::Unavailable),
        },
{
}

proof fn lemma_decimal_digits(n: nat)
    ensures
        decimal(n).len() >= 1,
        forall|j: int| 0 <= j < decimal(n).len() ==> ascii_digit(#[trigger] decimal(n)[j]),
        digits_value(decimal(n)) == n,
    decreases n,
{
    if n >= 10 {
        lemma_decimal_digits(n / 10);
        let d = decimal(n);
        assert(d.drop_last() =~= decimal(n / 10));
        assert(d.last() == digit_char(n % 10));
        assert((digit_char(n % 10) as nat) == ('0' as nat) + n % 10);
        assert(n == (n / 10) * 10 + n % 10);
        assert(digits_value(d) == digits_value(decimal(n / 10)) * 10 + n % 10);
        assert(digits_value(d) == n);
    } else {
        let d = decimal(n);
        assert((digit_char(n) as nat) == ('0' as nat) + n);
        assert(d.drop_last() =~= Seq::<char>::empty());
        assert(digits_value(d.drop_last()) == 0);
        assert(digits_value(d) == n);
    }
}

proof fn lemma_digit_run_at(c: Seq<char>, end: int, m: int)
    requires
        0 <= m <= end <= c.len(),
        forall|j: int| m <= j < end ==> ascii_digit(#[trigger] c[j]),
        m > 0 ==> !ascii_digit(c[m - 1]),
    ensures
        digit_run_start(c, end) == m,
    decreases end,
{
    if end > m {
        lemma_digit_run_at(c, end - 1, m);
    }
}

/// A token whose claims end with its `exp` claim, `...,"exp":<exp>}`, is
/// refused as `ExpiredSignature` by a check at clock reading `now` exactly when
/// `exp` is more than 60 seconds before `now`; otherwise its claims are given
/// back unchanged.
pub proof fn law_token_expiry(before: Seq<char>, exp: u64, now: u64, outcome: Result<Seq<char>, Seq<char>>)
    requires
        before.len() > 0,
        before.last() == ',' || before.last() == '{',
        expiry_decided(
            outcome,
            Ok(before + seq!['"', 'e', 'x', 'p', '"', ':'] + decimal(exp as nat) + seq!['}']),
            now,
        ),
    ensures
        outcome == (if exp + 60 < now {
            Err::<Seq<char>, Seq<char>>("ExpiredSignature"@)
        } else {
            Ok::<Seq<char>, Seq<char>>(before + seq!['"', 'e', 'x', 'p', '"', ':'] + decimal(exp as nat) + seq!['}'])
        }),
{
    let key = seq!['"', 'e', 'x', 'p', '"', ':'];
    let digits = decimal(exp as nat);
    let c = before + key + digits + seq!['}'];
    let n: int = c.len() as int;
    let k: int = before.len() as int + 6;
    lemma_decimal_digits(exp as nat);
    assert forall|j: int| k <= j < n - 1 implies ascii_digit(#[trigger] c[j]) by {
        assert(c[j] == digits[j - k]);
    }
    assert(c[k - 1] == ':');
    lemma_digit_run_at(c, n - 1, k);
    assert(c[n - 1] == '}');
    assert(c.subrange(k - 6, k) =~= exp_key());
    assert(c[k - 7] == before.last());
    assert(c.subrange(k, n - 1) =~= digits);
    assert(trailing_exp(c) == Some(exp));
}

/// `id` is the key of the first role named `name`.
pub open spec fn first_named(roles: Seq<RoleRecord>, name: Seq<char>, id: i32) -> bool {
    exists|i: int|
        0 <= i < roles.len() && (#[trigger] roles[i]).name@ == name && roles[i].id == id && forall|j: int|
            0 <= j < i ==> (#[trigger] roles[j]).name@ != name
}

/// `id` is the key of the first permission with the prefix `prefix`.
pub open spec fn first_prefixed(perms: Seq<PermissionRecord>, prefix: Seq<char>, id: i32) -> bool {
    exists|i: int|
        0 <= i < perms.len() && (#[trigger] perms[i]).prefix@ == prefix && perms[i].id == id && forall|j: int|
            0 <= j < i ==> (#[trigger] perms[j]).prefix@ != prefix
}

proof fn lemma_first_named(roles: Seq<RoleRecord>, name: Seq<char>)
    ensures
        first_role_id(roles, name) matches Some(id) ==> first_named(roles, name, id),
        forall|id: i32| #[trigger] first_named(roles, name, id) ==> first_role_id(roles, name) == Some(id),
        first_role_id(roles, name) is None <==> forall|i: int| 0 <= i < roles.len() ==> (#[trigger] roles[i]).name@ != name,
    decreases roles.len(),
{
    if roles.len() > 0 {
        let tail = roles.drop_first();
        if roles[0].name@ == name {
            assert(first_named(roles, name, roles[0].id));
            assert forall|id: i32| #[trigger] first_named(roles, name, id) implies first_role_id(roles, name) == Some(id) by {
                let i: int = choose|i: int|
                    0 <= i < roles.len() && (#[trigger] roles[i]).name@ == name && roles[i].id == id && forall|j: int|
                        0 <= j < i ==> (#[trigger] roles[j]).name@ != name;
                if i > 0 {
                    assert(roles[0].name@ != name);
                }
            }
        } else {
            lemma_first_named(tail, name);
            if let Some(id) = first_role_id(roles, name) {
                let i: int = choose|i: int|
                    0 <= i < tail.len() && (#[trigger] tail[i]).name@ == name && tail[i].id == id && forall|j: int|
                        0 <= j < i ==> (#[trigger] tail[j]).name@ != name;
                assert(roles[i + 1] == tail[i]);
                assert forall|j: int| 0 <= j < i + 1 implies (#[trigger] roles[j]).name@ != name by {
                    if j > 0 {
                        assert(roles[j] == tail[j - 1]);
                    }
                }
                assert(first_named(roles, name, id));
            }
            assert forall|id: i32| #[trigger] first_named(roles, name, id) implies first_role_id(roles, name) == Some(id) by {
                let i: int = choose|i: int|
                    0 <= i < roles.len() && (#[trigger] roles[i]).name@ == name && roles[i].id == id && forall|j: int|
                        0 <= j < i ==> (#[trigger] roles[j]).name@ != name;
                assert(i > 0);
                assert(tail[i - 1] == roles[i]);
                assert forall|j: int| 0 <= j < i - 1 implies (#[trigger] tail[j]).name@ != name by {
                    assert(tail[j] == roles[j + 1]);
                }
                assert(first_named(tail, name, id));
            }
            if first_role_id(roles, name) is None {
                assert forall|i: int| 0 <= i < roles.len() implies (#[trigger] roles[i]).name@ != name by {
                    if i > 0 {
                        assert(roles[i] == tail[i - 1]);
                    }
                }
            } else {
                let id = first_role_id(roles, name)->0;
                let i: int = choose|i: int|
                    0 <= i < roles.len() && (#[trigger] roles[i]).name@ == name && roles[i].id == id && forall|j: int|
                        0 <= j < i ==> (#[trigger] roles[j]).name@ != name;
                assert(roles[i].name@ == name);
            }
        }
    }
}

proof fn lemma_first_prefixed(perms: Seq<PermissionRecord>, prefix: Seq<char>)
    ensures
        first_permission_id(perms, prefix) matches Some(id) ==> first_prefixed(perms, prefix, id),
        first_permission_id(perms, prefix) is None <==> forall|i: int|
            0 <= i < perms.len() ==> (#[trigger] perms[i]).prefix@ != prefix,
    decreases perms.len(),
{
    if perms.len() > 0 {
        let tail = perms.drop_first();
        if perms[0].prefix@ == prefix {
            assert(first_prefixed(perms, prefix, perms[0].id));
        } else {
            lemma_first_prefixed(tail, prefix);
            if let Some(id) = first_permission_id(perms, prefix) {
                let i: int = choose|i: int|
                    0 <= i < tail.len() && (#[trigger] tail[i]).prefix@ == prefix && tail[i].id == id && forall|j: int|
                        0 <= j < i ==> (#[trigger] tail[j]).prefix@ != prefix;
                assert(perms[i + 1] == tail[i]);
                assert forall|j: int| 0 <= j < i + 1 implies (#[trigger] perms[j]).prefix@ != prefix by {
                    if j > 0 {
                        assert(perms[j] == tail[j - 1]);
                    }
                }
                assert(first_prefixed(perms, prefix, id));
                assert(perms[i + 1].prefix@ == prefix);
            } else {
                assert forall|i: int| 0 <= i < perms.len() implies (#[trigger] perms[i]).prefix@ != prefix by {
                    if i > 0 {
                        assert(perms[i] == tail[i - 1]);
                    }
                }
            }
        }
    }
}

/// The permissions other than the statistics one.
pub open spec fn not_statistics(p: PermissionRecord) -> bool {
    p.prefix@ != "read_statistic"@
}

proof fn lemma_user_grants_filter(perms: Seq<PermissionRecord>, user: i32)
    ensures
        user_grants(perms, user) == perms.filter(|p: PermissionRecord| not_statistics(p)).map_values(
            |p: PermissionRecord| (user, p.id),
        ),
    decreases perms.len(),
{
    reveal(Seq::filter);
    let pred = |p: PermissionRecord| not_statistics(p);
    let f = |p: PermissionRecord| (user, p.id);
    if perms.len() == 0 {
        assert(perms.filter(pred).map_values(f) =~= Seq::<(i32, i32)>::empty());
    } else {
        lemma_user_grants_filter(perms.drop_last(), user);
        let sub = perms.drop_last().filter(pred);
        if pred(perms.last()) {
            assert(perms.filter(pred) == sub.push(perms.last()));
            assert(sub.push(perms.last()).map_values(f) =~= sub.map_values(f) + seq![(user, perms.last().id)]);
        } else {
            assert(perms.filter(pred) == sub);
            assert(user_grants(perms, user) =~= user_grants(perms.drop_last(), user));
        }
    }
}

/// The grants made with the schema, stated by what they must be whatever the
/// keys are: there are grants exactly when a role `admin`, a role `user` and a
/// permission with prefix `read_statistic` are among the rows; the first grant
/// gives the first `admin` role the first `read_statistic` permission, and the
/// rest give the first `user` role every other permission, each once, in the
/// order of the rows.
pub proof fn law_role_permission_grants_complete(roles: Seq<RoleRecord>, perms: Seq<PermissionRecord>)
    ensures
        role_permission_grants(roles, perms) is Some <==> {
            &&& exists|i: int| 0 <= i < roles.len() && (#[trigger] roles[i]).name@ == "admin"@
            &&& exists|i: int| 0 <= i < roles.len() && (#[trigger] roles[i]).name@ == "user"@
            &&& exists|j: int| 0 <= j < perms.len() && (#[trigger] perms[j]).prefix@ == "read_statistic"@
        },
        role_permission_grants(roles, perms) matches Some(g) ==> {
            &&& g.len() >= 1
            &&& first_named(roles, "admin"@, g[0].0)
            &&& first_prefixed(perms, "read_statistic"@, g[0].1)
            &&& forall|u: i32| #[trigger] first_named(roles, "user"@, u) ==> g.drop_first()
                == perms.filter(|p: PermissionRecord| not_statistics(p)).map_values(|p: PermissionRecord| (u, p.id))
        },
{
    lemma_first_named(roles, "admin"@);
    lemma_first_named(roles, "user"@);
    lemma_first_prefixed(perms, "read_statistic"@);
    if let Some(g) = role_permission_grants(roles, perms) {
        let user: i32 = first_role_id(roles, "user"@)->0;
        lemma_user_grants_filter(perms, user);
        assert(g.drop_first() =~= user_grants(perms, user));
    }
}

} // verus!
