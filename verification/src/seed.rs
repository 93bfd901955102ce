use vstd::prelude::*;
use vstd::string::{StringExecFns, StrSliceExecFns};

use crate::enums::{role_text, RoleEnum};
use crate::password::{bcrypt_hash_form, hash_password, password_matches, HashPasswordError};

verus! {

broadcast use vstd::string::group_string_axioms;

/// A seeding step fills its table only where the table is empty: once its
/// rows are in, running the step again leaves the table as it is.
pub fn seed_needed(existing_rows: u64) -> (r: bool)
    ensures
        r <==> existing_rows == 0,
{
    existing_rows == 0
}

/// The e-mail of the administrator account created with the schema.
pub open spec fn admin_email_text() -> Seq<char> {
    "admin@hksmarthome.com"@
}

/// The e-mail of the administrator account.
pub fn admin_email() -> (r: String)
    ensures
        r@ == admin_email_text(),
{
    String::from_str("admin@hksmarthome.com")
}

/// The prefix of the one permission kept for administrators.
pub open spec fn admin_permission_prefix() -> Seq<char> {
    "read_statistic"@
}

/// The upper-case letter of an ASCII lower-case letter; any other character
/// is kept.
pub open spec fn upper_char(c: char) -> char {
    if 'a' <= c && c <= 'z' {
        ((c as int) - 32) as char
    } else {
        c
    }
}

/// A text with its ASCII letters in upper case.
pub open spec fn upper_text(s: Seq<char>) -> Seq<char> {
    s.map_values(|c: char| upper_char(c))
}

/// Puts the ASCII letters of a text in upper case, as `to_uppercase` does for
/// ASCII text.
pub fn to_upper_ascii(s: &str) -> (r: String)
    requires
        s.is_ascii(),
    ensures
        r@ == upper_text(s@),
{
    let n: usize = s.unicode_len();
    let mut out = String::new();
    let mut i: usize = 0;
    while i < n
        invariant
            n == s@.len(),
            s.is_ascii(),
            i <= n,
            out@ == upper_text(s@.take(i as int)),
        decreases n - i,
    {
        let c = s.substring_ascii(i, i + 1);
        let ch = s.get_char(i);
        proof {
            assert(c@ == seq![ch]);
        }
        if 'a' <= ch && ch <= 'z' {
            let piece = upper_letter(ch);
            out.append(piece);
        } else {
            out.append(c);
        }
        proof {
            assert(s@.take(i + 1) =~= s@.take(i as int).push(ch));
            assert(upper_text(s@.take(i + 1)) =~= upper_text(s@.take(i as int)).push(upper_char(ch)));
        }
        i = i + 1;
    }
    proof {
        assert(s@.take(n as int) =~= s@);
    }
    out
}

fn upper_letter(c: char) -> (r: &'static str)
    requires
        'a' <= c <= 'z',
    ensures
        r@ == seq![upper_char(c)],
{
    proof {
        reveal_strlit("A"); reveal_strlit("B"); reveal_strlit("C"); reveal_strlit("D");
        reveal_strlit("E"); reveal_strlit("F"); reveal_strlit("G"); reveal_strlit("H");
        reveal_strlit("I"); reveal_strlit("J"); reveal_strlit("K"); reveal_strlit("L");
        reveal_strlit("M"); reveal_strlit("N"); reveal_strlit("O"); reveal_strlit("P");
        reveal_strlit("Q"); reveal_strlit("R"); reveal_strlit("S"); reveal_strlit("T");
        reveal_strlit("U"); reveal_strlit("V"); reveal_strlit("W"); reveal_strlit("X");
        reveal_strlit("Y"); reveal_strlit("Z");
    }
    match c {
        'a' => "A", 'b' => "B", 'c' => "C", 'd' => "D", 'e' => "E", 'f' => "F", 'g' => "G",
        'h' => "H", 'i' => "I", 'j' => "J", 'k' => "K", 'l' => "L", 'm' => "M", 'n' => "N",
        'o' => "O", 'p' => "P", 'q' => "Q", 'r' => "R", 's' => "S", 't' => "T", 'u' => "U",
        'v' => "V", 'w' => "W", 'x' => "X", 'y' => "Y", _ => "Z",
    }
}


/// A row of the `permissions` table to be created.
#[derive(Debug, Clone)]
pub struct PermissionSeed {
    pub name: String,
    pub prefix: String,
}

/// A row of the `system_configs` table to be created.
#[derive(Debug, Clone)]
pub struct SystemConfigSeed {
    pub key: String,
    pub value: String,
    pub note: String,
}

/// The permissions created with the schema: statistics reading, then device
/// creation, reading, update and deletion, each named by its phrase in upper
/// case. The last three share the prefix `read_device`.
pub open spec fn permission_seed_texts() -> Seq<(Seq<char>, Seq<char>)> {
    seq![
        (upper_text("read statistic"@), "read_statistic"@),
        (upper_text("create device"@), "create_device"@),
        (upper_text("read device"@), "read_device"@),
        (upper_text("update device"@), "read_device"@),
        (upper_text("delete device"@), "read_device"@),
    ]
}

fn permission_seed(phrase: &str, prefix: &str) -> (r: PermissionSeed)
    requires
        phrase.is_ascii(),
    ensures
        r.name@ == upper_text(phrase@),
        r.prefix@ == prefix@,
{
    PermissionSeed { name: to_upper_ascii(phrase), prefix: String::from_str(prefix) }
}

pub fn seed_permissions() -> (r: Vec<PermissionSeed>)
    ensures
        r@.len() == permission_seed_texts().len(),
        forall|i: int| 0 <= i < r@.len() ==> (#[trigger] r@[i]).name@ == permission_seed_texts()[i].0
            && r@[i].prefix@ == permission_seed_texts()[i].1,
{
    proof {
        reveal_strlit("read statistic");
        reveal_strlit("create device");
        reveal_strlit("read device");
        reveal_strlit("update device");
        reveal_strlit("delete device");
    }
    let mut v: Vec<PermissionSeed> = Vec::new();
    v.push(permission_seed("read statistic", "read_statistic"));
    v.push(permission_seed("create device", "create_device"));
    v.push(permission_seed("read device", "read_device"));
    v.push(permission_seed("update device", "read_device"));
    v.push(permission_seed("delete device", "read_device"));
    v
}

/// The roles created with the schema, in order.
pub fn seed_roles() -> (r: Vec<String>)
    ensures
        r@.len() == 2,
        r@[0]@ == role_text(RoleEnum::Admin),
        r@[1]@ == role_text(RoleEnum::User),
{
    let mut v: Vec<String> = Vec::new();
    v.push(RoleEnum::Admin.to_string());
    v.push(RoleEnum::User.to_string());
    v
}

/// The settings created with the schema: at most three failed sign-ins, and
/// a ban of fifteen minutes.
pub fn seed_system_configs() -> (r: Vec<SystemConfigSeed>)
    ensures
        r@.len() == 2,
        r@[0].key@ == "max_retry_login"@,
        r@[0].value@ == "3"@,
        r@[0].note@ == "unit"@,
        r@[1].key@ == "banned_time_login"@,
        r@[1].value@ == "15"@,
        r@[1].note@ == "in minutes"@,
{
    let mut v: Vec<SystemConfigSeed> = Vec::new();
    v.push(
        SystemConfigSeed {
            key: String::from_str("max_retry_login"),
            value: String::from_str("3"),
            note: String::from_str("unit"),
        },
    );
    v.push(
        SystemConfigSeed {
            key: String::from_str("banned_time_login"),
            value: String::from_str("15"),
            note: String::from_str("in minutes"),
        },
    );
    v
}

/// The administrator account created with the schema.
pub struct AdminSeed {
    pub name: String,
    pub email: String,
    pub password_hash: String,
}

/// The administrator: named `ADMIN`, with its fixed e-mail, and a password
/// hash that the initial password `admin#2025!` is accepted against.
pub fn seed_admin() -> (r: Result<AdminSeed, HashPasswordError>)
    ensures
        r matches Ok(a) ==> {
            &&& a.name@ == upper_text(role_text(RoleEnum::Admin))
            &&& a.email@ == admin_email_text()
            &&& password_matches("admin#2025!"@, a.password_hash@)
            &&& bcrypt_hash_form(a.password_hash@)
        },
{
    proof {
        reveal_strlit("admin");
    }
    let name = to_upper_ascii(RoleEnum::Admin.to_string().as_str());
    let password_hash = hash_password(String::from_str("admin#2025!"))?;
    Ok(AdminSeed { name, email: admin_email(), password_hash })
}

/// A stored role: its key and name.
#[derive(Debug, Clone)]
pub struct RoleRecord {
    pub id: i32,
    pub name: String,
}

/// A stored permission: its key and prefix.
#[derive(Debug, Clone)]
pub struct PermissionRecord {
    pub id: i32,
    pub prefix: String,
}

/// The key of the first role with the given name.
pub open spec fn first_role_id(roles: Seq<RoleRecord>, name: Seq<char>) -> Option<i32>
    decreases roles.len(),
{
    if roles.len() == 0 {
        None
    } else if roles[0].name@ == name {
        Some(roles[0].id)
    } else {
        first_role_id(roles.drop_first(), name)
    }
}

/// The key of the first permission with the given prefix.
pub open spec fn first_permission_id(perms: Seq<PermissionRecord>, prefix: Seq<char>) -> Option<i32>
    decreases perms.len(),
{
    if perms.len() == 0 {
        None
    } else if perms[0].prefix@ == prefix {
        Some(perms[0].id)
    } else {
        first_permission_id(perms.drop_first(), prefix)
    }
}

/// The grants of the user role: every permission whose prefix is not the
/// administrator's, in order.
pub open spec fn user_grants(perms: Seq<PermissionRecord>, user_role: i32) -> Seq<(i32, i32)>
    decreases perms.len(),
{
    if perms.len() == 0 {
        seq![]
    } else {
        user_grants(perms.drop_last(), user_role) + (if perms.last().prefix@ != admin_permission_prefix() {
            seq![(user_role, perms.last().id)]
        } else {
            seq![]
        })
    }
}

/// The role–permission pairs created with the schema: the administrator role
/// gets the statistics permission, the user role every other permission.
/// Nothing where a role or that permission is missing.
pub open spec fn role_permission_grants(roles: Seq<RoleRecord>, perms: Seq<PermissionRecord>) -> Option<Seq<(i32, i32)>> {
    match (
        first_role_id(roles, role_text(RoleEnum::Admin)),
        first_role_id(roles, role_text(RoleEnum::User)),
        first_permission_id(perms, admin_permission_prefix()),
    ) {
        (Some(admin), Some(user), Some(stat)) => Some(seq![(admin, stat)] + user_grants(perms, user)),
        _ => None,
    }
}

fn find_role(roles: &Vec<RoleRecord>, name: &String) -> (r: Option<i32>)
    ensures
        r == first_role_id(roles@, name@),
{
    let n: usize = roles.len();
    let mut i: usize = 0;
    proof {
        assert(roles@.subrange(0, n as int) =~= roles@);
    }
    while i < n
        invariant
            n == roles@.len(),
            i <= n,
            first_role_id(roles@, name@) == first_role_id(roles@.subrange(i as int, n as int), name@),
        decreases n - i,
    {
        proof {
            assert(roles@.subrange(i as int, n as int).drop_first() =~= roles@.subrange(i + 1, n as int));
        }
        if roles[i].name == *name {
            return Some(roles[i].id);
        }
        i = i + 1;
    }
    None
}

fn find_permission(perms: &Vec<PermissionRecord>, prefix: &String) -> (r: Option<i32>)
    ensures
        r == first_permission_id(perms@, prefix@),
{
    let n: usize = perms.len();
    let mut i: usize = 0;
    proof {
        assert(perms@.subrange(0, n as int) =~= perms@);
    }
    while i < n
        invariant
            n == perms@.len(),
            i <= n,
            first_permission_id(perms@, prefix@) == first_permission_id(perms@.subrange(i as int, n as int), prefix@),
        decreases n - i,
    {
        proof {
            assert(perms@.subrange(i as int, n as int).drop_first() =~= perms@.subrange(i + 1, n as int));
        }
        if perms[i].prefix == *prefix {
            return Some(perms[i].id);
        }
        i = i + 1;
    }
    None
}

/// Whether the administrator role, the user role and the statistics
/// permission are all among the rows found, so that the grants can be made.
pub fn grants_available(roles: &Vec<RoleRecord>, perms: &Vec<PermissionRecord>) -> (r: bool)
    ensures
        r == role_permission_grants(roles@, perms@) is Some,
{
    let admin_name = RoleEnum::Admin.to_string();
    let user_name = RoleEnum::User.to_string();
    let stat_prefix = String::from_str("read_statistic");
    find_role(roles, &admin_name).is_some() && find_role(roles, &user_name).is_some() && find_permission(
        perms,
        &stat_prefix,
    ).is_some()
}

/// The role–permission pairs to store for the roles and permissions found.
/// The administrator role, the user role and the statistics permission must
/// all be among them (see `grants_available`); seeding cannot go on without
/// them.
pub fn role_permissions(roles: &Vec<RoleRecord>, perms: &Vec<PermissionRecord>) -> (r: Vec<(i32, i32)>)
    requires
        role_permission_grants(roles@, perms@) is Some,
    ensures
        Some(r@) == role_permission_grants(roles@, perms@),
{
    let admin_name = RoleEnum::Admin.to_string();
    let user_name = RoleEnum::User.to_string();
    let stat_prefix = String::from_str("read_statistic");
    let admin: i32 = find_role(roles, &admin_name).unwrap();
    let user: i32 = find_role(roles, &user_name).unwrap();
    let stat: i32 = find_permission(perms, &stat_prefix).unwrap();
    let mut out: Vec<(i32, i32)> = Vec::new();
    out.push((admin, stat));
    let n: usize = perms.len();
    let mut i: usize = 0;
    proof {
        assert(perms@.take(0) =~= Seq::<PermissionRecord>::empty());
        assert(out@ =~= seq![(admin, stat)] + user_grants(perms@.take(0), user));
    }
    while i < n
        invariant
            n == perms@.len(),
            i <= n,
            stat_prefix@ == admin_permission_prefix(),
            out@ == seq![(admin, stat)] + user_grants(perms@.take(i as int), user),
        decreases n - i,
    {
        proof {
            assert(perms@.take(i + 1).drop_last() =~= perms@.take(i as int));
            assert(perms@.take(i + 1).last() == perms@[i as int]);
        }
        if perms[i].prefix != stat_prefix {
            out.push((user, perms[i].id));
        }
        proof {
            assert(out@ =~= seq![(admin, stat)] + user_grants(perms@.take(i + 1), user));
        }
        i = i + 1;
    }
    proof {
        assert(perms@.take(n as int) =~= perms@);
    }
    out
}

} // verus!
