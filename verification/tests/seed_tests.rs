use auth_service::password::verify_password;
use auth_service::seed::{
    grants_available, role_permissions, seed_admin, seed_needed, seed_permissions, seed_roles, seed_system_configs, to_upper_ascii,
    PermissionRecord, RoleRecord,
};

#[test]
fn upper_ascii() {
    assert_eq!(to_upper_ascii("read statistic"), "READ STATISTIC");
    assert_eq!(to_upper_ascii("a_b-1 z"), "A_B-1 Z");
    assert_eq!(to_upper_ascii(""), "");
}

#[test]
fn seeded_permissions() {
    let p: Vec<(String, String)> = seed_permissions().into_iter().map(|p| (p.name, p.prefix)).collect();
    let expected: Vec<(String, String)> = [
        ("READ STATISTIC", "read_statistic"),
        ("CREATE DEVICE", "create_device"),
        ("READ DEVICE", "read_device"),
        ("UPDATE DEVICE", "read_device"),
        ("DELETE DEVICE", "read_device"),
    ]
    .iter()
    .map(|(a, b)| (a.to_string(), b.to_string()))
    .collect();
    assert_eq!(p, expected);
}

#[test]
fn seeded_roles_and_settings() {
    assert_eq!(seed_roles(), vec!["admin".to_string(), "user".to_string()]);
    let c = seed_system_configs();
    assert_eq!((c[0].key.as_str(), c[0].value.as_str(), c[0].note.as_str()), ("max_retry_login", "3", "unit"));
    assert_eq!((c[1].key.as_str(), c[1].value.as_str(), c[1].note.as_str()), ("banned_time_login", "15", "in minutes"));
}

#[test]
fn seeded_admin() {
    let a = seed_admin().unwrap();
    assert_eq!(a.name, "ADMIN");
    assert_eq!(a.email, "admin@hksmarthome.com");
    assert!(verify_password("admin#2025!", &a.password_hash));
    assert_eq!(a.password_hash.len(), 60);
    assert!(a.password_hash.starts_with("$2b$12$"));
}

fn role(id: i32, name: &str) -> RoleRecord {
    RoleRecord { id, name: name.to_string() }
}

fn perm(id: i32, prefix: &str) -> PermissionRecord {
    PermissionRecord { id, prefix: prefix.to_string() }
}

#[test]
fn grants_split_statistics_from_the_rest() {
    let roles = vec![role(1, "admin"), role(2, "user")];
    let perms = vec![perm(10, "read_statistic"), perm(11, "create_device"), perm(12, "read_device"), perm(13, "read_device")];
    assert!(grants_available(&roles, &perms));
    assert_eq!(role_permissions(&roles, &perms), vec![(1, 10), (2, 11), (2, 12), (2, 13)]);
}

#[test]
fn grants_need_both_roles_and_statistics() {
    let perms = vec![perm(10, "read_statistic")];
    assert!(!grants_available(&vec![role(1, "admin")], &perms));
    assert!(!grants_available(&vec![role(2, "user")], &perms));
    assert!(!grants_available(&vec![role(1, "admin"), role(2, "user")], &vec![perm(11, "read_device")]));
    assert!(grants_available(&vec![role(2, "user"), role(1, "admin")], &perms));
    assert_eq!(role_permissions(&vec![role(2, "user"), role(1, "admin")], &perms), vec![(1, 10)]);
}

#[test]
fn first_matching_rows_are_used() {
    let roles = vec![role(1, "admin"), role(5, "admin"), role(2, "user"), role(6, "user")];
    let perms = vec![perm(20, "x"), perm(10, "read_statistic"), perm(30, "read_statistic")];
    assert_eq!(role_permissions(&roles, &perms), vec![(1, 10), (2, 20)]);
}

#[test]
fn seeding_runs_only_into_an_empty_table() {
    assert!(seed_needed(0));
    assert!(!seed_needed(1));
    assert!(!seed_needed(seed_roles().len() as u64));
}
