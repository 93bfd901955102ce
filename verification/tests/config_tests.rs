use auth_service::config::{
    bind_address, default_database_url, default_redis_url, parse_usize, route_prefix, worker_thread_count,
    ApplicationConfig, EnvSettings, IntErrorKind, JwtKeys, JwtKeysError, PASSWORD_MIN_LENGTH,
};

fn env(database_url: Option<&str>, redis_url: Option<&str>) -> EnvSettings {
    EnvSettings {
        app_name: "auth".to_string(),
        app_prefix: "api".to_string(),
        app_port: "8080".to_string(),
        app_cpu_multiplier: "2".to_string(),
        db_host: "db:5432".to_string(),
        db_name: "hk".to_string(),
        db_username: "root".to_string(),
        db_password: "pw".to_string(),
        database_url: database_url.map(|s| s.to_string()),
        redis_host: "cache".to_string(),
        redis_port: "6379".to_string(),
        redis_url: redis_url.map(|s| s.to_string()),
    }
}

#[test]
fn default_urls_are_built_from_parts() {
    let c = ApplicationConfig::from_env(env(None, None));
    assert_eq!(c.database_url, "postgresql://root:pw@db:5432/hk");
    assert_eq!(c.redis_url, "redis://cache:6379");
    assert_eq!(c.app_name, "auth");
    assert_eq!(c.app_prefix, "api");
    assert_eq!(c.app_port, "8080");
    assert_eq!(c.app_cpu_multiplier, "2");
    assert_eq!(default_database_url("u", "p", "h", "n"), "postgresql://u:p@h/n");
    assert_eq!(default_redis_url("h", "1"), "redis://h:1");
}

#[test]
fn explicit_urls_win() {
    let c = ApplicationConfig::from_env(env(Some("postgresql://x"), Some("redis://y")));
    assert_eq!(c.database_url, "postgresql://x");
    assert_eq!(c.redis_url, "redis://y");
}

#[test]
fn addresses() {
    assert_eq!(bind_address("3000"), "0.0.0.0:3000");
    assert_eq!(route_prefix("api"), "/api");
    assert_eq!(route_prefix(""), "/");
}

#[test]
fn jwt_keys_must_not_be_empty() {
    let k = JwtKeys::new("pub".to_string(), "priv".to_string()).unwrap();
    assert_eq!(k.public_key, "pub");
    assert_eq!(k.private_key, "priv");
    assert_eq!(JwtKeys::new(String::new(), "priv".to_string()).unwrap_err(), JwtKeysError::Empty);
    assert_eq!(JwtKeys::new("pub".to_string(), String::new()).unwrap_err(), JwtKeysError::Empty);
    assert_eq!(JwtKeysError::Empty.message(), "JWT keys are empty");
}

#[test]
fn parse_usize_matches_std() {
    for s in ["", "0", "7", "+7", "-7", "+", "-", "12x", "x12", " 1", "007", "18446744073709551615",
        "18446744073709551616", "99999999999999999999x", "4294967295", "4294967296"]
    {
        let ours = parse_usize(s);
        let std = s.parse::<usize>();
        match (ours, std) {
            (Ok(a), Ok(b)) => assert_eq!(a, b, "{}", s),
            (Err(e), Err(f)) => assert_eq!(e.description(), f.to_string(), "{}", s),
            (a, b) => panic!("{}: {:?} vs {:?}", s, a, b),
        }
    }
    assert_eq!(parse_usize("42"), Ok(42));
    assert_eq!(parse_usize(""), Err(IntErrorKind::Empty));
    assert_eq!(parse_usize("4a"), Err(IntErrorKind::InvalidDigit));
}

#[test]
fn worker_threads_multiply() {
    assert_eq!(worker_thread_count(8, 2), 16);
    assert_eq!(worker_thread_count(0, 5), 0);
}

#[test]
fn password_minimum_is_eight() {
    assert_eq!(PASSWORD_MIN_LENGTH, 8);
}
