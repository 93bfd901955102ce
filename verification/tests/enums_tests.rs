use auth_service::enums::{LogStatusEnum, RedisKey, RoleEnum};

#[test]
fn enum_texts() {
    assert_eq!(LogStatusEnum::Error.to_string(), "error");
    assert_eq!(LogStatusEnum::Info.to_string(), "info");
    assert_eq!(LogStatusEnum::Verbose.to_string(), "verbose");
    assert_eq!(LogStatusEnum::Warning.to_string(), "warning");
    assert_eq!(RedisKey::HK_SMART_HOME_SYSTEMCONFIG.to_string(), "hk-smart_home-systemconfig");
    assert_eq!(RoleEnum::Admin.to_string(), "admin");
    assert_eq!(RoleEnum::User.to_string(), "user");
}
