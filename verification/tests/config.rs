use event_gateway::config::{require, BackendTarget, ConfigError, RawSettings, Setting, Settings};

fn full_environment() -> RawSettings {
    RawSettings {
        backend_host: Some(String::from("http://localhost:8086")),
        backend_organization: Some(String::from("lab")),
        backend_token: Some(String::from("influx-token")),
        backend_bucket: Some(String::from("events")),
        username: Some(String::from("nico")),
        password: Some(String::from("secret")),
        secret: Some(String::from("signing-key")),
    }
}

#[test]
fn setting_names_are_the_environment_variables() {
    assert_eq!(Setting::BackendHost.name(), "INFLUXDB_HOST");
    assert_eq!(Setting::BackendOrganization.name(), "INFLUXDB_ORG");
    assert_eq!(Setting::BackendToken.name(), "INFLUXDB_TOKEN");
    assert_eq!(Setting::BackendBucket.name(), "INFLUXDB_BUCKET");
    assert_eq!(Setting::Username.name(), "NICO_USERNAME");
    assert_eq!(Setting::Password.name(), "NICO_PASSWORD");
    assert_eq!(Setting::Secret.name(), "JWT_SECRET");
}

#[test]
fn require_hands_over_a_present_value() {
    assert_eq!(require(Some(String::from("v")), Setting::Secret), Ok(String::from("v")));
}

#[test]
fn require_names_the_absent_setting() {
    assert_eq!(require(None, Setting::Secret), Err(ConfigError::MissingEnv(Setting::Secret)));
}

#[test]
fn resolve_keeps_every_value() {
    let settings = Settings::resolve(full_environment()).unwrap();
    assert_eq!(
        settings,
        Settings {
            backend: BackendTarget {
                host: String::from("http://localhost:8086"),
                organization: String::from("lab"),
                access_token: String::from("influx-token"),
                bucket: String::from("events"),
            },
            username: String::from("nico"),
            password: String::from("secret"),
            secret: String::from("signing-key"),
        }
    );
}

#[test]
fn cloned_target_equals_the_target() {
    let settings = Settings::resolve(full_environment()).unwrap();
    assert_eq!(settings.backend.clone(), settings.backend);
}

#[test]
fn resolve_reports_each_missing_setting() {
    let mut raw = full_environment();
    raw.backend_host = None;
    assert_eq!(Settings::resolve(raw), Err(ConfigError::MissingEnv(Setting::BackendHost)));
    let mut raw = full_environment();
    raw.backend_organization = None;
    assert_eq!(Settings::resolve(raw), Err(ConfigError::MissingEnv(Setting::BackendOrganization)));
    let mut raw = full_environment();
    raw.backend_token = None;
    assert_eq!(Settings::resolve(raw), Err(ConfigError::MissingEnv(Setting::BackendToken)));
    let mut raw = full_environment();
    raw.backend_bucket = None;
    assert_eq!(Settings::resolve(raw), Err(ConfigError::MissingEnv(Setting::BackendBucket)));
    let mut raw = full_environment();
    raw.username = None;
    assert_eq!(Settings::resolve(raw), Err(ConfigError::MissingEnv(Setting::Username)));
    let mut raw = full_environment();
    raw.password = None;
    assert_eq!(Settings::resolve(raw), Err(ConfigError::MissingEnv(Setting::Password)));
    let mut raw = full_environment();
    raw.secret = None;
    assert_eq!(Settings::resolve(raw), Err(ConfigError::MissingEnv(Setting::Secret)));
}

#[test]
fn resolve_reports_the_first_of_several_missing_settings() {
    let mut raw = full_environment();
    raw.secret = None;
    raw.username = None;
    raw.backend_token = None;
    assert_eq!(Settings::resolve(raw), Err(ConfigError::MissingEnv(Setting::BackendToken)));
    let mut raw = full_environment();
    raw.secret = None;
    raw.password = None;
    assert_eq!(Settings::resolve(raw), Err(ConfigError::MissingEnv(Setting::Password)));
}
