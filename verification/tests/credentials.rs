use event_gateway::config::{ConfigError, Setting};
use event_gateway::credentials::{CredentialStore, User, ACCOUNT_ID};

// "correctbatteryhorsestapler", hashed at cost 4.
const STAPLER_HASH: &str = "$2b$04$EGdrhbKUv8Oc9vGiXX0HQOxSg445d458Muh7DAHskb6QbtCvdxcie";

fn user(id: u32, username: &str, password_hash: &str) -> User {
    User { id, username: String::from(username), password_hash: String::from(password_hash) }
}

#[test]
fn lookup_in_empty_store_finds_nobody() {
    let store = CredentialStore::new();
    assert!(store.lookup("nico").is_none());
}

#[test]
fn insert_then_lookup_returns_the_user() {
    let mut store = CredentialStore::new();
    store.insert(user(7, "nico", "h1"));
    store.insert(user(8, "ada", "h2"));
    assert_eq!(store.lookup("nico"), Some(user(7, "nico", "h1")));
    assert_eq!(store.lookup("ada"), Some(user(8, "ada", "h2")));
    assert_eq!(store.lookup("Nico"), None);
    assert_eq!(store.lookup(""), None);
}

#[test]
fn insert_overwrites_a_user_of_the_same_name() {
    let mut store = CredentialStore::new();
    store.insert(user(1, "nico", "old"));
    store.insert(user(2, "ada", "other"));
    store.insert(user(3, "nico", "new"));
    assert_eq!(store.lookup("nico"), Some(user(3, "nico", "new")));
    assert_eq!(store.lookup("ada"), Some(user(2, "ada", "other")));
    assert_eq!(store.len(), 2);
}

#[test]
fn len_counts_the_usernames() {
    let mut store = CredentialStore::new();
    assert_eq!(store.len(), 0);
    store.insert(user(1, "nico", "h"));
    assert_eq!(store.len(), 1);
    store.insert(user(1, "nico", "h"));
    assert_eq!(store.len(), 1);
    store.insert(user(1, "Nico", "h"));
    assert_eq!(store.len(), 2);
    store.insert(user(1, "", "h"));
    assert_eq!(store.len(), 3);
}

#[test]
fn add_account_stores_a_salted_hash_that_the_password_verifies_against() {
    let mut store = CredentialStore::new();
    assert_eq!(store.add_account("nico", "secret"), Ok(()));
    let stored = store.lookup("nico").unwrap();
    assert_eq!(stored.id, ACCOUNT_ID);
    assert_eq!(stored.id, 1);
    assert_eq!(stored.username, "nico");
    assert_ne!(stored.password_hash, "secret");
    assert!(stored.password_hash.starts_with("$2b$12$"));
    assert_eq!(stored.password_hash.len(), 60);
    assert_eq!(stored.check_password("secret"), Some(true));
    assert_eq!(stored.check_password("wrong"), Some(false));
}

#[test]
fn add_account_twice_salts_differently_and_keeps_one_account() {
    let mut store = CredentialStore::new();
    assert_eq!(store.add_account("nico", "first"), Ok(()));
    let first = store.lookup("nico").unwrap();
    assert_eq!(store.add_account("nico", "first"), Ok(()));
    let second = store.lookup("nico").unwrap();
    assert_ne!(first.password_hash, second.password_hash);
    assert_eq!(second.check_password("first"), Some(true));
    assert_eq!(store.len(), 1);
}

#[test]
fn register_stores_the_configured_account() {
    let mut store = CredentialStore::new();
    let outcome = store.register(Some(String::from("nico")), Some(String::from("secret")));
    assert_eq!(outcome, Ok(()));
    let stored = store.lookup("nico").unwrap();
    assert_eq!(stored.id, 1);
    assert_eq!(stored.check_password("secret"), Some(true));
    assert_eq!(store.len(), 1);
}

#[test]
fn register_without_username_names_the_username() {
    let mut store = CredentialStore::new();
    assert_eq!(
        store.register(None, Some(String::from("secret"))),
        Err(ConfigError::MissingEnv(Setting::Username))
    );
    assert_eq!(store.register(None, None), Err(ConfigError::MissingEnv(Setting::Username)));
    assert_eq!(store.len(), 0);
}

#[test]
fn register_without_password_names_the_password() {
    let mut store = CredentialStore::new();
    assert_eq!(
        store.register(Some(String::from("nico")), None),
        Err(ConfigError::MissingEnv(Setting::Password))
    );
    assert_eq!(store.lookup("nico"), None);
}

#[test]
fn enroll_stores_the_given_hash() {
    let mut store = CredentialStore::new();
    assert_eq!(store.enroll("nico", Ok(String::from(STAPLER_HASH))), Ok(()));
    assert_eq!(store.lookup("nico"), Some(user(1, "nico", STAPLER_HASH)));
}

#[test]
fn enroll_without_a_hash_fails_and_changes_nothing() {
    let mut store = CredentialStore::new();
    store.insert(user(1, "nico", STAPLER_HASH));
    let outcome = store.enroll("nico", Err(bcrypt::BcryptError::InvalidSaltLen(3)));
    assert_eq!(outcome, Err(ConfigError::HashingFailed));
    assert_eq!(store.lookup("nico"), Some(user(1, "nico", STAPLER_HASH)));
    let outcome = store.enroll("ada", Err(bcrypt::BcryptError::CostNotAllowed(99)));
    assert_eq!(outcome, Err(ConfigError::HashingFailed));
    assert_eq!(store.lookup("ada"), None);
}

#[test]
fn check_password_gives_the_verdict_of_bcrypt() {
    let stapler = user(1, "nico", STAPLER_HASH);
    assert_eq!(stapler.check_password("correctbatteryhorsestapler"), Some(true));
    assert_eq!(stapler.check_password("wrong"), Some(false));
    assert_eq!(stapler.check_password(""), Some(false));
}

#[test]
fn check_password_against_a_text_that_is_no_hash_gives_no_verdict() {
    assert_eq!(user(1, "nico", "plain").check_password("plain"), None);
    assert_eq!(user(1, "nico", "").check_password(""), None);
    assert_eq!(user(1, "nico", "$2b$04$tooshort").check_password("x"), None);
}

#[test]
fn cloned_user_equals_the_user() {
    let nico = user(1, "nico", STAPLER_HASH);
    assert_eq!(nico.clone(), nico);
}
