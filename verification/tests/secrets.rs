use jobless::credentials::KeyringFailure;
use jobless::secrets::{
    removal_result, stored_secret, KeyringSecretStore, MemorySecretStore, SecretError,
    SecretKey, SecretStore, SecretString,
};

#[test]
fn secret_key_rejects_path_like_values() {
    assert!(SecretKey::new("proxy/password").is_err());
    assert!(SecretKey::new("proxy.password").is_ok());
}

#[test]
fn memory_store_round_trips() {
    let mut store = MemorySecretStore::new();
    let key = SecretKey::new("proxy.password").unwrap();
    store.set(&key, SecretString::new("secret".to_owned())).unwrap();

    let value = store.get(&key).unwrap().unwrap();
    assert_eq!(value.expose_secret(), "secret");

    store.delete(&key).unwrap();
    assert!(store.get(&key).unwrap().is_none());
}

#[test]
fn secret_keys_follow_the_key_rules() {
    assert_eq!(SecretKey::new("a-B_9.z").unwrap().as_str(), "a-B_9.z");
    assert_eq!(SecretKey::new(""), Err(SecretError::InvalidKey(String::new())));
    assert_eq!(SecretKey::new("has space"), Err(SecretError::InvalidKey("has space".to_string())));
    assert!(SecretKey::new("back\\slash").is_err());
    assert!(SecretKey::new("tab\tkey").is_err());
    assert!(SecretKey::new("clé").is_err());
    let longest = "k".repeat(128);
    assert!(SecretKey::new(&longest).is_ok());
    let too_long = "k".repeat(129);
    assert_eq!(SecretKey::new(&too_long), Err(SecretError::InvalidKey(too_long.clone())));
}

#[test]
fn a_write_replaces_and_leaves_other_keys_alone() {
    let mut store = MemorySecretStore::new();
    let first = SecretKey::new("first").unwrap();
    let second = SecretKey::new("second").unwrap();
    store.set(&first, SecretString::new("one".to_string())).unwrap();
    store.set(&second, SecretString::new("two".to_string())).unwrap();
    store.set(&first, SecretString::new("uno".to_string())).unwrap();
    assert_eq!(store.get(&first).unwrap().unwrap().expose_secret(), "uno");
    assert_eq!(store.get(&second).unwrap().unwrap().expose_secret(), "two");
    store.delete(&first).unwrap();
    assert!(store.get(&first).unwrap().is_none());
    assert_eq!(store.get(&second).unwrap().unwrap().expose_secret(), "two");
    store.delete(&first).unwrap();
}

#[test]
fn secret_boxes_hold_their_text() {
    let secret = SecretString::new("hunter2".to_string());
    assert_eq!(secret.expose_secret(), "hunter2");
    assert_eq!(secret.duplicate().expose_secret(), "hunter2");
    let mut wiped = SecretString::new("abc".to_string());
    wiped.wipe();
    assert_eq!(wiped.expose_secret(), "\0\0\0");
}

#[test]
fn credential_store_answers_are_mapped() {
    let found = stored_secret(Ok("pw".to_string())).unwrap().unwrap();
    assert_eq!(found.expose_secret(), "pw");
    assert!(stored_secret(Err(KeyringFailure::NoEntry)).unwrap().is_none());
    assert!(matches!(
        stored_secret(Err(KeyringFailure::Other("locked".to_string()))),
        Err(SecretError::Backend(m)) if m == "locked"
    ));
    assert_eq!(removal_result(Ok(())), Ok(()));
    assert_eq!(removal_result(Err(KeyringFailure::NoEntry)), Ok(()));
    assert_eq!(removal_result(Err(KeyringFailure::Other("x".to_string()))), Err(SecretError::Backend("x".to_string())));
}

#[test]
fn keyring_store_removing_a_missing_credential_succeeds() {
    let mut store = KeyringSecretStore::new("com.jobless.desktop.tests");
    let key = SecretKey::new("never.stored").unwrap();
    assert_eq!(store.delete(&key), Ok(()));
    assert!(store.get(&key).unwrap().is_none());
}
