use optionclaw::secrets::{
    check_secret_contents, check_secret_file_mode, describe_secret_store, DisabledSecretStore,
    MemorySecretStore, Redacted, SecretStore, SecretString,
};

#[test]
fn redaction_hides_sensitive_value() {
    let secret = Redacted::new("opclaw-secret".to_string());
    assert_eq!(secret.to_display_string(), "<redacted>");
    assert!(!secret.to_debug_string().contains("opclaw-secret"));
}

#[test]
fn secret_string_can_be_constructed_from_str() {
    let secret: SecretString = "top-secret".into();
    assert_eq!(secret.expose(), "top-secret");
    assert_eq!(secret.to_display_string(), "<redacted>");
}

#[test]
fn disabled_secret_store_fails_closed() {
    let store = DisabledSecretStore;
    let err = store.load("broker_api_key").err().expect("missing secret should fail");
    assert!(err.message().contains("SECRET_MISSING"));
}

#[test]
fn memory_secret_store_redacts_display() {
    let mut store = MemorySecretStore::new();
    store.store("llm_api_key", "opclaw_fake_key".into()).expect("store should succeed");

    let secret = store.load("llm_api_key").expect("load should succeed");
    assert_eq!(secret.expose(), "opclaw_fake_key");
    assert_eq!(secret.to_display_string(), "<redacted>");
}

#[test]
fn memory_store_reads_back_the_last_write_and_keeps_others() {
    let mut store = MemorySecretStore::default();
    store.store("a", "one".into()).expect("store should succeed");
    store.store("b", "two".into()).expect("store should succeed");
    store.store("a", "three".into()).expect("store should succeed");
    assert_eq!(store.load("a").expect("a is stored").into_inner(), "three");
    assert_eq!(store.load("b").expect("b is stored").into_inner(), "two");
    let err = store.load("c").err().expect("c was never stored");
    assert!(err.message().contains("SECRET_MISSING"));
}

#[test]
fn disabled_store_refuses_to_store() {
    let mut store = DisabledSecretStore;
    let err = store.store("k", "v".into()).expect_err("storage is disabled");
    assert!(err.message().contains("SECRET_STORAGE_DISABLED"));
}

#[test]
fn secret_file_checks_refuse_plaintext_and_open_permissions() {
    assert!(check_secret_file_mode("secret.txt", 0o600).is_ok());
    let err = check_secret_file_mode("secret.txt", 0o644).expect_err("group-readable");
    assert!(err.message().contains("INSECURE_FILE_PERMISSIONS"));
    assert!(check_secret_contents("secret.txt", "  optionclaw-secret-v1:encrypted\n").is_ok());
    let err = check_secret_contents("secret.txt", "api_key = \"super-secret\"")
        .expect_err("plaintext should be rejected");
    assert!(err.message().contains("SECRET_PLAINTEXT_REJECTED"));
    let report = describe_secret_store("var/dev/secrets");
    assert_eq!(report.root, "var/dev/secrets");
    assert!(!report.configured && !report.encrypted);
}
