use fluid_voice_windows::secrets::{
    credential_address, credential_write, CredentialRead, CredentialRemoval, SecretError,
    SecretStore, SERVICE_NAME,
};

#[test]
fn reads_map_missing_entries_to_none() {
    assert!(matches!(
        SecretStore::read_outcome(CredentialRead::Found("sk".to_string())),
        Ok(Some(ref s)) if s == "sk"
    ));
    assert!(matches!(SecretStore::read_outcome(CredentialRead::Missing), Ok(None)));
    assert!(matches!(
        SecretStore::read_outcome(CredentialRead::Failed(keyring::Error::NoEntry)),
        Err(SecretError::Read(_))
    ));
}

#[test]
fn removing_a_missing_secret_succeeds() {
    assert!(SecretStore::removal_outcome(CredentialRemoval::Removed).is_ok());
    assert!(SecretStore::removal_outcome(CredentialRemoval::Missing).is_ok());
    assert!(matches!(
        SecretStore::removal_outcome(CredentialRemoval::Failed(keyring::Error::Invalid(
            "user".to_string(),
            "empty".to_string()
        ))),
        Err(SecretError::Delete(_))
    ));
}

#[test]
fn status_reports_presence() {
    let status = SecretStore::status_from("groq", Ok(Some("k".to_string()))).unwrap();
    assert_eq!(status.key, "groq");
    assert!(status.exists);
    let status = SecretStore::status_from("openai", Ok(None)).unwrap();
    assert!(!status.exists);
}

#[test]
fn store_round_trip_reports_a_status() {
    let store = SecretStore;
    let _ = store.set("fluidvoice-test-slot", "secret");
    let status = store.status("fluidvoice-test-slot");
    if let Ok(status) = status {
        assert_eq!(status.key, "fluidvoice-test-slot");
    }
    assert!(store.delete("fluidvoice-test-slot").is_ok());
}

#[test]
fn failed_writes_are_write_errors() {
    assert!(SecretStore::write_outcome(Ok(())).is_ok());
    let e = SecretStore::write_outcome(Err(keyring::Error::NoEntry)).unwrap_err();
    assert!(matches!(e, SecretError::Write(_)));
    assert!(e.message().starts_with("failed to write credential: "));
}

#[test]
fn keys_are_filed_under_the_app_service() {
    let address = credential_address("groq");
    assert_eq!(SERVICE_NAME, "fluidvoice-windows");
    assert_eq!(address.service, "fluidvoice-windows");
    assert_eq!(address.user, "groq");
    let write = credential_write("openai", "sk-123");
    assert_eq!(write.address.service, "fluidvoice-windows");
    assert_eq!(write.address.user, "openai");
    assert_eq!(write.password, "sk-123");
}
