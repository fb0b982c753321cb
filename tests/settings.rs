use blob_cli::config::{resolve_settings, CliOverrides, Configs, EnvCredentials};
use blob_cli::error::{CliError, Credential, ErrorKind};

fn file(account: &str, key: &str, local: &str) -> Configs {
    Configs {
        storage_account: account.to_string(),
        storage_master_key: key.to_string(),
        local: local.to_string(),
    }
}

fn flags(account: Option<&str>, key: Option<&str>, local: Option<&str>) -> CliOverrides {
    CliOverrides {
        storage_account: account.map(|s| s.to_string()),
        storage_master_key: key.map(|s| s.to_string()),
        local: local.map(|s| s.to_string()),
    }
}

fn env(account: Option<&str>, key: Option<&str>) -> EnvCredentials {
    EnvCredentials {
        storage_account: account.map(|s| s.to_string()),
        storage_master_key: key.map(|s| s.to_string()),
    }
}

#[test]
fn flag_account_overrides_file_account() {
    let r = resolve_settings(Some(file("A", "K", "")), &flags(Some("B"), None, None), env(None, None)).unwrap();
    assert_eq!(r.account, "B");
    assert_eq!(r.master_key, "K");
}

#[test]
fn flag_beats_file_beats_environment_per_field() {
    let r = resolve_settings(
        Some(file("file-acct", "", "file-local")),
        &flags(None, Some("flag-key"), None),
        env(Some("env-acct"), Some("env-key")),
    )
    .unwrap();
    assert_eq!(r.account, "file-acct");
    assert_eq!(r.master_key, "flag-key");
    assert_eq!(r.local.as_deref(), Some("file-local"));

    let r = resolve_settings(None, &flags(None, None, None), env(Some("env-acct"), Some("env-key"))).unwrap();
    assert_eq!(r.account, "env-acct");
    assert_eq!(r.master_key, "env-key");
    assert_eq!(r.local, None);
}

#[test]
fn flag_local_overrides_file_local() {
    let r = resolve_settings(Some(file("a", "k", "/from/file")), &flags(None, None, Some("/from/flag")), env(None, None))
        .unwrap();
    assert_eq!(r.local.as_deref(), Some("/from/flag"));
}

#[test]
fn empty_local_counts_as_not_given() {
    let r = resolve_settings(Some(file("a", "k", "")), &flags(None, None, None), env(None, None)).unwrap();
    assert_eq!(r.local, None);
}

#[test]
fn empty_account_flag_falls_back_to_environment() {
    let r = resolve_settings(Some(file("A", "k", "")), &flags(Some(""), None, None), env(Some("E"), None)).unwrap();
    assert_eq!(r.account, "E");
}

#[test]
fn missing_account_everywhere_is_configuration_error() {
    let r = resolve_settings(None, &flags(None, Some("k"), None), env(None, Some("k")));
    let e = r.err().unwrap();
    assert_eq!(e, CliError::MissingCredential(Credential::Account));
    assert_eq!(e.kind(), ErrorKind::Configuration);
    assert_eq!(Credential::Account.env_var(), "STORAGE_ACCOUNT");
}

#[test]
fn missing_key_everywhere_names_the_key() {
    let r = resolve_settings(Some(file("a", "", "")), &flags(None, None, None), env(None, None));
    let e = r.err().unwrap();
    assert_eq!(e, CliError::MissingCredential(Credential::MasterKey));
    assert_eq!(e.message(), "STORAGE_MASTER_KEY is not defined");
    assert_eq!(Credential::MasterKey.env_var(), "STORAGE_MASTER_KEY");
}

#[test]
fn account_is_checked_before_key() {
    let r = resolve_settings(None, &flags(None, None, None), env(None, None));
    assert_eq!(r.err(), Some(CliError::MissingCredential(Credential::Account)));
}

#[test]
fn empty_configs_are_empty() {
    let c = Configs::empty();
    assert_eq!(c.storage_account, "");
    assert_eq!(c.storage_master_key, "");
    assert_eq!(c.local, "");
}

#[test]
fn every_error_has_its_message() {
    assert_eq!(CliError::MissingCredential(Credential::Account).message(), "STORAGE_ACCOUNT is not defined");
    assert!(CliError::MissingCredential(Credential::Account).message().starts_with(Credential::Account.env_var()));
    assert!(CliError::MissingCredential(Credential::MasterKey).message().starts_with(Credential::MasterKey.env_var()));
    assert_eq!(CliError::MissingContainer.message(), "No container name specified");
    assert_eq!(CliError::MissingBlob.message(), "No blob name specified");
    assert_eq!(CliError::MissingLocalPath.message(), "No local path specified");
    assert_eq!(CliError::NoFileName.message(), "Cannot extract filename from local path");
    assert_eq!(CliError::InvalidMode.message(), "Invalid mode");
}
