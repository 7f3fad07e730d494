use file_storage::config::{ConfigError, FileStorageConfig};
use file_storage::gear::{decode_key, issuer_max_ttl};

#[test]
fn default_max_url_ttl_is_seven_days() {
    let cfg = FileStorageConfig::default();
    assert_eq!(cfg.max_url_ttl_secs, 7 * 24 * 60 * 60);
}

#[test]
fn default_url_ttl_is_short_and_within_ceiling() {
    let cfg = FileStorageConfig::default();
    assert_eq!(cfg.default_url_ttl_secs, 15 * 60);
    assert!(
        cfg.default_url_ttl_secs <= cfg.max_url_ttl_secs,
        "default issuance TTL must not exceed the hard ceiling"
    );
}

#[test]
fn default_config_requires_a_signing_key_seed() {
    let cfg = FileStorageConfig::default();
    assert_eq!(cfg.validate(), Err(ConfigError::MissingSigningKeySeed));
}

#[test]
fn zero_sweep_interval_is_rejected_first() {
    let cfg = FileStorageConfig {
        sweep_interval_secs: 0,
        ..FileStorageConfig::default()
    };
    assert_eq!(cfg.validate(), Err(ConfigError::ZeroSweepInterval));
}

#[test]
fn zero_sweep_interval_is_fine_when_sweep_disabled() {
    let cfg = FileStorageConfig {
        sweep_interval_secs: 0,
        enable_background_sweep: false,
        signing_key_seed: Some("seed".to_owned()),
        ..FileStorageConfig::default()
    };
    assert_eq!(cfg.validate(), Ok(()));
}

#[test]
fn required_finalize_secret_must_be_present() {
    let cfg = FileStorageConfig {
        signing_key_seed: Some("seed".to_owned()),
        require_finalize_internal_secret: true,
        ..FileStorageConfig::default()
    };
    assert_eq!(cfg.validate(), Err(ConfigError::MissingFinalizeInternalSecret));
    let ok = FileStorageConfig {
        finalize_internal_secret: Some("s".to_owned()),
        ..cfg
    };
    assert_eq!(ok.validate(), Ok(()));
}

#[test]
fn config_error_messages_name_the_field() {
    assert!(ConfigError::ZeroSweepInterval.message().contains("sweep_interval_secs"));
    assert!(ConfigError::MissingSigningKeySeed.message().contains("signing_key_seed"));
    assert!(ConfigError::MissingFinalizeInternalSecret
        .message()
        .contains("finalize_internal_secret"));
}

#[test]
fn default_config_values() {
    let cfg = FileStorageConfig::default();
    assert_eq!(cfg.sidecar_base_url, "http://localhost:8087");
    assert_eq!(cfg.default_page_size, 50);
    assert_eq!(cfg.max_page_size, 1000);
    assert_eq!(cfg.storage_root, "./.file-storage-data");
    assert_eq!(cfg.idempotency_ttl_secs, 86400);
    assert_eq!(cfg.orphan_grace_secs, 3600);
    assert_eq!(cfg.sweep_interval_secs, 3600);
    assert!(cfg.enable_background_sweep);
    assert!(!cfg.enable_in_memory_backend);
    assert!(cfg.require_signing_key_seed);
    assert!(!cfg.require_finalize_internal_secret);
}

#[test]
fn secrets_are_redacted() {
    assert_eq!(file_storage::config::redact_secret(&Some("k".to_owned())), Some("<redacted>"));
    assert_eq!(file_storage::config::redact_secret(&None), None);
}

#[test]
fn keys_decode_from_unpadded_base64url() {
    assert_eq!(decode_key("  AQID \n"), Ok(vec![1, 2, 3]));
    assert_eq!(decode_key("_-8"), Ok(vec![0xff, 0xef]));
    assert!(decode_key("AQID=").is_err());
    assert!(decode_key("!!").is_err());
    let mut cfg = FileStorageConfig::default();
    assert_eq!(issuer_max_ttl(&cfg), 7 * 24 * 60 * 60);
    cfg.max_url_ttl_secs = u64::MAX;
    assert_eq!(issuer_max_ttl(&cfg), i64::MAX);
}
