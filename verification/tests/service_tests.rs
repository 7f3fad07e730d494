use file_storage::config::{FileStorageConfig, S3BackendConfig};
use file_storage::error::DomainError;
use file_storage::config::ConfigError;
use file_storage::gear::{build_backend_registry, prepare_init, InitError, LOCAL_FS_ID};
use file_storage::models::{FileVersion, VersionStatus};
use file_storage::service::{
    check_delete_precondition, check_downloadable, download_target, listing_needs_admin,
    not_modified, page_limit, parse_i64, parse_meta_version, plan_version_deletion,
    saturating_i64, service_config, total_version_bytes, version_delete_race_error,
    VersionDeletion, file_delete_usage, version_delete_usage,
};

fn version(id: u128, size: i64) -> FileVersion {
    FileVersion {
        file_id: 1,
        version_id: id,
        mime_type: "text/plain".to_owned(),
        size,
        hash_algorithm: "sha256".to_owned(),
        hash_value: vec![0xab],
        status: VersionStatus::Available,
        is_current: false,
        backend_id: "local-fs".to_owned(),
        backend_path: "/1/2".to_owned(),
        created_at: 0,
    }
}

#[test]
fn page_limit_clamps_to_the_maximum() {
    assert_eq!(page_limit(None, 50, 1000), 50);
    assert_eq!(page_limit(Some(10), 50, 1000), 10);
    assert_eq!(page_limit(Some(5000), 50, 1000), 1000);
    assert_eq!(page_limit(None, 2000, 1000), 1000);
}

#[test]
fn listing_someone_elses_files_needs_admin() {
    assert!(!listing_needs_admin(7, 7));
    assert!(listing_needs_admin(7, 8));
}

#[test]
fn download_target_prefers_the_requested_version() {
    assert_eq!(download_target(Some(3), Some(4)), Ok(3));
    assert_eq!(download_target(None, Some(4)), Ok(4));
    assert_eq!(
        download_target(None, None),
        Err(DomainError::Conflict { message: "file has no bound content yet".to_owned() })
    );
}

#[test]
fn only_available_versions_are_downloadable() {
    assert_eq!(check_downloadable(VersionStatus::Available), Ok(()));
    assert!(matches!(
        check_downloadable(VersionStatus::Pending),
        Err(DomainError::Conflict { .. })
    ));
}

#[test]
fn delete_requires_a_matching_if_match() {
    assert!(matches!(
        check_delete_precondition(None, Some("\"e\"")),
        Err(DomainError::PreconditionFailed { .. })
    ));
    assert_eq!(check_delete_precondition(Some(" * "), None), Ok(()));
    assert_eq!(check_delete_precondition(Some("\"e\" "), Some("\"e\"")), Ok(()));
    assert_eq!(
        check_delete_precondition(Some("\"x\""), Some("\"e\"")),
        Err(DomainError::PreconditionFailed {
            message: "If-Match does not match the current content ETag".to_owned()
        })
    );
}

#[test]
fn conditional_get_matches_star_or_tag() {
    assert!(not_modified(Some("*"), Some("\"e\"")));
    assert!(not_modified(Some(" \"e\" "), Some("\"e\"")));
    assert!(!not_modified(Some("\"x\""), Some("\"e\"")));
    assert!(!not_modified(Some("*"), None));
    assert!(!not_modified(None, Some("\"e\"")));
}

#[test]
fn version_deletion_plan() {
    let one = vec![version(2, 5)];
    assert_eq!(plan_version_deletion(&one, 1, 2, Some(2)), Ok(VersionDeletion::WholeFile));
    let two = vec![version(2, 5), version(3, 7)];
    assert_eq!(plan_version_deletion(&two, 1, 3, Some(2)), Ok(VersionDeletion::Single(1)));
    assert!(matches!(
        plan_version_deletion(&two, 1, 2, Some(2)),
        Err(DomainError::Conflict { .. })
    ));
    assert_eq!(
        plan_version_deletion(&two, 1, 9, Some(2)),
        Err(DomainError::VersionNotFound { file_id: 1, version_id: 9 })
    );
    assert_eq!(
        version_delete_race_error(false, 1, 3),
        DomainError::VersionNotFound { file_id: 1, version_id: 3 }
    );
    assert!(matches!(version_delete_race_error(true, 1, 3), DomainError::Conflict { .. }));
}

#[test]
fn total_bytes_of_versions() {
    assert_eq!(total_version_bytes(&vec![version(2, 5), version(3, 7)]), 12);
    assert_eq!(total_version_bytes(&vec![]), 0);
}

#[test]
fn metadata_version_header_is_parsed_leniently() {
    assert_eq!(parse_meta_version(Some(" \"42\" ")), Some(42));
    assert_eq!(parse_meta_version(Some("7")), Some(7));
    assert_eq!(parse_meta_version(Some("-3")), Some(-3));
    assert_eq!(parse_meta_version(Some("abc")), None);
    assert_eq!(parse_meta_version(None), None);
    assert_eq!(parse_i64("9223372036854775807"), Some(i64::MAX));
    assert_eq!(parse_i64("9223372036854775808"), None);
    assert_eq!(parse_i64("-9223372036854775808"), Some(i64::MIN));
    assert_eq!(parse_i64("+5"), Some(5));
    assert_eq!(parse_i64(""), None);
}

#[test]
fn service_config_saturates_the_ttl() {
    let mut cfg = FileStorageConfig::default();
    cfg.default_url_ttl_secs = u64::MAX;
    let sc = service_config(&cfg);
    assert_eq!(sc.default_url_ttl_secs, i64::MAX);
    assert_eq!(sc.default_page_size, 50);
    assert_eq!(saturating_i64(5), 5);
}

#[test]
fn registry_always_has_local_fs_as_default() {
    let mut cfg = FileStorageConfig::default();
    let plan = build_backend_registry(&cfg).expect("local-fs is registered");
    assert_eq!(plan.default_id, LOCAL_FS_ID);
    assert_eq!(plan.local_root, cfg.storage_root);
    assert!(!plan.with_memory);
    assert!(plan.s3_ids.is_empty());
    cfg.enable_in_memory_backend = true;
    assert!(build_backend_registry(&cfg).expect("valid").with_memory);
}

fn s3(id: &str) -> S3BackendConfig {
    S3BackendConfig {
        id: id.to_owned(),
        endpoint: Some("http://127.0.0.1:9000".to_owned()),
        region: "us-east-1".to_owned(),
        bucket: "b".to_owned(),
        access_key_id: None,
        secret_access_key: None,
        path_style: true,
    }
}

#[test]
fn registry_registers_s3_entries_and_the_chosen_default() {
    let cfg = FileStorageConfig {
        s3_backends: vec![s3("s3-primary"), s3("s3-archive")],
        default_backend_id: Some("s3-primary".to_owned()),
        ..FileStorageConfig::default()
    };
    let plan = build_backend_registry(&cfg).expect("s3-primary is registered");
    assert_eq!(plan.s3_ids, vec!["s3-primary".to_owned(), "s3-archive".to_owned()]);
    assert_eq!(plan.default_id, "s3-primary");
    let memory_default = FileStorageConfig {
        enable_in_memory_backend: true,
        default_backend_id: Some("memory".to_owned()),
        ..FileStorageConfig::default()
    };
    assert_eq!(build_backend_registry(&memory_default).expect("memory").default_id, "memory");
}

#[test]
fn registry_refuses_an_unknown_default() {
    let cfg = FileStorageConfig {
        s3_backends: vec![s3("s3-primary")],
        default_backend_id: Some("s3-other".to_owned()),
        ..FileStorageConfig::default()
    };
    assert!(matches!(
        build_backend_registry(&cfg),
        Err(DomainError::UnknownBackend { backend_id }) if backend_id == "s3-other"
    ));
    let no_memory = FileStorageConfig {
        default_backend_id: Some("memory".to_owned()),
        ..FileStorageConfig::default()
    };
    assert!(build_backend_registry(&no_memory).is_err());
}

#[test]
fn unicode_whitespace_is_trimmed_like_str_trim() {
    assert_eq!(parse_meta_version(Some("\u{3000}\t42\u{a0}\n")), Some(42));
    assert_eq!(parse_meta_version(Some("\u{200b}42")), None);
    assert_eq!(check_delete_precondition(Some("\u{2028}*\u{85}"), None), Ok(()));
    assert_eq!(file_storage::text::trim(" \u{1680}a b\u{202f} "), "a b");
}

#[test]
fn init_checks_the_config_before_the_registry() {
    // the default config requires a seed and has none, and names a bad default
    let cfg = FileStorageConfig {
        default_backend_id: Some("nowhere".to_owned()),
        ..FileStorageConfig::default()
    };
    let err = prepare_init(&cfg).err().expect("refused");
    assert!(matches!(err, InitError::Config(ConfigError::MissingSigningKeySeed)));
    assert!(err.message().starts_with("invalid file-storage config: signing_key_seed is required"));
}

#[test]
fn init_checks_the_registry_before_the_seed() {
    let cfg = FileStorageConfig {
        default_backend_id: Some("nowhere".to_owned()),
        signing_key_seed: Some("%%%".to_owned()),
        ..FileStorageConfig::default()
    };
    let err = prepare_init(&cfg).err().expect("refused");
    assert!(matches!(
        err,
        InitError::Registry(DomainError::UnknownBackend { ref backend_id }) if backend_id == "nowhere"
    ));
    assert_eq!(err.message(), "backend registry: Unknown storage backend: 'nowhere'");
}

#[test]
fn init_refuses_a_malformed_seed() {
    let cfg = FileStorageConfig { signing_key_seed: Some("%%%".to_owned()), ..FileStorageConfig::default() };
    let err = prepare_init(&cfg).err().expect("refused");
    assert!(matches!(err, InitError::SigningKeySeed(_)));
    assert!(err.message().starts_with("invalid file-storage signing_key_seed: "));
}

#[test]
fn init_plan_from_a_valid_config() {
    let cfg = FileStorageConfig {
        signing_key_seed: Some(" AQID ".to_owned()),
        max_url_ttl_secs: u64::MAX,
        ..FileStorageConfig::default()
    };
    let plan = prepare_init(&cfg).ok().expect("accepted");
    assert_eq!(plan.signing_seed, Some(vec![1, 2, 3]));
    assert_eq!(plan.issuer_max_ttl, i64::MAX);
    assert_eq!(plan.registry.default_id, LOCAL_FS_ID);
    assert_eq!(plan.registry.local_root, "./.file-storage-data");
    assert_eq!(plan.service.default_url_ttl_secs, 900);
    let dev = FileStorageConfig { require_signing_key_seed: false, ..FileStorageConfig::default() };
    assert_eq!(prepare_init(&dev).ok().expect("accepted").signing_seed, None);
}

#[test]
fn deleting_debits_usage() {
    let vs = vec![version(2, 5), version(3, 7)];
    let d = file_delete_usage(10, 11, &vs);
    assert_eq!((d.tenant_id, d.owner_id, d.bytes_delta, d.file_count_delta), (10, 11, -12, -1));
    let d = version_delete_usage(10, 11, &vs[1]);
    assert_eq!((d.bytes_delta, d.file_count_delta), (-7, 0));
}
