use file_storage::authz::{AccessScope, Authorizer, TenantOnlyAuthorizer};
use file_storage::dto::{
    require_owner_kind, require_policy_scope, require_retention_scope, retention_rule_deleted,
    AgeRetentionDto, BackendCapabilities, CreateFileReq, EffectivePolicyDto, FileDto,
    MetadataEntryDto, MimeSizeOverrideDto, MultipartSessionDto, PolicyBodyDto, PolicyDto,
    RetentionRuleBodyDto, RetentionRuleDto, SizeLimitsDto, StorageDto, UpdateMetadataReq,
    VersionDto,
};
use file_storage::error::DomainError;
use file_storage::models::{
    CustomMetadataEntry, File, FileVersion, OwnerKind, VersionStatus,
};
use file_storage::multipart::{MultipartUploadSession, MultipartUploadState};
use file_storage::policy::{
    AgeRetention, InactivityRetention, MetadataLimits, MetadataRetention, MimeSizeOverride,
    PolicyBody, PolicyResolver, PolicyScope, RetentionRuleBody, RetentionScope, SizeLimits,
    StoredPolicy, StoredRetentionRule,
};

fn sample_body() -> PolicyBody {
    PolicyBody {
        allowed_mime_types: vec!["image/jpeg".to_owned(), "video/*".to_owned()],
        size_limits: SizeLimits {
            max_bytes: Some(100 * 1024 * 1024),
            per_mime: vec![MimeSizeOverride {
                mime: "video/*".to_owned(),
                max_bytes: 1_000_000_000,
            }],
        },
        metadata_limits: MetadataLimits {
            max_pairs: Some(50),
            max_key_len: Some(128),
            max_value_len: Some(512),
            max_total_bytes: Some(4096),
        },
        enabled_event_types: vec!["file.created".to_owned()],
    }
}

#[test]
fn policy_body_survives_a_dto_round_trip() {
    let body = sample_body();
    let dto = PolicyBodyDto::from_domain(body.clone());
    assert_eq!(dto.size_limits.per_mime[0].mime, "video/*");
    assert_eq!(dto.metadata_limits.max_total_bytes, Some(4096));
    assert_eq!(dto.into_domain(), body);
}

#[test]
fn retention_rule_body_survives_a_dto_round_trip() {
    let body = RetentionRuleBody {
        age: Some(AgeRetention { max_age_days: 365 }),
        inactivity: Some(InactivityRetention { inactivity_days: 90 }),
        metadata: Some(MetadataRetention {
            key: "status".to_owned(),
            value: "expired".to_owned(),
        }),
    };
    let dto = RetentionRuleBodyDto::from_domain(body.clone());
    assert_eq!(dto.age, Some(AgeRetentionDto { max_age_days: 365 }));
    assert_eq!(dto.into_domain(), body);
    let empty = RetentionRuleBody::default();
    assert_eq!(RetentionRuleBodyDto::from_domain(empty.clone()).into_domain(), empty);
}

#[test]
fn flat_conversions_keep_fields() {
    let o = MimeSizeOverrideDto::from(MimeSizeOverride { mime: "a/b".to_owned(), max_bytes: 3 });
    assert_eq!(o.mime, "a/b");
    assert_eq!(MimeSizeOverride::from(o).max_bytes, 3);
    let l = MetadataLimits { max_pairs: Some(1), max_key_len: None, max_value_len: Some(2), max_total_bytes: None };
    assert_eq!(MetadataLimits::from(file_storage::dto::MetadataLimitsDto::from(l)), l);
    let s = SizeLimitsDto::from_domain(SizeLimits { max_bytes: Some(9), per_mime: vec![] });
    assert_eq!(s.max_bytes, Some(9));
    assert!(SizeLimitsDto::default().per_mime.is_empty());
}

#[test]
fn effective_policy_dto_mirrors_the_resolution() {
    let ep = PolicyResolver::resolve(Some(&sample_body()), None);
    let dto = EffectivePolicyDto::from_domain(ep.clone());
    assert_eq!(dto.allowed_mime_types, ep.allowed_mime_types);
    assert_eq!(dto.max_bytes, Some(100 * 1024 * 1024));
    assert_eq!(dto.per_mime_max_bytes.len(), ep.per_mime_max_bytes.len());
    assert_eq!(dto.metadata_limits.max_pairs, Some(50));
}

#[test]
fn storage_listing_entry() {
    let caps = BackendCapabilities { multipart_native: true, encryption_native: false, range_native: true };
    let s = StorageDto::new("s3".to_owned(), caps);
    assert_eq!(s.id, "s3");
    assert!(s.capabilities.multipart_native);
    assert!(!s.capabilities.encryption_native);
    assert!(s.capabilities.range_native);
}

#[test]
fn file_dto_carries_metadata_in_order() {
    let file = File {
        file_id: 1,
        tenant_id: 2,
        owner_kind: OwnerKind::App,
        owner_id: 3,
        name: "a.txt".to_owned(),
        gts_file_type: "gts.x~".to_owned(),
        content_id: Some(4),
        meta_version: 5,
        created_at: 6,
        last_modified_at: 7,
    };
    let meta = vec![
        CustomMetadataEntry { key: "k1".to_owned(), value: "v1".to_owned() },
        CustomMetadataEntry { key: "k2".to_owned(), value: "v2".to_owned() },
    ];
    let dto = FileDto::from_parts(file, meta, Some("\"e\"".to_owned()));
    assert_eq!(dto.owner_kind, "app");
    assert_eq!(dto.meta_version, 5);
    assert_eq!(dto.etag.as_deref(), Some("\"e\""));
    assert_eq!(
        dto.custom_metadata,
        vec![
            MetadataEntryDto { key: "k1".to_owned(), value: "v1".to_owned() },
            MetadataEntryDto { key: "k2".to_owned(), value: "v2".to_owned() },
        ]
    );
}

#[test]
fn version_dto_renders_hash_in_hex() {
    let v = FileVersion {
        file_id: 1,
        version_id: 2,
        mime_type: "text/plain".to_owned(),
        size: 11,
        hash_algorithm: "sha256".to_owned(),
        hash_value: vec![0x00, 0x0f, 0xde, 0xad],
        status: VersionStatus::Pending,
        is_current: true,
        backend_id: "local-fs".to_owned(),
        backend_path: "/1/2".to_owned(),
        created_at: 0,
    };
    let dto = VersionDto::from_version(v);
    assert_eq!(dto.hash, "000fdead");
    assert_eq!(dto.status, "pending");
    assert!(dto.is_current);
}

#[test]
fn create_file_request_is_validated() {
    let req = CreateFileReq {
        owner_kind: "user".to_owned(),
        owner_id: 3,
        name: "a".to_owned(),
        gts_file_type: "t~".to_owned(),
        mime_type: "text/plain".to_owned(),
        custom_metadata: vec![MetadataEntryDto { key: "k".to_owned(), value: "v".to_owned() }],
        idempotency_key: None,
    };
    assert_eq!(req.parse_owner_kind(), Some(OwnerKind::User));
    let n = req.to_new_file().expect("valid request");
    assert_eq!(n.owner_kind, OwnerKind::User);
    assert_eq!(n.custom_metadata[0].key, "k");
    let bad = CreateFileReq { owner_kind: "robot".to_owned(), ..req };
    assert_eq!(bad.parse_owner_kind(), None);
    assert_eq!(
        bad.to_new_file(),
        Err(DomainError::Validation {
            field: "owner_kind".to_owned(),
            message: "must be 'user' or 'app'".to_owned()
        })
    );
}

#[test]
fn scope_and_owner_parsing_errors() {
    assert_eq!(require_policy_scope("tenant"), Ok(PolicyScope::Tenant));
    assert_eq!(
        require_policy_scope("file"),
        Err(DomainError::Validation {
            field: "scope".to_owned(),
            message: "must be 'tenant' or 'user'".to_owned()
        })
    );
    assert_eq!(require_retention_scope("file"), Ok(RetentionScope::File));
    assert_eq!(
        require_retention_scope("x"),
        Err(DomainError::Validation {
            field: "scope".to_owned(),
            message: "must be 'tenant', 'user', or 'file'".to_owned()
        })
    );
    assert_eq!(require_owner_kind("new_owner_kind", "app"), Ok(OwnerKind::App));
    assert!(matches!(
        require_owner_kind("new_owner_kind", "APP"),
        Err(DomainError::Validation { .. })
    ));
    assert_eq!(retention_rule_deleted(true, 5), Ok(()));
    assert_eq!(retention_rule_deleted(false, 5), Err(DomainError::FileNotFound { id: 5 }));
}

#[test]
fn stored_rows_render_with_epoch_times() {
    let p = PolicyDto::from_stored(StoredPolicy {
        policy_id: 1,
        tenant_id: 2,
        scope: PolicyScope::User,
        scope_owner_id: Some(3),
        body: sample_body(),
    });
    assert_eq!(p.scope, "user");
    assert_eq!((p.created_at, p.updated_at), (0, 0));
    assert_eq!(p.body.into_domain(), sample_body());
    let r = RetentionRuleDto::from_stored(StoredRetentionRule {
        rule_id: 4,
        tenant_id: 2,
        scope: RetentionScope::File,
        scope_target_id: Some(9),
        body: RetentionRuleBody::default(),
    });
    assert_eq!(r.scope, "file");
    assert_eq!(r.scope_target_id, Some(9));
}

#[test]
fn multipart_session_dto_spells_the_state() {
    let s = MultipartUploadSession {
        upload_id: 1,
        file_id: 2,
        version_id: 3,
        backend_upload_handle: "h".to_owned(),
        state: MultipartUploadState::InProgress,
        declared_mime: "video/mp4".to_owned(),
        declared_size: 10,
        mime_validated: false,
        created_at: 0,
        expires_at: 99,
    };
    let d = MultipartSessionDto::from_session(s);
    assert_eq!(d.state, "in_progress");
    assert_eq!(d.expires_at, 99);
}

#[test]
fn metadata_patch_keeps_one_entry_per_key() {
    let mut req = UpdateMetadataReq::new();
    req.set("a".to_owned(), Some("1".to_owned()));
    req.set("b".to_owned(), None);
    req.set("a".to_owned(), Some("2".to_owned()));
    let patch = req.into_patch();
    assert_eq!(
        patch.entries,
        vec![("a".to_owned(), Some("2".to_owned())), ("b".to_owned(), None)]
    );
}

#[test]
fn tenant_only_authorizer_scopes_to_the_caller() {
    let a = TenantOnlyAuthorizer::default();
    assert_eq!(
        a.authorize(42, file_storage::authz::actions::DELETE, "gts.x~", Some(1)),
        Ok(AccessScope { tenant_id: 42 })
    );
    assert_eq!(AccessScope::for_tenant(7).tenant_id, 7);
}

#[test]
fn metadata_entries_convert_both_ways() {
    let e = CustomMetadataEntry { key: "k".to_owned(), value: "v".to_owned() };
    let d = MetadataEntryDto::from_entry(e.clone());
    assert_eq!(d, MetadataEntryDto { key: "k".to_owned(), value: "v".to_owned() });
    assert_eq!(d.into_entry(), e);
}
