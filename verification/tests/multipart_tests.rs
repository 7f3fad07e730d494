use file_storage::error::DomainError;
use file_storage::multipart::{
    actor_kind, assembled_size, backend_parts, backend_path, check_assembled_size,
    check_assembled_within_limit, check_declared_within_limit, check_multipart_capable,
    part_upload_url, session_expiry, validate_part_report, validate_session_for_abort,
    validate_session_for_complete, version_backend_id, version_removed_error, MultipartPart,
    MultipartUploadSession, MultipartUploadState, NANOS_PER_SEC, QuotaDecision, quota_verdict,
};

fn session(state: MultipartUploadState, expires_at: i128) -> MultipartUploadSession {
    MultipartUploadSession {
        upload_id: 9,
        file_id: 1,
        version_id: 2,
        backend_upload_handle: "h".to_owned(),
        state,
        declared_mime: "video/mp4".to_owned(),
        declared_size: 10,
        mime_validated: false,
        created_at: 0,
        expires_at,
    }
}

fn part(n: u32, size: i64) -> MultipartPart {
    MultipartPart {
        upload_id: 9,
        part_number: n,
        backend_etag: format!("etag-{n}"),
        part_hash: vec![],
        size,
        uploaded_at: 0,
    }
}

#[test]
fn multipart_state_spellings_round_trip() {
    for st in [
        MultipartUploadState::InProgress,
        MultipartUploadState::Completed,
        MultipartUploadState::Aborted,
    ] {
        assert_eq!(MultipartUploadState::parse(st.as_str()), Some(st));
    }
    assert_eq!(MultipartUploadState::parse("in_progress"), Some(MultipartUploadState::InProgress));
    assert_eq!(MultipartUploadState::parse("done"), None);
}

#[test]
fn part_report_requires_a_matching_live_session() {
    let live = session(MultipartUploadState::InProgress, 100);
    assert_eq!(validate_part_report(Some(&live), 9, 1, 2, 3), Ok(3));
    assert_eq!(
        validate_part_report(None, 9, 1, 2, 3),
        Err(DomainError::MultipartUploadNotFound { upload_id: 9 })
    );
    assert_eq!(
        validate_part_report(Some(&live), 9, 1, 5, 3),
        Err(DomainError::MultipartUploadNotFound { upload_id: 9 })
    );
    let done = session(MultipartUploadState::Completed, 100);
    assert_eq!(
        validate_part_report(Some(&done), 9, 1, 2, 3),
        Err(DomainError::MultipartUploadNotInProgress { upload_id: 9, state: "completed".to_owned() })
    );
    assert!(matches!(
        validate_part_report(Some(&live), 9, 1, 2, u32::MAX),
        Err(DomainError::Validation { .. })
    ));
}

#[test]
fn complete_refuses_expired_sessions() {
    let live = session(MultipartUploadState::InProgress, 100);
    assert_eq!(validate_session_for_complete(Some(&live), 1, 9, 99), Ok(()));
    assert_eq!(
        validate_session_for_complete(Some(&live), 1, 9, 100),
        Err(DomainError::MultipartUploadNotInProgress { upload_id: 9, state: "expired".to_owned() })
    );
    assert_eq!(
        validate_session_for_complete(Some(&live), 7, 9, 0),
        Err(DomainError::MultipartUploadNotFound { upload_id: 9 })
    );
}

#[test]
fn abort_requires_in_progress() {
    let aborted = session(MultipartUploadState::Aborted, 100);
    assert_eq!(
        validate_session_for_abort(Some(&aborted), 1, 9),
        Err(DomainError::MultipartUploadNotInProgress { upload_id: 9, state: "aborted".to_owned() })
    );
    let live = session(MultipartUploadState::InProgress, 0);
    assert_eq!(validate_session_for_abort(Some(&live), 1, 9), Ok(()));
}

#[test]
fn assembled_size_sums_parts_and_matches_declared() {
    let parts = vec![part(1, 6), part(2, 4)];
    assert_eq!(assembled_size(&parts), 10);
    assert_eq!(check_assembled_size(9, 10, 10), Ok(()));
    assert_eq!(check_assembled_size(9, 7, 0), Ok(()));
    assert_eq!(
        check_assembled_size(9, 7, 10),
        Err(DomainError::Conflict {
            message: "multipart upload 00000000-0000-0000-0000-000000000009: assembled size 7 does not match declared_size 10".to_owned()
        })
    );
}

#[test]
fn size_limits_refuse_oversized_uploads() {
    assert_eq!(check_assembled_within_limit(None, 1 << 40), Ok(()));
    assert_eq!(check_assembled_within_limit(Some(10), 10), Ok(()));
    assert_eq!(
        check_assembled_within_limit(Some(10), 11),
        Err(DomainError::PolicySizeExceeded { limit_bytes: 10, limit_source: "policy size limit".to_owned() })
    );
    assert_eq!(check_declared_within_limit(Some(10), 10), Ok(()));
    assert!(check_declared_within_limit(Some(10), 11).is_err());
    assert_eq!(check_multipart_capable(true, "s3"), Ok(()));
    assert_eq!(
        check_multipart_capable(false, "local-fs"),
        Err(DomainError::MultipartNotSupported { backend_id: "local-fs".to_owned() })
    );
}

#[test]
fn session_expiry_adds_the_ttl() {
    assert_eq!(NANOS_PER_SEC, 1_000_000_000);
    assert_eq!(session_expiry(5, 60), 5 + 60 * NANOS_PER_SEC);
    assert_eq!(session_expiry(5, 0), 5 + NANOS_PER_SEC);
}

#[test]
fn backend_path_and_actor() {
    assert_eq!(
        backend_path(1, 2),
        "/00000000-0000-0000-0000-000000000001/00000000-0000-0000-0000-000000000002"
    );
    assert_eq!(actor_kind(Some("app")), "app");
    assert_eq!(actor_kind(Some("user")), "user");
    assert_eq!(actor_kind(None), "user");
    assert_eq!(version_backend_id(Some("s3"), "local-fs"), "s3");
    assert_eq!(version_backend_id(None, "local-fs"), "local-fs");
}

#[test]
fn backend_parts_keep_order() {
    let parts = vec![part(1, 6), part(2, 4)];
    assert_eq!(
        backend_parts(&parts),
        vec![(1, "etag-1".to_owned()), (2, "etag-2".to_owned())]
    );
}

#[test]
fn removed_version_is_a_conflict() {
    assert_eq!(
        version_removed_error(9),
        DomainError::Conflict {
            message: "multipart upload 00000000-0000-0000-0000-000000000009: version row was removed before completion".to_owned()
        }
    );
}

#[test]
fn part_upload_url_points_at_the_sidecar() {
    assert_eq!(
        part_upload_url("http://sc", 1, 2, 3, "tok"),
        "http://sc/api/file-storage-data/v1/multipart/00000000-0000-0000-0000-000000000001/00000000-0000-0000-0000-000000000002/parts/3?fs-token=tok"
    );
}

#[test]
fn quota_denials_carry_their_reason() {
    assert_eq!(quota_verdict(None), Ok(()));
    assert_eq!(quota_verdict(Some(QuotaDecision::Allowed)), Ok(()));
    assert_eq!(
        quota_verdict(Some(QuotaDecision::Denied { reason: "tenant over quota".to_owned() })),
        Err(DomainError::QuotaExceeded { reason: "tenant over quota".to_owned() })
    );
}
