use file_storage::error::{DomainError, ProblemKind, ViolationKind};

#[test]
fn not_found_names_the_file() {
    let p = DomainError::file_not_found(0x67e5504410b1426f9247bb680e5fe0c8).to_problem();
    assert_eq!(p.kind, ProblemKind::NotFound);
    assert!(p.file_resource);
    assert_eq!(
        p.detail.as_deref(),
        Some("File 67e55044-10b1-426f-9247-bb680e5fe0c8 not found")
    );
    assert_eq!(p.resource.as_deref(), Some("67e55044-10b1-426f-9247-bb680e5fe0c8"));
}

#[test]
fn validation_is_a_field_violation() {
    let p = DomainError::validation("owner_kind", "must be 'user' or 'app'").to_problem();
    assert_eq!(p.kind, ProblemKind::InvalidArgument);
    let v = p.violation.expect("field violation");
    assert_eq!(v.kind, ViolationKind::Field);
    assert_eq!(v.subject, "owner_kind");
    assert_eq!(v.description, "must be 'user' or 'app'");
    assert_eq!(v.code.as_deref(), Some("VALIDATION"));
}

#[test]
fn internal_errors_do_not_leak_their_cause() {
    let p = DomainError::database("connection refused at 10.0.0.7:5432").to_problem();
    assert_eq!(p.kind, ProblemKind::Internal);
    assert!(!p.file_resource);
    assert_eq!(p.detail.as_deref(), Some("internal database error"));
    assert!(p.violation.is_none());
    let p = DomainError::backend("s3", "secret bucket path /x/y").to_problem();
    assert_eq!(p.detail.as_deref(), Some("storage backend error"));
}

#[test]
fn size_limit_problem_is_out_of_range() {
    let p = DomainError::policy_size_exceeded(10, "policy size limit").to_problem();
    assert_eq!(p.kind, ProblemKind::OutOfRange);
    assert_eq!(
        p.detail.as_deref(),
        Some("file size exceeds limit of 10 bytes (policy size limit)")
    );
    let v = p.violation.expect("size violation");
    assert_eq!(v.subject, "size");
    assert_eq!(v.code.as_deref(), Some("POLICY_SIZE_EXCEEDED"));
}

#[test]
fn quota_and_precondition_problems() {
    let p = DomainError::quota_exceeded("over quota").to_problem();
    assert_eq!(p.kind, ProblemKind::ResourceExhausted);
    assert_eq!(p.violation.expect("quota").kind, ViolationKind::Quota);
    let p = DomainError::precondition_failed("stale").to_problem();
    assert_eq!(p.kind, ProblemKind::FailedPrecondition);
    let v = p.violation.expect("precondition");
    assert_eq!(v.subject, "content");
    assert_eq!(v.code.as_deref(), Some("IF_MATCH"));
    let p = DomainError::conflict("busy").to_problem();
    assert_eq!(p.kind, ProblemKind::Aborted);
    assert_eq!(p.reason.as_deref(), Some("CONFLICT"));
    let p = DomainError::token_invalid("expired").to_problem();
    assert_eq!(p.kind, ProblemKind::PermissionDenied);
    assert_eq!(p.reason.as_deref(), Some("INVALID_TOKEN: expired"));
}

#[test]
fn multipart_problems() {
    let p = DomainError::multipart_upload_not_in_progress(1, "aborted").to_problem();
    assert_eq!(p.kind, ProblemKind::Aborted);
    assert_eq!(
        p.detail.as_deref(),
        Some("Multipart upload session 00000000-0000-0000-0000-000000000001 is not in progress (state: aborted)")
    );
    let p = DomainError::multipart_not_supported("local-fs").to_problem();
    assert_eq!(
        p.violation.expect("field").description,
        "backend 'local-fs' does not support multipart upload"
    );
}

#[test]
fn descriptions_follow_the_error_messages() {
    assert_eq!(
        DomainError::file_not_found(1).describe(),
        "File not found: 00000000-0000-0000-0000-000000000001"
    );
    assert_eq!(
        DomainError::validation("name", "empty").describe(),
        "Validation failed: name: empty"
    );
    assert_eq!(DomainError::conflict("busy").describe(), "Conflict: busy");
    assert_eq!(
        DomainError::mime_mismatch("a/b", "c/d"),
        DomainError::MimeMismatch { declared: "a/b".to_owned(), detected: "c/d".to_owned() }
    );
    assert_eq!(
        DomainError::hash_mismatch("x", "y").to_problem().violation.expect("hash").description,
        "expected x, got y"
    );
}

#[test]
fn field_problems_for_type_and_backend() {
    let v = DomainError::invalid_gts_type("bad~").to_problem().violation.expect("field");
    assert_eq!(v.subject, "gts_file_type");
    assert_eq!(v.description, "invalid GTS type: bad~");
    assert_eq!(v.code.as_deref(), Some("INVALID_GTS_TYPE"));
    let v = DomainError::unknown_backend("s9").to_problem().violation.expect("field");
    assert_eq!(v.subject, "backend_id");
    assert_eq!(v.description, "unknown backend s9");
}
