use file_storage::abort_flow::{abort_start, abort_step, AbortAction, AbortEvent, AbortState};
use file_storage::complete_flow::{
    complete_start, complete_step, CompleteAction, CompleteEvent, CompleteState,
};
use file_storage::error::DomainError;
use file_storage::multipart::{MultipartPart, MultipartUploadSession, MultipartUploadState};

fn session(state: MultipartUploadState, file_id: u128, expires_at: i128) -> MultipartUploadSession {
    MultipartUploadSession {
        upload_id: 9,
        file_id,
        version_id: 2,
        backend_upload_handle: "h".to_owned(),
        state,
        declared_mime: "video/mp4".to_owned(),
        declared_size: 10,
        mime_validated: false,
        created_at: 0,
        expires_at,
    }
}

fn part(n: u32, size: i64) -> MultipartPart {
    MultipartPart {
        upload_id: 9,
        part_number: n,
        backend_etag: format!("etag-{n}"),
        part_hash: vec![],
        size,
        uploaded_at: 0,
    }
}

fn abort_finish(a: AbortAction) -> Result<(), DomainError> {
    match a {
        AbortAction::Finish { result } => result,
        _ => panic!("expected the abort to finish"),
    }
}

/// An abort that has loaded a live session of file 1.
fn abort_live() -> AbortState {
    let (s, a) = abort_start(1, 9, "local-fs".to_owned());
    assert!(matches!(a, AbortAction::Authorize { file_id: 1 }));
    let (s, a) = abort_step(s, AbortEvent::Authorized { result: Ok(()) });
    assert!(matches!(a, AbortAction::LoadSession { upload_id: 9 }));
    let (s, a) = abort_step(
        s,
        AbortEvent::SessionLoaded {
            result: Ok(Some(session(MultipartUploadState::InProgress, 1, 100))),
        },
    );
    assert!(matches!(a, AbortAction::LoadVersion { file_id: 1, version_id: 2 }));
    s
}

#[test]
fn abort_runs_through_to_success() {
    let s = abort_live();
    let (s, a) = abort_step(s, AbortEvent::VersionLoaded { result: Ok(None) });
    match a {
        AbortAction::AbortOnBackend { backend_id, backend_path, backend_upload_handle } => {
            assert_eq!(backend_id, "local-fs");
            assert_eq!(
                backend_path,
                "/00000000-0000-0000-0000-000000000001/00000000-0000-0000-0000-000000000002"
            );
            assert_eq!(backend_upload_handle, "h");
        },
        _ => panic!("expected the backend abort"),
    }
    let (s, a) = abort_step(s, AbortEvent::BackendAborted { result: Ok(()) });
    assert!(matches!(a, AbortAction::MarkAborted { upload_id: 9 }));
    let (s, a) = abort_step(s, AbortEvent::MarkedAborted { result: Ok(true) });
    assert!(matches!(a, AbortAction::DeletePendingVersion { file_id: 1, version_id: 2 }));
    let (_, a) = abort_step(s, AbortEvent::PendingDeleted { result: Ok(false) });
    assert_eq!(abort_finish(a), Ok(()));
}

#[test]
fn abort_uses_the_backend_the_version_names() {
    let s = abort_live();
    let (_, a) = abort_step(s, AbortEvent::VersionLoaded { result: Ok(Some("s3-main".to_owned())) });
    assert!(matches!(a, AbortAction::AbortOnBackend { ref backend_id, .. } if backend_id == "s3-main"));
}

#[test]
fn abort_refuses_missing_foreign_and_finished_sessions() {
    let (s, _) = abort_start(1, 9, "local-fs".to_owned());
    let (s, _) = abort_step(s, AbortEvent::Authorized { result: Ok(()) });
    let (_, a) = abort_step(s, AbortEvent::SessionLoaded { result: Ok(None) });
    assert_eq!(abort_finish(a), Err(DomainError::MultipartUploadNotFound { upload_id: 9 }));

    let (s, _) = abort_start(1, 9, "local-fs".to_owned());
    let (s, _) = abort_step(s, AbortEvent::Authorized { result: Ok(()) });
    let foreign = session(MultipartUploadState::InProgress, 7, 100);
    let (_, a) = abort_step(s, AbortEvent::SessionLoaded { result: Ok(Some(foreign)) });
    assert_eq!(abort_finish(a), Err(DomainError::MultipartUploadNotFound { upload_id: 9 }));

    let (s, _) = abort_start(1, 9, "local-fs".to_owned());
    let (s, _) = abort_step(s, AbortEvent::Authorized { result: Ok(()) });
    let done = session(MultipartUploadState::Completed, 1, 100);
    let (_, a) = abort_step(s, AbortEvent::SessionLoaded { result: Ok(Some(done)) });
    assert_eq!(
        abort_finish(a),
        Err(DomainError::MultipartUploadNotInProgress { upload_id: 9, state: "completed".to_owned() })
    );
}

#[test]
fn abort_stops_when_the_swap_is_lost() {
    let s = abort_live();
    let (s, _) = abort_step(s, AbortEvent::VersionLoaded { result: Ok(None) });
    let (s, _) = abort_step(s, AbortEvent::BackendAborted { result: Ok(()) });
    let (_, a) = abort_step(s, AbortEvent::MarkedAborted { result: Ok(false) });
    assert_eq!(
        abort_finish(a),
        Err(DomainError::MultipartUploadNotInProgress {
            upload_id: 9,
            state: "in_progress".to_owned()
        })
    );
}

#[test]
fn abort_passes_on_a_denied_authorization() {
    let (s, _) = abort_start(1, 9, "local-fs".to_owned());
    let (_, a) = abort_step(s, AbortEvent::Authorized { result: Err(DomainError::Forbidden) });
    assert_eq!(abort_finish(a), Err(DomainError::Forbidden));
}

fn complete_finish(a: CompleteAction) -> Result<(), DomainError> {
    match a {
        CompleteAction::Finish { result } => result,
        _ => panic!("expected the completion to finish"),
    }
}

/// A completion that has loaded a live session of file 1 at time 50.
fn complete_live() -> CompleteState {
    let (s, _) = complete_start(1, 9, "local-fs".to_owned());
    let (s, _) = complete_step(s, CompleteEvent::Authorized { result: Ok(()) });
    let (s, a) = complete_step(
        s,
        CompleteEvent::SessionLoaded {
            result: Ok(Some(session(MultipartUploadState::InProgress, 1, 100))),
            now: 50,
        },
    );
    assert!(matches!(a, CompleteAction::LoadParts { upload_id: 9, file_id: 1, version_id: 2 }));
    s
}

/// A completion with parts of sizes 4 and 6 whose backend was found.
fn complete_sized() -> CompleteState {
    let s = complete_live();
    let (s, a) = complete_step(
        s,
        CompleteEvent::PartsLoaded { result: Ok((vec![part(1, 4), part(2, 6)], None)) },
    );
    assert!(matches!(a, CompleteAction::ResolveBackend { ref backend_id } if backend_id == "local-fs"));
    let (s, a) = complete_step(s, CompleteEvent::BackendResolved { result: Ok(()) });
    assert!(matches!(
        a,
        CompleteAction::ResolveLimit { ref declared_mime, ref backend_id }
            if declared_mime == "video/mp4" && backend_id == "local-fs"
    ));
    s
}

#[test]
fn complete_runs_through_to_success() {
    let s = complete_sized();
    let (s, a) = complete_step(s, CompleteEvent::LimitResolved { result: Ok(Some(10)) });
    match a {
        CompleteAction::Assemble { backend_id, backend_upload_handle, parts, .. } => {
            assert_eq!(backend_id, "local-fs");
            assert_eq!(backend_upload_handle, "h");
            assert_eq!(parts, vec![(1, "etag-1".to_owned()), (2, "etag-2".to_owned())]);
        },
        _ => panic!("expected the assembly"),
    }
    let (s, a) = complete_step(s, CompleteEvent::Assembled { result: Ok(vec![7]) });
    assert!(matches!(
        a,
        CompleteAction::FinalizeVersion { file_id: 1, version_id: 2, total_size: 10, ref content_hash }
            if content_hash == &vec![7u8]
    ));
    let (s, a) = complete_step(s, CompleteEvent::Finalized { result: Ok(true) });
    assert!(matches!(a, CompleteAction::MarkCompleted { upload_id: 9 }));
    let (_, a) = complete_step(s, CompleteEvent::MarkedCompleted { result: Ok(true) });
    assert_eq!(complete_finish(a), Ok(()));
}

#[test]
fn complete_refuses_an_expired_session() {
    let (s, _) = complete_start(1, 9, "local-fs".to_owned());
    let (s, _) = complete_step(s, CompleteEvent::Authorized { result: Ok(()) });
    let (_, a) = complete_step(
        s,
        CompleteEvent::SessionLoaded {
            result: Ok(Some(session(MultipartUploadState::InProgress, 1, 100))),
            now: 100,
        },
    );
    assert_eq!(
        complete_finish(a),
        Err(DomainError::MultipartUploadNotInProgress { upload_id: 9, state: "expired".to_owned() })
    );
}

#[test]
fn complete_refuses_a_size_mismatch_before_assembly() {
    let s = complete_live();
    let (s, _) = complete_step(s, CompleteEvent::PartsLoaded { result: Ok((vec![part(1, 4)], None)) });
    let (_, a) = complete_step(s, CompleteEvent::BackendResolved { result: Ok(()) });
    assert_eq!(
        complete_finish(a),
        Err(DomainError::Conflict {
            message: "multipart upload 00000000-0000-0000-0000-000000000009: assembled size 4 does not match declared_size 10"
                .to_owned()
        })
    );
}

#[test]
fn complete_refuses_a_size_over_the_limit() {
    let s = complete_sized();
    let (_, a) = complete_step(s, CompleteEvent::LimitResolved { result: Ok(Some(9)) });
    assert_eq!(
        complete_finish(a),
        Err(DomainError::PolicySizeExceeded {
            limit_bytes: 9,
            limit_source: "policy size limit".to_owned()
        })
    );
}

#[test]
fn complete_reports_a_vanished_version_row() {
    let s = complete_sized();
    let (s, _) = complete_step(s, CompleteEvent::LimitResolved { result: Ok(None) });
    let (s, _) = complete_step(s, CompleteEvent::Assembled { result: Ok(vec![]) });
    let (_, a) = complete_step(s, CompleteEvent::Finalized { result: Ok(false) });
    assert_eq!(
        complete_finish(a),
        Err(DomainError::Conflict {
            message: "multipart upload 00000000-0000-0000-0000-000000000009: version row was removed before completion"
                .to_owned()
        })
    );
}

#[test]
fn complete_fails_when_the_swap_is_lost() {
    let s = complete_sized();
    let (s, _) = complete_step(s, CompleteEvent::LimitResolved { result: Ok(None) });
    let (s, _) = complete_step(s, CompleteEvent::Assembled { result: Ok(vec![]) });
    let (s, _) = complete_step(s, CompleteEvent::Finalized { result: Ok(true) });
    let (_, a) = complete_step(s, CompleteEvent::MarkedCompleted { result: Ok(false) });
    assert_eq!(
        complete_finish(a),
        Err(DomainError::MultipartUploadNotInProgress {
            upload_id: 9,
            state: "in_progress".to_owned()
        })
    );
}

use file_storage::initiate_flow::{
    initiate_start, initiate_step, InitiateAction, InitiateEvent, InitiateState, MultipartPlan,
    PlanDraft,
};
use file_storage::multipart::QuotaDecision;

fn initiate(native: bool) -> InitiateState {
    let (s, a) = initiate_start(
        1,
        "video/mp4".to_owned(),
        10,
        None,
        "s3".to_owned(),
        native,
        0,
        "http://sc".to_owned(),
    );
    assert!(matches!(a, InitiateAction::Authorize { file_id: 1 }));
    s
}

fn initiate_finish(a: InitiateAction) -> Result<MultipartPlan, DomainError> {
    match a {
        InitiateAction::Finish { result } => result,
        _ => panic!("expected the initiation to finish"),
    }
}

/// An initiation that passed every check with the given limit.
fn initiate_checked(limit: Option<u64>) -> InitiateState {
    let s = initiate(true);
    let (s, a) = initiate_step(s, InitiateEvent::Authorized { result: Ok(()) });
    assert!(matches!(
        a,
        InitiateAction::ResolvePolicy { ref declared_mime, ref backend_id }
            if declared_mime == "video/mp4" && backend_id == "s3"
    ));
    let (s, a) = initiate_step(s, InitiateEvent::PolicyResolved { result: Ok(limit) });
    assert!(matches!(a, InitiateAction::CheckQuota { additional_bytes: 10 }));
    let (s, a) = initiate_step(s, InitiateEvent::QuotaChecked { result: Ok(Some(QuotaDecision::Allowed)) });
    assert!(matches!(a, InitiateAction::Plan { declared_size: 10, preferred_part_size: None }));
    s
}

fn draft() -> PlanDraft {
    PlanDraft { upload_id: 9, version_id: 2, now: 5, part_size: 6, parts: vec![(1, 0, 6), (2, 6, 4)] }
}

const PATH: &str = "/00000000-0000-0000-0000-000000000001/00000000-0000-0000-0000-000000000002";

#[test]
fn initiate_runs_through_to_a_plan() {
    let s = initiate_checked(Some(10));
    let (s, a) = initiate_step(s, InitiateEvent::Planned { draft: draft() });
    match a {
        InitiateAction::InsertPendingVersion { file_id, version_id, declared_mime, backend_id, backend_path, now } => {
            assert_eq!((file_id, version_id, now), (1, 2, 5));
            assert_eq!(declared_mime, "video/mp4");
            assert_eq!(backend_id, "s3");
            assert_eq!(backend_path, PATH);
        },
        _ => panic!("expected the pending version"),
    }
    let (s, a) = initiate_step(s, InitiateEvent::PendingInserted { result: Ok(()) });
    assert!(matches!(a, InitiateAction::InitiateOnBackend { ref backend_path, .. } if backend_path == PATH));
    let (s, a) = initiate_step(s, InitiateEvent::BackendInitiated { result: Ok("h".to_owned()) });
    match a {
        InitiateAction::CreateSession { upload_id, backend_upload_handle, part_size, expires_at, .. } => {
            assert_eq!(upload_id, 9);
            assert_eq!(backend_upload_handle, "h");
            assert_eq!(part_size, 6);
            // a TTL under one second counts as one second
            assert_eq!(expires_at, 1_000_000_005);
        },
        _ => panic!("expected the session row"),
    }
    let (s, a) = initiate_step(s, InitiateEvent::SessionCreated { result: Ok(()) });
    assert!(matches!(a, InitiateAction::MintTokens { ref parts, .. } if parts == &vec![(1, 0, 6), (2, 6, 4)]));
    let (_, a) = initiate_step(
        s,
        InitiateEvent::TokensMinted { result: Ok(vec!["t1".to_owned(), "t2".to_owned()]) },
    );
    let plan = initiate_finish(a).ok().unwrap();
    assert_eq!((plan.upload_id, plan.version_id, plan.part_size), (9, 2, 6));
    assert_eq!(plan.part_hash_algorithm, "SHA-256");
    assert_eq!(plan.parts.len(), 2);
    assert_eq!((plan.parts[1].part_number, plan.parts[1].offset, plan.parts[1].size), (2, 6, 4));
    assert_eq!(
        plan.parts[1].upload_url,
        "http://sc/api/file-storage-data/v1/multipart/00000000-0000-0000-0000-000000000001/00000000-0000-0000-0000-000000000002/parts/2?fs-token=t2"
    );
}

#[test]
fn initiate_refuses_a_backend_without_multipart() {
    let s = initiate(false);
    let (_, a) = initiate_step(s, InitiateEvent::Authorized { result: Ok(()) });
    assert_eq!(
        initiate_finish(a).err(),
        Some(DomainError::MultipartNotSupported { backend_id: "s3".to_owned() })
    );
}

#[test]
fn initiate_refuses_a_declared_size_over_the_limit() {
    let s = initiate(true);
    let (s, _) = initiate_step(s, InitiateEvent::Authorized { result: Ok(()) });
    let (_, a) = initiate_step(s, InitiateEvent::PolicyResolved { result: Ok(Some(9)) });
    assert_eq!(
        initiate_finish(a).err(),
        Some(DomainError::PolicySizeExceeded { limit_bytes: 9, limit_source: "policy size limit".to_owned() })
    );
}

#[test]
fn initiate_passes_on_a_refused_mime_type() {
    let s = initiate(true);
    let (s, _) = initiate_step(s, InitiateEvent::Authorized { result: Ok(()) });
    let refusal = DomainError::PolicyMimeNotAllowed { mime_type: "video/mp4".to_owned() };
    let (_, a) = initiate_step(s, InitiateEvent::PolicyResolved { result: Err(refusal.clone()) });
    assert_eq!(initiate_finish(a).err(), Some(refusal));
}

#[test]
fn initiate_refuses_a_quota_denial() {
    let s = initiate(true);
    let (s, _) = initiate_step(s, InitiateEvent::Authorized { result: Ok(()) });
    let (s, _) = initiate_step(s, InitiateEvent::PolicyResolved { result: Ok(None) });
    let (_, a) = initiate_step(
        s,
        InitiateEvent::QuotaChecked { result: Ok(Some(QuotaDecision::Denied { reason: "full".to_owned() })) },
    );
    assert_eq!(initiate_finish(a).err(), Some(DomainError::QuotaExceeded { reason: "full".to_owned() }));
}

#[test]
fn initiate_cleans_up_after_a_failed_session_row() {
    let s = initiate_checked(None);
    let (s, _) = initiate_step(s, InitiateEvent::Planned { draft: draft() });
    let (s, _) = initiate_step(s, InitiateEvent::PendingInserted { result: Ok(()) });
    let (s, _) = initiate_step(s, InitiateEvent::BackendInitiated { result: Ok("h".to_owned()) });
    let db = DomainError::Database { message: "down".to_owned() };
    let (s, a) = initiate_step(s, InitiateEvent::SessionCreated { result: Err(db.clone()) });
    match a {
        InitiateAction::Compensate { backend_path, backend_upload_handle, file_id, version_id } => {
            assert_eq!(backend_path, PATH);
            assert_eq!(backend_upload_handle, "h");
            assert_eq!((file_id, version_id), (1, 2));
        },
        _ => panic!("expected the cleanup"),
    }
    let (_, a) = initiate_step(s, InitiateEvent::Compensated);
    assert_eq!(initiate_finish(a).err(), Some(db));
}
