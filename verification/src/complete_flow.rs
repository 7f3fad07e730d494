//! Completing a multipart upload as a step function. The loop around it
//! authorizes the caller, reads the session, parts and version rows, looks
//! up the backend, resolves the effective size limit, assembles the object
//! on the backend and updates the store.
//!
//! A session that is missing, belongs to another file, is not in progress
//! or has expired is refused before any backend or store write; so is an
//! assembled size that misses the declared size or passes the limit. The
//! completion succeeds only after the version was finalized and the session
//! swapped to `completed`.

use vstd::prelude::*;
use crate::error::DomainError;
use crate::multipart::{
    assembled_size, backend_parts, backend_path, backend_path_of, check_assembled_size,
    check_assembled_within_limit, declared_as_i64, not_found, not_in_progress, sizes_sum,
    validate_session_for_complete, version_backend_id, MultipartPart, MultipartUploadSession,
    MultipartUploadState,
};
use crate::text::{dec_int, uuid_text};

verus! {

/// Where a completion stands.
pub enum CompletePhase {
    Authorizing,
    LoadingSession,
    /// The session is live, the file's own and unexpired; waiting for its
    /// parts and version row.
    LoadingParts { session: MultipartUploadSession },
    /// Waiting for the backend lookup.
    ResolvingBackend { session: MultipartUploadSession, parts: Vec<MultipartPart>, backend_id: String },
    /// The assembled size matches; waiting for the effective size limit.
    ResolvingLimit {
        session: MultipartUploadSession,
        parts: Vec<MultipartPart>,
        backend_id: String,
        total: i64,
    },
    /// Every check passed; waiting for the backend to assemble the object.
    Assembling { session: MultipartUploadSession, total: i64, limit: Option<u64> },
    /// Waiting for the version row to be finalized.
    Finalizing { session: MultipartUploadSession, total: i64, limit: Option<u64> },
    /// Waiting for the store's swap to `completed`.
    MarkingCompleted { session: MultipartUploadSession, total: i64, limit: Option<u64> },
    Done,
}

/// One completion: the file and session named by the path, the registry's
/// default backend, the time the session was read at, and the phase.
pub struct CompleteState {
    pub file_id: u128,
    pub upload_id: u128,
    pub default_backend_id: String,
    pub now: i128,
    pub phase: CompletePhase,
}

/// What the last outside action returned.
pub enum CompleteEvent {
    Authorized { result: Result<(), DomainError> },
    /// The session row, and the current time.
    SessionLoaded { result: Result<Option<MultipartUploadSession>, DomainError>, now: i128 },
    /// The uploaded parts and the backend the version row names.
    PartsLoaded { result: Result<(Vec<MultipartPart>, Option<String>), DomainError> },
    BackendResolved { result: Result<(), DomainError> },
    /// The effective size limit for the session's MIME type on the backend.
    LimitResolved { result: Result<Option<u64>, DomainError> },
    /// The digest of the assembled object.
    Assembled { result: Result<Vec<u8>, DomainError> },
    /// Whether the pending version row was there to finalize.
    Finalized { result: Result<bool, DomainError> },
    /// Whether the swap from `in_progress` to `completed` happened.
    MarkedCompleted { result: Result<bool, DomainError> },
}

/// The next outside action.
pub enum CompleteAction {
    Authorize { file_id: u128 },
    LoadSession { upload_id: u128 },
    LoadParts { upload_id: u128, file_id: u128, version_id: u128 },
    ResolveBackend { backend_id: String },
    ResolveLimit { declared_mime: String, backend_id: String },
    Assemble {
        backend_id: String,
        backend_path: String,
        backend_upload_handle: String,
        parts: Vec<(u32, String)>,
    },
    FinalizeVersion { file_id: u128, version_id: u128, total_size: i64, content_hash: Vec<u8> },
    MarkCompleted { upload_id: u128 },
    Finish { result: Result<(), DomainError> },
}

/// The session may be completed at `now`.
pub open spec fn session_live(ses: MultipartUploadSession, file_id: u128, now: i128) -> bool {
    ses.file_id == file_id && ses.state == MultipartUploadState::InProgress && now < ses.expires_at
}

/// The assembled size matches the declared size, when one was declared.
pub open spec fn size_matches(ses: MultipartUploadSession, total: i64) -> bool {
    !(ses.declared_size > 0 && total != declared_as_i64(ses.declared_size))
}

/// The assembled size is within the effective limit.
pub open spec fn within_limit(limit: Option<u64>, total: i64) -> bool {
    !(limit matches Some(l) && total > 0 && total > l)
}

/// Every check before the backend assembles passed.
pub open spec fn checks_passed(
    ses: MultipartUploadSession,
    file_id: u128,
    now: i128,
    total: i64,
    limit: Option<u64>,
) -> bool {
    session_live(ses, file_id, now) && size_matches(ses, total) && within_limit(limit, total)
}

/// What every reachable state satisfies.
pub open spec fn complete_wf(s: CompleteState) -> bool {
    match s.phase {
        CompletePhase::LoadingParts { session } => session_live(session, s.file_id, s.now),
        CompletePhase::ResolvingBackend { session, .. } => session_live(session, s.file_id, s.now),
        CompletePhase::ResolvingLimit { session, parts, total, .. } => session_live(
            session,
            s.file_id,
            s.now,
        ) && size_matches(session, total) && total == sizes_sum(parts@),
        CompletePhase::Assembling { session, total, limit } => checks_passed(
            session,
            s.file_id,
            s.now,
            total,
            limit,
        ),
        CompletePhase::Finalizing { session, total, limit } => checks_passed(
            session,
            s.file_id,
            s.now,
            total,
            limit,
        ),
        CompletePhase::MarkingCompleted { session, total, limit } => checks_passed(
            session,
            s.file_id,
            s.now,
            total,
            limit,
        ),
        _ => true,
    }
}

/// The state a completion starts in, and its first action.
pub fn complete_start(file_id: u128, upload_id: u128, default_backend_id: String) -> (r: (
    CompleteState,
    CompleteAction,
))
    ensures
        r.0.file_id == file_id && r.0.upload_id == upload_id,
        r.0.default_backend_id == default_backend_id,
        r.0.phase is Authorizing,
        r.1 == (CompleteAction::Authorize { file_id }),
        complete_wf(r.0),
{
    (
        CompleteState { file_id, upload_id, default_backend_id, now: 0, phase: CompletePhase::Authorizing },
        CompleteAction::Authorize { file_id },
    )
}

/// Each phase expects the answer to the action it asked for.
pub open spec fn complete_event_fits(p: CompletePhase, e: CompleteEvent) -> bool {
    match p {
        CompletePhase::Authorizing => e is Authorized,
        CompletePhase::LoadingSession => e is SessionLoaded,
        CompletePhase::LoadingParts { .. } => e is PartsLoaded,
        CompletePhase::ResolvingBackend { .. } => e is BackendResolved,
        CompletePhase::ResolvingLimit { .. } => e is LimitResolved,
        CompletePhase::Assembling { .. } => e is Assembled,
        CompletePhase::Finalizing { .. } => e is Finalized,
        CompletePhase::MarkingCompleted { .. } => e is MarkedCompleted,
        CompletePhase::Done => false,
    }
}

/// The action ends the completion with the error `e`.
pub open spec fn fails(a: CompleteAction, e: DomainError) -> bool {
    a == (CompleteAction::Finish { result: Err(e) })
}

/// The action writes to the backend or the store.
pub open spec fn complete_writes(a: CompleteAction) -> bool {
    a is Assemble || a is FinalizeVersion || a is MarkCompleted
}

/// One step of a completion.
pub fn complete_step(s: CompleteState, e: CompleteEvent) -> (r: (CompleteState, CompleteAction))
    requires
        complete_event_fits(s.phase, e),
        // summing the part sizes does not overflow
        s.phase matches CompletePhase::ResolvingBackend { parts, .. } ==> forall|k: int|
            0 <= k <= parts@.len() ==> i64::MIN <= #[trigger] sizes_sum(parts@.take(k)) <= i64::MAX,
    ensures
        r.0.file_id == s.file_id && r.0.upload_id == s.upload_id,
        r.0.default_backend_id == s.default_backend_id,
        complete_wf(s) ==> complete_wf(r.0),
        (r.1 is Finish) == (r.0.phase is Done),
        // nothing is written before every check passed
        complete_writes(r.1) ==> (match r.0.phase {
            CompletePhase::Assembling { session, total, limit } => checks_passed(
                session,
                s.file_id,
                r.0.now,
                total,
                limit,
            ),
            CompletePhase::Finalizing { .. } => s.phase is Assembling,
            CompletePhase::MarkingCompleted { .. } => s.phase is Finalizing,
            _ => false,
        }) || !complete_wf(s),
        // success comes only after the version was finalized and the swap won
        r.1 == (CompleteAction::Finish { result: Ok(()) }) ==> (s.phase is MarkingCompleted && e
            == (CompleteEvent::MarkedCompleted { result: Ok(true) })),
        match (s.phase, e) {
            (CompletePhase::Authorizing, CompleteEvent::Authorized { result }) => match result {
                Err(err) => fails(r.1, err),
                Ok(_) => r.0.phase is LoadingSession && r.1 == (CompleteAction::LoadSession {
                    upload_id: s.upload_id,
                }),
            },
            (CompletePhase::LoadingSession, CompleteEvent::SessionLoaded { result, now }) =>
                r.0.now == now && match result {
                Err(err) => fails(r.1, err),
                Ok(None) => r.1 matches CompleteAction::Finish { result: Err(err) } && not_found(
                    err,
                    s.upload_id,
                ),
                Ok(Some(ses)) => if ses.file_id != s.file_id {
                    r.1 matches CompleteAction::Finish { result: Err(err) } && not_found(
                        err,
                        s.upload_id,
                    )
                } else if ses.state != MultipartUploadState::InProgress {
                    r.1 matches CompleteAction::Finish { result: Err(err) } && not_in_progress(
                        err,
                        s.upload_id,
                        ses.state.spec_name(),
                    )
                } else if ses.expires_at <= now {
                    r.1 matches CompleteAction::Finish { result: Err(err) } && not_in_progress(
                        err,
                        s.upload_id,
                        "expired"@,
                    )
                } else {
                    r.0.phase == (CompletePhase::LoadingParts { session: ses }) && r.1
                        == (CompleteAction::LoadParts {
                        upload_id: s.upload_id,
                        file_id: s.file_id,
                        version_id: ses.version_id,
                    })
                },
            },
            (CompletePhase::LoadingParts { session }, CompleteEvent::PartsLoaded { result }) =>
                match result {
                Err(err) => fails(r.1, err),
                Ok((parts, b)) => r.0.phase matches CompletePhase::ResolvingBackend {
                    session: ses,
                    parts: ps,
                    backend_id: id,
                } && ses == session && ps == parts && id@ == (match b {
                    Some(x) => x@,
                    None => s.default_backend_id@,
                }) && (r.1 matches CompleteAction::ResolveBackend { backend_id } && backend_id@
                    == id@),
            },
            (CompletePhase::ResolvingBackend { session, parts, backend_id }, CompleteEvent::BackendResolved {
                result,
            }) => match result {
                Err(err) => fails(r.1, err),
                Ok(_) => if !size_matches(session, sizes_sum(parts@) as i64) {
                    r.1 matches CompleteAction::Finish {
                        result: Err(DomainError::Conflict { message }),
                    } && message@ == "multipart upload "@ + uuid_text(s.upload_id)
                        + ": assembled size "@ + dec_int(sizes_sum(parts@)) + " does not match declared_size "@
                        + dec_int(declared_as_i64(session.declared_size))
                } else {
                    r.0.phase == (CompletePhase::ResolvingLimit {
                        session,
                        parts,
                        backend_id,
                        total: sizes_sum(parts@) as i64,
                    }) && (r.1 matches CompleteAction::ResolveLimit {
                        declared_mime,
                        backend_id: id,
                    } && declared_mime@ == session.declared_mime@ && id@ == backend_id@)
                },
            },
            (CompletePhase::ResolvingLimit { session, parts, backend_id, total }, CompleteEvent::LimitResolved {
                result,
            }) => match result {
                Err(err) => fails(r.1, err),
                Ok(limit) => if !within_limit(limit, total) {
                    r.1 matches CompleteAction::Finish {
                        result: Err(DomainError::PolicySizeExceeded { limit_bytes, limit_source }),
                    } && limit == Some(limit_bytes) && limit_source@ == "policy size limit"@
                } else {
                    r.0.phase == (CompletePhase::Assembling { session, total, limit }) && (r.1 matches CompleteAction::Assemble {
                        backend_id: id,
                        backend_path: p,
                        backend_upload_handle: h,
                        parts: bp,
                    } && id@ == backend_id@ && p@ == backend_path_of(s.file_id, session.version_id)
                        && h@ == session.backend_upload_handle@ && bp@.len() == parts@.len()
                        && forall|k: int|
                        0 <= k < parts@.len() ==> (#[trigger] bp@[k]).0 == parts@[k].part_number
                            && bp@[k].1@ == parts@[k].backend_etag@)
                },
            },
            (CompletePhase::Assembling { session, total, limit }, CompleteEvent::Assembled {
                result,
            }) => match result {
                Err(err) => fails(r.1, err),
                Ok(hash) => r.0.phase == (CompletePhase::Finalizing { session, total, limit }) && r.1
                    == (CompleteAction::FinalizeVersion {
                    file_id: s.file_id,
                    version_id: session.version_id,
                    total_size: total,
                    content_hash: hash,
                }),
            },
            (CompletePhase::Finalizing { session, total, limit }, CompleteEvent::Finalized {
                result,
            }) => match result {
                Err(err) => fails(r.1, err),
                Ok(false) => r.1 matches CompleteAction::Finish {
                    result: Err(DomainError::Conflict { message }),
                } && message@ == "multipart upload "@ + uuid_text(s.upload_id)
                    + ": version row was removed before completion"@,
                Ok(true) => r.0.phase == (CompletePhase::MarkingCompleted { session, total, limit })
                    && r.1 == (CompleteAction::MarkCompleted { upload_id: s.upload_id }),
            },
            (CompletePhase::MarkingCompleted { session, .. }, CompleteEvent::MarkedCompleted {
                result,
            }) => match result {
                Err(err) => fails(r.1, err),
                Ok(false) => r.1 matches CompleteAction::Finish { result: Err(err) } && not_in_progress(
                    err,
                    s.upload_id,
                    session.state.spec_name(),
                ),
                Ok(true) => r.1 == (CompleteAction::Finish { result: Ok(()) }),
            },
            _ => false,
        },
{
    let CompleteState { file_id, upload_id, default_backend_id, now, phase } = s;
    let mut now = now;
    let (phase, action) = match phase {
        CompletePhase::Authorizing => match e {
            CompleteEvent::Authorized { result } => match result {
                Err(err) => finish(Err(err)),
                Ok(()) => (CompletePhase::LoadingSession, CompleteAction::LoadSession { upload_id }),
            },
            _ => finish(Ok(())),
        },
        CompletePhase::LoadingSession => match e {
            CompleteEvent::SessionLoaded { result, now: t } => {
                now = t;
                match result {
                    Err(err) => finish(Err(err)),
                    Ok(found) => match validate_session_for_complete(found.as_ref(), file_id, upload_id, t) {
                        Err(err) => finish(Err(err)),
                        Ok(()) => {
                            let ses = found.unwrap();
                            let version_id = ses.version_id;
                            (
                                CompletePhase::LoadingParts { session: ses },
                                CompleteAction::LoadParts { upload_id, file_id, version_id },
                            )
                        },
                    },
                }
            },
            _ => finish(Ok(())),
        },
        CompletePhase::LoadingParts { session } => match e {
            CompleteEvent::PartsLoaded { result } => match result {
                Err(err) => finish(Err(err)),
                Ok((parts, b)) => {
                    let backend_id = match &b {
                        Some(id) => version_backend_id(Some(id.as_str()), default_backend_id.as_str()),
                        None => version_backend_id(None, default_backend_id.as_str()),
                    };
                    let action = CompleteAction::ResolveBackend { backend_id: backend_id.clone() };
                    (CompletePhase::ResolvingBackend { session, parts, backend_id }, action)
                },
            },
            _ => finish(Ok(())),
        },
        CompletePhase::ResolvingBackend { session, parts, backend_id } => match e {
            CompleteEvent::BackendResolved { result } => match result {
                Err(err) => finish(Err(err)),
                Ok(()) => {
                    let total = assembled_size(&parts);
                    match check_assembled_size(upload_id, total, session.declared_size) {
                        Err(err) => finish(Err(err)),
                        Ok(()) => {
                            let action = CompleteAction::ResolveLimit {
                                declared_mime: session.declared_mime.clone(),
                                backend_id: backend_id.clone(),
                            };
                            (CompletePhase::ResolvingLimit { session, parts, backend_id, total }, action)
                        },
                    }
                },
            },
            _ => finish(Ok(())),
        },
        CompletePhase::ResolvingLimit { session, parts, backend_id, total } => match e {
            CompleteEvent::LimitResolved { result } => match result {
                Err(err) => finish(Err(err)),
                Ok(limit) => match check_assembled_within_limit(limit, total) {
                    Err(err) => finish(Err(err)),
                    Ok(()) => {
                        let action = CompleteAction::Assemble {
                            backend_id,
                            backend_path: backend_path(file_id, session.version_id),
                            backend_upload_handle: session.backend_upload_handle.clone(),
                            parts: backend_parts(&parts),
                        };
                        (CompletePhase::Assembling { session, total, limit }, action)
                    },
                },
            },
            _ => finish(Ok(())),
        },
        CompletePhase::Assembling { session, total, limit } => match e {
            CompleteEvent::Assembled { result } => match result {
                Err(err) => finish(Err(err)),
                Ok(hash) => {
                    let version_id = session.version_id;
                    (
                        CompletePhase::Finalizing { session, total, limit },
                        CompleteAction::FinalizeVersion {
                            file_id,
                            version_id,
                            total_size: total,
                            content_hash: hash,
                        },
                    )
                },
            },
            _ => finish(Ok(())),
        },
        CompletePhase::Finalizing { session, total, limit } => match e {
            CompleteEvent::Finalized { result } => match result {
                Err(err) => finish(Err(err)),
                Ok(found) => if found {
                    (
                        CompletePhase::MarkingCompleted { session, total, limit },
                        CompleteAction::MarkCompleted { upload_id },
                    )
                } else {
                    finish(Err(crate::multipart::version_removed_error(upload_id)))
                },
            },
            _ => finish(Ok(())),
        },
        CompletePhase::MarkingCompleted { session, .. } => match e {
            CompleteEvent::MarkedCompleted { result } => match result {
                Err(err) => finish(Err(err)),
                Ok(swapped) => if swapped {
                    finish(Ok(()))
                } else {
                    finish(
                        Err(
                            DomainError::multipart_upload_not_in_progress(
                                upload_id,
                                session.state.as_str(),
                            ),
                        ),
                    )
                },
            },
            _ => finish(Ok(())),
        },
        CompletePhase::Done => finish(Ok(())),
    };
    (CompleteState { file_id, upload_id, default_backend_id, now, phase }, action)
}

/// The end of a completion with `result`.
fn finish(result: Result<(), DomainError>) -> (r: (CompletePhase, CompleteAction))
    ensures
        r.0 is Done,
        r.1 == (CompleteAction::Finish { result }),
{
    (CompletePhase::Done, CompleteAction::Finish { result })
}

} // verus!
