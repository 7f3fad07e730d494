//! Aborting a multipart upload as a step function. The loop around it
//! authorizes the caller, reads the session and version rows, aborts the
//! backend session, and updates the store.
//!
//! A session that is missing, belongs to another file, or is not in
//! progress is refused before the backend is touched. When the
//! compare-and-swap from `in_progress` to `aborted` is lost to a concurrent
//! complete or abort, the flow stops there: the pending version is deleted
//! only after the swap succeeded.

use vstd::prelude::*;
use crate::error::DomainError;
use crate::multipart::{
    backend_path, backend_path_of, not_found, not_in_progress, validate_session_for_abort,
    version_backend_id, MultipartUploadSession, MultipartUploadState,
};

verus! {

/// Where an abort stands.
pub enum AbortPhase {
    /// Waiting for the caller's write authorization on the file.
    Authorizing,
    /// Waiting for the session row.
    LoadingSession,
    /// The session is live and the file's own; waiting for its version row.
    LoadingVersion { session: MultipartUploadSession },
    /// Waiting for the backend to abort its session.
    AbortingOnBackend { session: MultipartUploadSession },
    /// Waiting for the store's swap to `aborted`.
    MarkingAborted { session: MultipartUploadSession },
    /// The swap succeeded; waiting for the pending version's deletion.
    DeletingPending { session: MultipartUploadSession },
    Done,
}

/// One abort: the file and session named by the path, the registry's
/// default backend, and the phase.
pub struct AbortState {
    pub file_id: u128,
    pub upload_id: u128,
    pub default_backend_id: String,
    pub phase: AbortPhase,
}

/// What the last outside action returned.
pub enum AbortEvent {
    Authorized { result: Result<(), DomainError> },
    SessionLoaded { result: Result<Option<MultipartUploadSession>, DomainError> },
    /// The backend the version row names, if the row exists.
    VersionLoaded { result: Result<Option<String>, DomainError> },
    /// The backend lookup and abort.
    BackendAborted { result: Result<(), DomainError> },
    /// Whether the swap from `in_progress` to `aborted` happened.
    MarkedAborted { result: Result<bool, DomainError> },
    /// The pending version's deletion (a row already gone is fine).
    PendingDeleted { result: Result<bool, DomainError> },
}

/// The next outside action.
pub enum AbortAction {
    Authorize { file_id: u128 },
    LoadSession { upload_id: u128 },
    LoadVersion { file_id: u128, version_id: u128 },
    AbortOnBackend { backend_id: String, backend_path: String, backend_upload_handle: String },
    MarkAborted { upload_id: u128 },
    DeletePendingVersion { file_id: u128, version_id: u128 },
    /// The abort is over with this result.
    Finish { result: Result<(), DomainError> },
}

/// The session a phase holds, past validation.
pub open spec fn abort_session(p: AbortPhase) -> Option<MultipartUploadSession> {
    match p {
        AbortPhase::LoadingVersion { session } => Some(session),
        AbortPhase::AbortingOnBackend { session } => Some(session),
        AbortPhase::MarkingAborted { session } => Some(session),
        AbortPhase::DeletingPending { session } => Some(session),
        _ => None,
    }
}

/// What every reachable state satisfies: a held session belongs to the
/// file and was in progress when read.
pub open spec fn abort_wf(s: AbortState) -> bool {
    abort_session(s.phase) matches Some(ses) ==> ses.file_id == s.file_id && ses.state
        == MultipartUploadState::InProgress
}

/// The state an abort starts in, and its first action.
pub fn abort_start(file_id: u128, upload_id: u128, default_backend_id: String) -> (r: (
    AbortState,
    AbortAction,
))
    ensures
        r.0.file_id == file_id && r.0.upload_id == upload_id,
        r.0.default_backend_id == default_backend_id,
        r.0.phase is Authorizing,
        r.1 == (AbortAction::Authorize { file_id }),
        abort_wf(r.0),
{
    (
        AbortState { file_id, upload_id, default_backend_id, phase: AbortPhase::Authorizing },
        AbortAction::Authorize { file_id },
    )
}

/// Each phase expects the answer to the action it asked for.
pub open spec fn abort_event_fits(p: AbortPhase, e: AbortEvent) -> bool {
    match p {
        AbortPhase::Authorizing => e is Authorized,
        AbortPhase::LoadingSession => e is SessionLoaded,
        AbortPhase::LoadingVersion { .. } => e is VersionLoaded,
        AbortPhase::AbortingOnBackend { .. } => e is BackendAborted,
        AbortPhase::MarkingAborted { .. } => e is MarkedAborted,
        AbortPhase::DeletingPending { .. } => e is PendingDeleted,
        AbortPhase::Done => false,
    }
}

/// One step of an abort.
pub fn abort_step(s: AbortState, e: AbortEvent) -> (r: (AbortState, AbortAction))
    requires
        abort_event_fits(s.phase, e),
    ensures
        r.0.file_id == s.file_id && r.0.upload_id == s.upload_id,
        r.0.default_backend_id == s.default_backend_id,
        abort_wf(s) ==> abort_wf(r.0),
        (r.1 is Finish) == (r.0.phase is Done),
        // the backend is touched only for a live session of this file
        abort_wf(s) && r.1 is AbortOnBackend ==> (abort_session(s.phase) matches Some(ses)
            && ses.file_id == s.file_id && ses.state == MultipartUploadState::InProgress),
        // the pending version is deleted only after the swap succeeded
        r.1 is DeletePendingVersion ==> (s.phase is MarkingAborted && e == (AbortEvent::MarkedAborted {
            result: Ok(true),
        })),
        match (s.phase, e) {
            (AbortPhase::Authorizing, AbortEvent::Authorized { result }) => match result {
                Err(err) => r.1 == (AbortAction::Finish { result: Err(err) }),
                Ok(_) => r.0.phase is LoadingSession && r.1 == (AbortAction::LoadSession {
                    upload_id: s.upload_id,
                }),
            },
            (AbortPhase::LoadingSession, AbortEvent::SessionLoaded { result }) => match result {
                Err(err) => r.1 == (AbortAction::Finish { result: Err(err) }),
                Ok(None) => r.1 matches AbortAction::Finish { result: Err(err) } && not_found(
                    err,
                    s.upload_id,
                ),
                Ok(Some(ses)) => if ses.file_id != s.file_id {
                    r.1 matches AbortAction::Finish { result: Err(err) } && not_found(err, s.upload_id)
                } else if ses.state != MultipartUploadState::InProgress {
                    r.1 matches AbortAction::Finish { result: Err(err) } && not_in_progress(
                        err,
                        s.upload_id,
                        ses.state.spec_name(),
                    )
                } else {
                    r.0.phase == (AbortPhase::LoadingVersion { session: ses }) && r.1
                        == (AbortAction::LoadVersion { file_id: s.file_id, version_id: ses.version_id })
                },
            },
            (AbortPhase::LoadingVersion { session }, AbortEvent::VersionLoaded { result }) =>
                match result {
                Err(err) => r.1 == (AbortAction::Finish { result: Err(err) }),
                Ok(b) => r.0.phase == (AbortPhase::AbortingOnBackend { session }) && (r.1 matches AbortAction::AbortOnBackend {
                    backend_id,
                    backend_path: p,
                    backend_upload_handle: h,
                } && backend_id@ == (match b {
                    Some(id) => id@,
                    None => s.default_backend_id@,
                }) && p@ == backend_path_of(s.file_id, session.version_id) && h@
                    == session.backend_upload_handle@),
            },
            (AbortPhase::AbortingOnBackend { session }, AbortEvent::BackendAborted { result }) =>
                match result {
                Err(err) => r.1 == (AbortAction::Finish { result: Err(err) }),
                Ok(_) => r.0.phase == (AbortPhase::MarkingAborted { session }) && r.1
                    == (AbortAction::MarkAborted { upload_id: s.upload_id }),
            },
            (AbortPhase::MarkingAborted { session }, AbortEvent::MarkedAborted { result }) =>
                match result {
                Err(err) => r.1 == (AbortAction::Finish { result: Err(err) }),
                Ok(false) => r.1 matches AbortAction::Finish { result: Err(err) } && not_in_progress(
                    err,
                    s.upload_id,
                    session.state.spec_name(),
                ),
                Ok(true) => r.0.phase == (AbortPhase::DeletingPending { session }) && r.1
                    == (AbortAction::DeletePendingVersion {
                    file_id: s.file_id,
                    version_id: session.version_id,
                }),
            },
            (AbortPhase::DeletingPending { .. }, AbortEvent::PendingDeleted { result }) =>
                match result {
                Err(err) => r.1 == (AbortAction::Finish { result: Err(err) }),
                Ok(_) => r.1 == (AbortAction::Finish { result: Ok(()) }),
            },
            _ => false,
        },
{
    let AbortState { file_id, upload_id, default_backend_id, phase } = s;
    let (phase, action) = match phase {
        AbortPhase::Authorizing => match e {
            AbortEvent::Authorized { result } => match result {
                Err(err) => finish(Err(err)),
                Ok(()) => (AbortPhase::LoadingSession, AbortAction::LoadSession { upload_id }),
            },
            _ => finish(Ok(())),
        },
        AbortPhase::LoadingSession => match e {
            AbortEvent::SessionLoaded { result } => match result {
                Err(err) => finish(Err(err)),
                Ok(found) => match validate_session_for_abort(found.as_ref(), file_id, upload_id) {
                    Err(err) => finish(Err(err)),
                    Ok(()) => {
                        let ses = found.unwrap();
                        let version_id = ses.version_id;
                        (
                            AbortPhase::LoadingVersion { session: ses },
                            AbortAction::LoadVersion { file_id, version_id },
                        )
                    },
                },
            },
            _ => finish(Ok(())),
        },
        AbortPhase::LoadingVersion { session } => match e {
            AbortEvent::VersionLoaded { result } => match result {
                Err(err) => finish(Err(err)),
                Ok(b) => {
                    let backend_id = match &b {
                        Some(id) => version_backend_id(Some(id.as_str()), default_backend_id.as_str()),
                        None => version_backend_id(None, default_backend_id.as_str()),
                    };
                    let action = AbortAction::AbortOnBackend {
                        backend_id,
                        backend_path: backend_path(file_id, session.version_id),
                        backend_upload_handle: session.backend_upload_handle.clone(),
                    };
                    (AbortPhase::AbortingOnBackend { session }, action)
                },
            },
            _ => finish(Ok(())),
        },
        AbortPhase::AbortingOnBackend { session } => match e {
            AbortEvent::BackendAborted { result } => match result {
                Err(err) => finish(Err(err)),
                Ok(()) => (AbortPhase::MarkingAborted { session }, AbortAction::MarkAborted { upload_id }),
            },
            _ => finish(Ok(())),
        },
        AbortPhase::MarkingAborted { session } => match e {
            AbortEvent::MarkedAborted { result } => match result {
                Err(err) => finish(Err(err)),
                Ok(swapped) => if swapped {
                    let version_id = session.version_id;
                    (
                        AbortPhase::DeletingPending { session },
                        AbortAction::DeletePendingVersion { file_id, version_id },
                    )
                } else {
                    finish(
                        Err(
                            DomainError::multipart_upload_not_in_progress(
                                upload_id,
                                session.state.as_str(),
                            ),
                        ),
                    )
                },
            },
            _ => finish(Ok(())),
        },
        AbortPhase::DeletingPending { .. } => match e {
            AbortEvent::PendingDeleted { result } => match result {
                Err(err) => finish(Err(err)),
                Ok(_) => finish(Ok(())),
            },
            _ => finish(Ok(())),
        },
        AbortPhase::Done => finish(Ok(())),
    };
    (AbortState { file_id, upload_id, default_backend_id, phase }, action)
}

/// The end of an abort with `result`.
fn finish(result: Result<(), DomainError>) -> (r: (AbortPhase, AbortAction))
    ensures
        r.0 is Done,
        r.1 == (AbortAction::Finish { result }),
{
    (AbortPhase::Done, AbortAction::Finish { result })
}

} // verus!
