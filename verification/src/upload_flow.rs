//! The sidecar's single-object upload as a step function: each step takes
//! the state of one `PUT` and what the last outside action returned, and
//! gives the next state and the next action. The loop that performs the
//! actions (token verification, backend lookup, streaming write, finalize
//! callback) runs around it.
//!
//! Order of refusals: `401` without a token, `403` for a token that does not
//! verify or grants another operation or object, `500` for an unknown
//! backend, `413` when the stream exceeds `max_size`, `400` when the written
//! bytes miss `exact_size` or the expected hash, `502` when the finalize
//! callback fails. `200` comes only after every check passed and the
//! control plane accepted the callback (or the callback is disabled).

use vstd::prelude::*;
use vstd::string::*;
use crate::service::sat_i64;
use crate::sidecar::{
    callback_step, check_object_token, check_upload_constraints, finalize_url, spec_callback_step,
    written_report, CallbackOutcome, CallbackStep, TokenOp, UploadRejection, CALLBACK_MAX_ATTEMPTS,
    WRONG_TARGET,
};
use crate::text::{eq_ascii_nocase, hex_bytes, strip_back, uuid_text};

verus! {

/// What a verified upload token grants.
pub struct UploadClaims {
    pub op: TokenOp,
    pub file_id: u128,
    pub version_id: u128,
    pub backend_id: String,
    pub backend_path: String,
    /// Bound the backend enforces while the bytes stream in.
    pub max_size: Option<u64>,
    pub exact_size: Option<u64>,
    /// `"{algorithm}:{hex digest}"` the written bytes must hash to.
    pub expected_hash: Option<String>,
}

/// Where one upload stands.
pub enum UploadPhase {
    /// The request arrived; its token is not yet known.
    Start,
    /// The token was handed over for verification.
    Verifying,
    /// The token grants this upload; the backend is being looked up.
    Resolving { claims: UploadClaims },
    /// The body is being streamed to the backend.
    Writing { claims: UploadClaims },
    /// The bytes are written and checked; the finalize callback is out as
    /// attempt `attempt`.
    Finalizing {
        claims: UploadClaims,
        bytes_written: u64,
        digest: Vec<u8>,
        url: String,
        size: i64,
        hash_hex: String,
        attempt: u32,
    },
    /// A response was sent; nothing follows.
    Done,
}

/// One upload: the object named by the path, the control plane's base URL
/// (empty disables the callback), the name of the digest algorithm the
/// backend computes, and the phase.
pub struct UploadState {
    pub file_id: u128,
    pub version_id: u128,
    pub control_base_url: String,
    pub algorithm: String,
    pub phase: UploadPhase,
}

/// What the last outside action returned.
pub enum UploadEvent {
    /// The request's token, from the query or the header.
    Received { token: Option<String> },
    /// The verified claims, or the verifier's refusal message.
    Verified { claims: Result<UploadClaims, String> },
    /// The backend lookup: found, or the registry's message.
    BackendResolved { found: Result<(), String> },
    /// The streaming write.
    Written { outcome: WriteOutcome },
    /// One attempt of the finalize callback.
    CallbackAttempted { outcome: CallbackOutcome },
}

/// How a streaming write ended.
pub enum WriteOutcome {
    /// All bytes written; their count and digest.
    Stored { bytes_written: u64, digest: Vec<u8> },
    /// The stream exceeded `max_size` and was aborted.
    OverLimit,
    /// The backend failed.
    Failed,
}

/// The next outside action.
pub enum UploadAction {
    Verify { token: String },
    ResolveBackend { backend_id: String },
    /// Stream the body to `backend_path`, aborting past `max_size`.
    WriteStream { backend_path: String, max_size: Option<u64> },
    /// Post the finalize callback; an attempt after the first waits the
    /// retry delay first.
    SendFinalize { url: String, size: i64, hash_hex: String, attempt: u32 },
    /// Answer the client; the upload is over.
    Respond { status: u16, body: String },
}

/// The token grants a `PUT` of this very object.
pub open spec fn grants_put(c: UploadClaims, file_id: u128, version_id: u128) -> bool {
    c.op == TokenOp::Put && c.file_id == file_id && c.version_id == version_id
}

/// The written bytes meet the token: the exact size when one is claimed,
/// and the expected hash (compared without regard to ASCII case) when one
/// is claimed.
pub open spec fn constraints_hold(
    c: UploadClaims,
    bytes_written: u64,
    digest: Seq<u8>,
    algorithm: Seq<char>,
) -> bool {
    &&& !(c.exact_size matches Some(n) && n != bytes_written)
    &&& (c.expected_hash matches Some(h) ==> eq_ascii_nocase(
        h@,
        algorithm + seq![':'] + hex_bytes(digest),
    ))
}

/// The finalize URL for an upload, when the callback is enabled.
pub open spec fn finalize_url_of(s: UploadState) -> Seq<char> {
    strip_back(s.control_base_url@, '/') + "/api/file-storage/v1/files/"@ + uuid_text(s.file_id)
        + "/versions/"@ + uuid_text(s.version_id) + "/finalize"@
}

/// What every reachable state satisfies: past verification the token grants
/// this upload; while finalizing, the written bytes met every constraint,
/// the callback is enabled and the attempt number is in range.
pub open spec fn upload_wf(s: UploadState) -> bool {
    match s.phase {
        UploadPhase::Resolving { claims } => grants_put(claims, s.file_id, s.version_id),
        UploadPhase::Writing { claims } => grants_put(claims, s.file_id, s.version_id),
        UploadPhase::Finalizing { claims, bytes_written, digest, url, size, hash_hex, attempt } => {
            &&& grants_put(claims, s.file_id, s.version_id)
            &&& constraints_hold(claims, bytes_written, digest@, s.algorithm@)
            &&& s.control_base_url@.len() > 0
            &&& url@ == finalize_url_of(s)
            &&& size == sat_i64(bytes_written)
            &&& hash_hex@ == hex_bytes(digest@)
            &&& 1 <= attempt <= CALLBACK_MAX_ATTEMPTS
        },
        _ => true,
    }
}

/// The state an upload starts in.
pub fn upload_start(
    file_id: u128,
    version_id: u128,
    control_base_url: String,
    algorithm: String,
) -> (r: UploadState)
    ensures
        r.file_id == file_id,
        r.version_id == version_id,
        r.control_base_url == control_base_url,
        r.algorithm == algorithm,
        r.phase is Start,
        upload_wf(r),
{
    UploadState { file_id, version_id, control_base_url, algorithm, phase: UploadPhase::Start }
}

/// Each phase expects the answer to the action it asked for; a finished
/// upload expects nothing.
pub open spec fn upload_event_fits(p: UploadPhase, e: UploadEvent) -> bool {
    match p {
        UploadPhase::Start => e is Received,
        UploadPhase::Verifying => e is Verified,
        UploadPhase::Resolving { .. } => e is BackendResolved,
        UploadPhase::Writing { .. } => e is Written,
        UploadPhase::Finalizing { .. } => e is CallbackAttempted,
        UploadPhase::Done => false,
    }
}

/// The action answers with `status` and `body`.
pub open spec fn responds(a: UploadAction, status: u16, body: Seq<char>) -> bool {
    a matches UploadAction::Respond { status: st, body: b } && st == status && b@ == body
}

/// The action answers `200`.
pub open spec fn responds_ok(a: UploadAction) -> bool {
    a matches UploadAction::Respond { status, .. } && status == 200
}

/// A write whose bytes met every constraint, with the callback disabled.
pub open spec fn ok_from_write(s: UploadState, e: UploadEvent) -> bool {
    &&& s.control_base_url@.len() == 0
    &&& s.phase matches UploadPhase::Writing { claims }
    &&& e matches UploadEvent::Written { outcome }
    &&& outcome matches WriteOutcome::Stored { bytes_written, digest }
    &&& constraints_hold(claims, bytes_written, digest@, s.algorithm@)
}

/// A finalize attempt the control plane answered with a 2xx status.
pub open spec fn ok_from_callback(s: UploadState, e: UploadEvent) -> bool {
    &&& s.phase is Finalizing
    &&& e matches UploadEvent::CallbackAttempted { outcome }
    &&& outcome matches CallbackOutcome::Answered { status }
    &&& 200 <= status <= 299
}

/// One step of an upload.
pub fn upload_step(s: UploadState, e: UploadEvent) -> (r: (UploadState, UploadAction))
    requires
        upload_event_fits(s.phase, e),
    ensures
        r.0.file_id == s.file_id && r.0.version_id == s.version_id,
        r.0.control_base_url == s.control_base_url && r.0.algorithm == s.algorithm,
        upload_wf(s) ==> upload_wf(r.0),
        (r.1 is Respond) == (r.0.phase is Done),
        // only the backend lookup that found the backend leads to a write
        r.1 is WriteStream ==> (s.phase is Resolving && (e matches UploadEvent::BackendResolved {
            found,
        } && found is Ok)),
        // a 200 comes only from a checked write with the callback disabled,
        // or from a finalize attempt the control plane answered with 2xx
        responds_ok(r.1) ==> (ok_from_write(s, e) || ok_from_callback(s, e)),
        match (s.phase, e) {
            (UploadPhase::Start, UploadEvent::Received { token }) => match token {
                None => responds(r.1, 401, "missing fs-token"@),
                Some(t) => r.0.phase is Verifying && r.1 == UploadAction::Verify { token: t },
            },
            (UploadPhase::Verifying, UploadEvent::Verified { claims }) => match claims {
                Err(m) => responds(r.1, 403, m@),
                Ok(c) => if grants_put(c, s.file_id, s.version_id) {
                    r.0.phase == (UploadPhase::Resolving { claims: c }) && (r.1 matches UploadAction::ResolveBackend {
                        backend_id,
                    } && backend_id@ == c.backend_id@)
                } else {
                    responds(r.1, 403, WRONG_TARGET@)
                },
            },
            (UploadPhase::Resolving { claims }, UploadEvent::BackendResolved { found }) => match found {
                Err(m) => responds(
                    r.1,
                    500,
                    "unknown backend '"@ + claims.backend_id@ + "': "@ + m@,
                ),
                Ok(_) => r.0.phase == (UploadPhase::Writing { claims }) && (r.1 matches UploadAction::WriteStream {
                    backend_path,
                    max_size,
                } && backend_path@ == claims.backend_path@ && max_size == claims.max_size),
            },
            (UploadPhase::Writing { claims }, UploadEvent::Written { outcome }) => match outcome {
                WriteOutcome::OverLimit => responds(r.1, 413, "exceeds max_size"@),
                WriteOutcome::Failed => responds(r.1, 500, "backend error"@),
                WriteOutcome::Stored { bytes_written, digest } => if claims.exact_size matches Some(
                    n,
                ) && n != bytes_written {
                    responds(r.1, 400, "size does not match exact_size"@)
                } else if !constraints_hold(claims, bytes_written, digest@, s.algorithm@) {
                    responds(r.1, 400, "content hash mismatch"@)
                } else if s.control_base_url@.len() == 0 {
                    responds(r.1, 200, "uploaded"@)
                } else {
                    (r.0.phase matches UploadPhase::Finalizing {
                        claims: c,
                        bytes_written: b,
                        digest: d,
                        url,
                        size,
                        hash_hex,
                        attempt,
                    } && c == claims && b == bytes_written && d == digest && url@ == finalize_url_of(
                        s,
                    ) && size == sat_i64(bytes_written) && hash_hex@ == hex_bytes(digest@) && attempt
                        == 1) && (r.1 matches UploadAction::SendFinalize {
                        url,
                        size,
                        hash_hex,
                        attempt,
                    } && url@ == finalize_url_of(s) && size == sat_i64(bytes_written) && hash_hex@
                        == hex_bytes(digest@) && attempt == 1)
                },
            },
            (UploadPhase::Finalizing { claims, bytes_written, digest, attempt, url, size, hash_hex }, UploadEvent::CallbackAttempted {
                outcome,
            }) => match spec_callback_step(attempt, outcome) {
                CallbackStep::Accepted => responds(r.1, 200, "uploaded"@),
                CallbackStep::Failed => responds(r.1, 502, "finalize failed"@),
                CallbackStep::Retry { next_attempt } => r.0.phase == (UploadPhase::Finalizing {
                    claims,
                    bytes_written,
                    digest,
                    url,
                    size,
                    hash_hex,
                    attempt: next_attempt,
                }) && (r.1 matches UploadAction::SendFinalize {
                    url: u,
                    size: z,
                    hash_hex: h,
                    attempt: a,
                } && u@ == url@ && z == size && h@ == hash_hex@ && a == next_attempt),
            },
            _ => false,
        },
{
    let UploadState { file_id, version_id, control_base_url, algorithm, phase } = s;
    let (phase, action) = match phase {
        UploadPhase::Start => match e {
            UploadEvent::Received { token } => match token {
                None => respond(401, "missing fs-token"),
                Some(t) => (UploadPhase::Verifying, UploadAction::Verify { token: t }),
            },
            _ => respond(500, "internal error"),
        },
        UploadPhase::Verifying => match e {
            UploadEvent::Verified { claims } => match claims {
                Err(m) => (UploadPhase::Done, UploadAction::Respond { status: 403, body: m }),
                Ok(c) => match check_object_token(
                    c.op,
                    TokenOp::Put,
                    c.file_id,
                    c.version_id,
                    file_id,
                    version_id,
                ) {
                    Err(m) => respond(403, m),
                    Ok(()) => {
                        let backend_id = c.backend_id.clone();
                        (UploadPhase::Resolving { claims: c }, UploadAction::ResolveBackend { backend_id })
                    },
                },
            },
            _ => respond(500, "internal error"),
        },
        UploadPhase::Resolving { claims } => match e {
            UploadEvent::BackendResolved { found } => match found {
                Err(m) => {
                    let body = String::from_str("unknown backend '").concat(
                        claims.backend_id.as_str(),
                    ).concat("': ").concat(m.as_str());
                    proof {
                        reveal_strlit("unknown backend '");
                        reveal_strlit("': ");
                    }
                    (UploadPhase::Done, UploadAction::Respond { status: 500, body })
                },
                Ok(()) => {
                    let backend_path = claims.backend_path.clone();
                    let max_size = claims.max_size;
                    (UploadPhase::Writing { claims }, UploadAction::WriteStream { backend_path, max_size })
                },
            },
            _ => respond(500, "internal error"),
        },
        UploadPhase::Writing { claims } => match e {
            UploadEvent::Written { outcome } => match outcome {
                WriteOutcome::OverLimit => respond(413, "exceeds max_size"),
                WriteOutcome::Failed => respond(500, "backend error"),
                WriteOutcome::Stored { bytes_written, digest } => {
                    let checked = match &claims.expected_hash {
                        Some(h) => check_upload_constraints(
                            bytes_written,
                            claims.exact_size,
                            Some(h.as_str()),
                            algorithm.as_str(),
                            digest.as_slice(),
                        ),
                        None => check_upload_constraints(
                            bytes_written,
                            claims.exact_size,
                            None,
                            algorithm.as_str(),
                            digest.as_slice(),
                        ),
                    };
                    match checked {
                        Err(UploadRejection::SizeMismatch) => respond(400, "size does not match exact_size"),
                        Err(UploadRejection::HashMismatch) => respond(400, "content hash mismatch"),
                        Ok(()) => match finalize_url(control_base_url.as_str(), file_id, version_id) {
                            None => respond(200, "uploaded"),
                            Some(url) => {
                                let (size, hash_hex) = written_report(bytes_written, digest.as_slice());
                                let action = UploadAction::SendFinalize {
                                    url: url.clone(),
                                    size,
                                    hash_hex: hash_hex.clone(),
                                    attempt: 1,
                                };
                                (
                                    UploadPhase::Finalizing {
                                        claims,
                                        bytes_written,
                                        digest,
                                        url,
                                        size,
                                        hash_hex,
                                        attempt: 1,
                                    },
                                    action,
                                )
                            },
                        },
                    }
                },
            },
            _ => respond(500, "internal error"),
        },
        UploadPhase::Finalizing { claims, bytes_written, digest, url, size, hash_hex, attempt } => match e {
            UploadEvent::CallbackAttempted { outcome } => match callback_step(attempt, outcome) {
                CallbackStep::Accepted => respond(200, "uploaded"),
                CallbackStep::Failed => respond(502, "finalize failed"),
                CallbackStep::Retry { next_attempt } => {
                    let action = UploadAction::SendFinalize {
                        url: url.clone(),
                        size,
                        hash_hex: hash_hex.clone(),
                        attempt: next_attempt,
                    };
                    (
                        UploadPhase::Finalizing {
                            claims,
                            bytes_written,
                            digest,
                            url,
                            size,
                            hash_hex,
                            attempt: next_attempt,
                        },
                        action,
                    )
                },
            },
            _ => respond(500, "internal error"),
        },
        UploadPhase::Done => respond(500, "internal error"),
    };
    (UploadState { file_id, version_id, control_base_url, algorithm, phase }, action)
}

/// Every check of an upload passed: the token grants this very `PUT`, and
/// the written bytes met its size and hash constraints.
pub open spec fn every_check_passed(s: UploadState, e: UploadEvent) -> bool {
    match s.phase {
        UploadPhase::Writing { claims } => grants_put(claims, s.file_id, s.version_id) && (
        e matches UploadEvent::Written { outcome } && (outcome matches WriteOutcome::Stored {
            bytes_written,
            digest,
        } && constraints_hold(claims, bytes_written, digest@, s.algorithm@))),
        UploadPhase::Finalizing { claims, bytes_written, digest, .. } => grants_put(
            claims,
            s.file_id,
            s.version_id,
        ) && constraints_hold(claims, bytes_written, digest@, s.algorithm@),
        _ => false,
    }
}

/// In every state an upload reaches from `upload_start`, a `200` comes only
/// after every check passed (`upload_start` gives a well-formed state and
/// `upload_step` keeps it so).
pub proof fn law_upload_ok_only_after_every_check(s: UploadState, e: UploadEvent)
    requires
        upload_wf(s),
        ok_from_write(s, e) || ok_from_callback(s, e),
    ensures
        every_check_passed(s, e),
{
}

/// A finished upload and the response it sends.
fn respond(status: u16, body: &str) -> (r: (UploadPhase, UploadAction))
    ensures
        r.0 is Done,
        responds(r.1, status, body@),
{
    (UploadPhase::Done, UploadAction::Respond { status, body: String::from_str(body) })
}

} // verus!
