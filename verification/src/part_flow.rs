//! The sidecar's upload of one multipart part as a step function. The loop
//! around it verifies the token, looks up the backend, buffers or streams
//! the part, and posts the part report.
//!
//! Order: `401` without a token; `403` for a token that does not verify,
//! grants another operation or object, or names another part, all before
//! any byte is written; `500` for an unknown backend; `413` when the body
//! exceeds the part's size claim; `400` when the drained body is shorter
//! (or unreadable); `500` when the backend write fails; `502` when the part
//! report fails. The part is accepted only after the report succeeded (or
//! the report is disabled).

use vstd::prelude::*;
use vstd::string::*;
use crate::service::sat_i64;
use crate::sidecar::{
    callback_step, check_part_token, offset_part_path, part_length_mismatch_message,
    part_too_large_message, report_part_url, spec_callback_step, written_report, CallbackOutcome,
    CallbackStep, TokenOp, CALLBACK_MAX_ATTEMPTS, WRONG_PART, WRONG_TARGET,
};
use crate::text::{dec_digits, hex_bytes, hex_encode, strip_back, uuid_text};

verus! {

/// What a verified part token grants.
pub struct PartClaims {
    pub op: TokenOp,
    pub file_id: u128,
    pub version_id: u128,
    pub upload_id: u128,
    pub part_number: u32,
    pub backend_id: String,
    pub backend_path: String,
    /// The backend's native multipart session handle.
    pub backend_handle: String,
    /// Offset of the part in the assembled object.
    pub offset: u64,
    /// Exact size of the part, in bytes.
    pub size: u64,
}

/// Where one part upload stands.
pub enum PartPhase {
    Start,
    Verifying,
    /// The token grants this part; the backend is being looked up.
    Resolving { claims: PartClaims },
    /// Native multipart: the body is being buffered, bounded by the size.
    Buffering { claims: PartClaims },
    /// Native multipart: the buffered body is being uploaded as the part.
    UploadingPart { claims: PartClaims, body_len: u64 },
    /// No native multipart: the part is being streamed to `path`.
    WritingObject { claims: PartClaims, path: String },
    /// The part is stored; the part report is out as attempt `attempt`.
    Reporting {
        claims: PartClaims,
        body_len: u64,
        backend_etag: String,
        hash_hex: String,
        url: String,
        attempt: u32,
    },
    Done,
}

/// One part upload: the object and part named by the path, the control
/// plane's base URL (empty disables the report), and the phase.
pub struct PartState {
    pub file_id: u128,
    pub version_id: u128,
    pub part_number: u32,
    pub control_base_url: String,
    pub phase: PartPhase,
}

/// What the last outside action returned.
pub enum PartEvent {
    Received { token: Option<String> },
    Verified { claims: Result<PartClaims, String> },
    /// The backend was found, with whether it supports native multipart;
    /// or the registry's message.
    BackendResolved { found: Result<bool, String> },
    /// Buffering ended.
    Buffered { outcome: BufferOutcome },
    /// The native part upload: the backend's etag and the part's digest.
    PartUploaded { result: Result<(String, Vec<u8>), ()> },
    /// The streaming write of the part object.
    ObjectWritten { outcome: ObjectOutcome },
    /// One attempt of the part report.
    ReportAttempted { outcome: CallbackOutcome },
}

/// How buffering a part body ended.
pub enum BufferOutcome {
    /// The whole body, of this length.
    Complete { body_len: u64 },
    /// A chunk would have taken the body past the size claim.
    OverLimit,
    /// Reading the body failed.
    ReadFailed,
}

/// How streaming a part object ended.
pub enum ObjectOutcome {
    Stored { body_len: u64, digest: Vec<u8> },
    OverLimit,
    Failed,
}

/// The next outside action.
pub enum PartAction {
    Verify { token: String },
    ResolveBackend { backend_id: String },
    /// Buffer the body, refusing a chunk that would pass `max_size`.
    BufferBody { max_size: u64 },
    /// Upload the buffered body as part `part_number` of the native session.
    UploadPart { backend_path: String, backend_handle: String, part_number: u32, offset: u64 },
    /// Stream the body to `path`, aborting past `max_size`.
    WriteObject { path: String, max_size: u64 },
    /// Post the part report; an attempt after the first waits the retry
    /// delay first.
    SendReport { url: String, backend_etag: String, hash_hex: String, size: i64, attempt: u32 },
    /// Delete the object at `path`, then answer the client.
    DiscardAndRespond { path: String, status: u16, body: String },
    /// Answer the client with an error; the upload is over.
    Respond { status: u16, body: String },
    /// Answer `200` with the stored part; the upload is over.
    Accept { part_number: u32, backend_etag: String, hash_hex: String },
}

/// The token grants an upload of this very part.
pub open spec fn grants_part(c: PartClaims, file_id: u128, version_id: u128, part_number: u32) -> bool {
    c.op == TokenOp::MultipartPart && c.file_id == file_id && c.version_id == version_id
        && c.part_number == part_number
}

/// The report URL for a part upload, when the report is enabled.
pub open spec fn report_url_of(s: PartState, upload_id: u128) -> Seq<char> {
    strip_back(s.control_base_url@, '/') + "/api/file-storage/v1/files/"@ + uuid_text(s.file_id)
        + "/versions/"@ + uuid_text(s.version_id) + "/multipart/"@ + uuid_text(upload_id)
        + "/parts/"@ + dec_digits(s.part_number as nat) + "/report"@
}

/// What every reachable state satisfies: past verification the token
/// grants this part; a part being uploaded or reported has exactly the
/// claimed size; a report is enabled and its attempt number in range.
pub open spec fn part_wf(s: PartState) -> bool {
    match s.phase {
        PartPhase::Resolving { claims } => grants_part(claims, s.file_id, s.version_id, s.part_number),
        PartPhase::Buffering { claims } => grants_part(claims, s.file_id, s.version_id, s.part_number),
        PartPhase::UploadingPart { claims, body_len } => grants_part(
            claims,
            s.file_id,
            s.version_id,
            s.part_number,
        ) && body_len == claims.size,
        PartPhase::WritingObject { claims, .. } => grants_part(
            claims,
            s.file_id,
            s.version_id,
            s.part_number,
        ),
        PartPhase::Reporting { claims, body_len, url, attempt, .. } => {
            &&& grants_part(claims, s.file_id, s.version_id, s.part_number)
            &&& body_len == claims.size
            &&& s.control_base_url@.len() > 0
            &&& url@ == report_url_of(s, claims.upload_id)
            &&& 1 <= attempt <= CALLBACK_MAX_ATTEMPTS
        },
        _ => true,
    }
}

/// The state a part upload starts in.
pub fn part_start(file_id: u128, version_id: u128, part_number: u32, control_base_url: String) -> (r:
    PartState)
    ensures
        r.file_id == file_id,
        r.version_id == version_id,
        r.part_number == part_number,
        r.control_base_url == control_base_url,
        r.phase is Start,
        part_wf(r),
{
    PartState { file_id, version_id, part_number, control_base_url, phase: PartPhase::Start }
}

/// Each phase expects the answer to the action it asked for; a finished
/// upload expects nothing.
pub open spec fn part_event_fits(p: PartPhase, e: PartEvent) -> bool {
    match p {
        PartPhase::Start => e is Received,
        PartPhase::Verifying => e is Verified,
        PartPhase::Resolving { .. } => e is BackendResolved,
        PartPhase::Buffering { .. } => e is Buffered,
        PartPhase::UploadingPart { .. } => e is PartUploaded,
        PartPhase::WritingObject { .. } => e is ObjectWritten,
        PartPhase::Reporting { .. } => e is ReportAttempted,
        PartPhase::Done => false,
    }
}

/// The action answers with an error `status` and `body`.
pub open spec fn part_responds(a: PartAction, status: u16, body: Seq<char>) -> bool {
    a matches PartAction::Respond { status: st, body: b } && st == status && b@ == body
}

/// The action ends the upload.
pub open spec fn part_final(a: PartAction) -> bool {
    a is Respond || a is DiscardAndRespond || a is Accept
}

/// The action writes bytes to a backend.
pub open spec fn part_writes(a: PartAction) -> bool {
    a is BufferBody || a is UploadPart || a is WriteObject
}

/// A part stored with exactly its claimed size, with the report disabled.
pub open spec fn accepted_unreported(s: PartState, e: PartEvent) -> bool {
    &&& s.control_base_url@.len() == 0
    &&& (match s.phase {
        PartPhase::UploadingPart { .. } => e matches PartEvent::PartUploaded { result } && result is Ok,
        PartPhase::WritingObject { claims, .. } => e matches PartEvent::ObjectWritten { outcome } && (
        outcome matches ObjectOutcome::Stored { body_len, .. } && body_len == claims.size),
        _ => false,
    })
}

/// A part report the control plane answered with a 2xx status.
pub open spec fn accepted_reported(s: PartState, e: PartEvent) -> bool {
    &&& s.phase is Reporting
    &&& e matches PartEvent::ReportAttempted { outcome }
    &&& outcome matches CallbackOutcome::Answered { status }
    &&& 200 <= status <= 299
}

/// One step of a part upload.
pub fn part_upload_step(s: PartState, e: PartEvent) -> (r: (PartState, PartAction))
    requires
        part_event_fits(s.phase, e),
    ensures
        r.0.file_id == s.file_id && r.0.version_id == s.version_id,
        r.0.part_number == s.part_number && r.0.control_base_url == s.control_base_url,
        part_wf(s) ==> part_wf(r.0),
        part_final(r.1) == (r.0.phase is Done),
        // no byte is written before the token was found to grant this part
        // and the backend was found
        part_writes(r.1) ==> (s.phase is Resolving || s.phase is Buffering),
        r.1 is Accept ==> (accepted_unreported(s, e) || accepted_reported(s, e)),
        match (s.phase, e) {
            (PartPhase::Start, PartEvent::Received { token }) => match token {
                None => part_responds(r.1, 401, "missing fs-token"@),
                Some(t) => r.0.phase is Verifying && r.1 == PartAction::Verify { token: t },
            },
            (PartPhase::Verifying, PartEvent::Verified { claims }) => match claims {
                Err(m) => part_responds(r.1, 403, m@),
                Ok(c) => if !(c.op == TokenOp::MultipartPart && c.file_id == s.file_id
                    && c.version_id == s.version_id) {
                    part_responds(r.1, 403, WRONG_TARGET@)
                } else if c.part_number != s.part_number {
                    part_responds(r.1, 403, WRONG_PART@)
                } else {
                    r.0.phase == (PartPhase::Resolving { claims: c }) && (r.1 matches PartAction::ResolveBackend {
                        backend_id,
                    } && backend_id@ == c.backend_id@)
                },
            },
            (PartPhase::Resolving { claims }, PartEvent::BackendResolved { found }) => match found {
                Err(m) => part_responds(
                    r.1,
                    500,
                    "unknown backend '"@ + claims.backend_id@ + "': "@ + m@,
                ),
                Ok(native) => if native {
                    r.0.phase == (PartPhase::Buffering { claims }) && r.1 == (PartAction::BufferBody {
                        max_size: claims.size,
                    })
                } else {
                    (r.0.phase matches PartPhase::WritingObject { claims: c, path: p } && c == claims
                        && p@ == claims.backend_path@ + ".part."@ + dec_digits(s.part_number as nat))
                        && (r.1 matches PartAction::WriteObject { path, max_size }
                        && path@ == claims.backend_path@ + ".part."@ + dec_digits(
                        s.part_number as nat,
                    ) && max_size == claims.size)
                },
            },
            (PartPhase::Buffering { claims }, PartEvent::Buffered { outcome }) => match outcome {
                BufferOutcome::OverLimit => part_responds(
                    r.1,
                    413,
                    "part body length exceeds token size claim "@ + dec_digits(claims.size as nat),
                ),
                BufferOutcome::ReadFailed => part_responds(r.1, 400, "body read error"@),
                BufferOutcome::Complete { body_len } => if body_len != claims.size {
                    part_responds(
                        r.1,
                        400,
                        "part body length "@ + dec_digits(body_len as nat)
                            + " does not match token size claim "@ + dec_digits(claims.size as nat),
                    )
                } else {
                    r.0.phase == (PartPhase::UploadingPart { claims, body_len }) && (r.1 matches PartAction::UploadPart {
                        backend_path,
                        backend_handle,
                        part_number,
                        offset,
                    } && backend_path@ == claims.backend_path@ && backend_handle@
                        == claims.backend_handle@ && part_number == s.part_number && offset
                        == claims.offset)
                },
            },
            (PartPhase::UploadingPart { claims, body_len }, PartEvent::PartUploaded { result }) =>
                match result {
                Err(_) => part_responds(r.1, 500, "backend error"@),
                Ok((etag, hash)) => part_stored(s, r, claims, body_len, etag@, hex_bytes(hash@)),
            },
            (PartPhase::WritingObject { claims, path }, PartEvent::ObjectWritten { outcome }) =>
                match outcome {
                ObjectOutcome::OverLimit => part_responds(
                    r.1,
                    413,
                    "part body length exceeds token size claim "@ + dec_digits(claims.size as nat),
                ),
                ObjectOutcome::Failed => part_responds(r.1, 500, "backend error"@),
                ObjectOutcome::Stored { body_len, digest } => if body_len != claims.size {
                    r1_discards(r.1, path@, body_len, claims.size)
                } else {
                    part_stored(s, r, claims, body_len, hex_bytes(digest@), hex_bytes(digest@))
                },
            },
            (PartPhase::Reporting { claims, attempt, url, backend_etag, hash_hex, body_len }, PartEvent::ReportAttempted {
                outcome,
            }) => match spec_callback_step(attempt, outcome) {
                CallbackStep::Accepted => r.1 matches PartAction::Accept {
                    part_number,
                    backend_etag: t,
                    hash_hex: h,
                } && part_number == s.part_number && t@ == backend_etag@ && h@ == hash_hex@,
                CallbackStep::Failed => part_responds(r.1, 502, "report failed"@),
                CallbackStep::Retry { next_attempt } => r.0.phase == (PartPhase::Reporting {
                    claims,
                    body_len,
                    backend_etag,
                    hash_hex,
                    url,
                    attempt: next_attempt,
                }) && (r.1 matches PartAction::SendReport {
                    url: u,
                    backend_etag: t,
                    hash_hex: h,
                    size,
                    attempt: a,
                } && u@ == url@ && t@ == backend_etag@ && h@ == hash_hex@ && size == sat_i64(body_len)
                    && a == next_attempt),
            },
            _ => false,
        },
{
    let PartState { file_id, version_id, part_number, control_base_url, phase } = s;
    let (phase, action) = match phase {
        PartPhase::Start => match e {
            PartEvent::Received { token } => match token {
                None => refuse(401, "missing fs-token"),
                Some(t) => (PartPhase::Verifying, PartAction::Verify { token: t }),
            },
            _ => refuse(500, "internal error"),
        },
        PartPhase::Verifying => match e {
            PartEvent::Verified { claims } => match claims {
                Err(m) => (PartPhase::Done, PartAction::Respond { status: 403, body: m }),
                Ok(c) => match check_part_token(
                    c.op,
                    c.file_id,
                    c.version_id,
                    c.part_number,
                    file_id,
                    version_id,
                    part_number,
                ) {
                    Err(m) => refuse(403, m),
                    Ok(()) => {
                        let backend_id = c.backend_id.clone();
                        (PartPhase::Resolving { claims: c }, PartAction::ResolveBackend { backend_id })
                    },
                },
            },
            _ => refuse(500, "internal error"),
        },
        PartPhase::Resolving { claims } => match e {
            PartEvent::BackendResolved { found } => match found {
                Err(m) => {
                    let body = String::from_str("unknown backend '").concat(
                        claims.backend_id.as_str(),
                    ).concat("': ").concat(m.as_str());
                    proof {
                        reveal_strlit("unknown backend '");
                        reveal_strlit("': ");
                    }
                    (PartPhase::Done, PartAction::Respond { status: 500, body })
                },
                Ok(native) => if native {
                    let max_size = claims.size;
                    (PartPhase::Buffering { claims }, PartAction::BufferBody { max_size })
                } else {
                    let path = offset_part_path(claims.backend_path.as_str(), part_number);
                    let max_size = claims.size;
                    (
                        PartPhase::WritingObject { claims, path: path.clone() },
                        PartAction::WriteObject { path, max_size },
                    )
                },
            },
            _ => refuse(500, "internal error"),
        },
        PartPhase::Buffering { claims } => match e {
            PartEvent::Buffered { outcome } => match outcome {
                BufferOutcome::OverLimit => (
                    PartPhase::Done,
                    PartAction::Respond { status: 413, body: part_too_large_message(claims.size) },
                ),
                BufferOutcome::ReadFailed => refuse(400, "body read error"),
                BufferOutcome::Complete { body_len } => if body_len != claims.size {
                    (
                        PartPhase::Done,
                        PartAction::Respond {
                            status: 400,
                            body: part_length_mismatch_message(body_len, claims.size),
                        },
                    )
                } else {
                    let action = PartAction::UploadPart {
                        backend_path: claims.backend_path.clone(),
                        backend_handle: claims.backend_handle.clone(),
                        part_number,
                        offset: claims.offset,
                    };
                    (PartPhase::UploadingPart { claims, body_len }, action)
                },
            },
            _ => refuse(500, "internal error"),
        },
        PartPhase::UploadingPart { claims, body_len } => match e {
            PartEvent::PartUploaded { result } => match result {
                Err(_) => refuse(500, "backend error"),
                Ok((etag, hash)) => {
                    let hash_hex = hex_encode(hash.as_slice());
                    stored(file_id, version_id, part_number, &control_base_url, claims, body_len, etag, hash_hex)
                },
            },
            _ => refuse(500, "internal error"),
        },
        PartPhase::WritingObject { claims, path } => match e {
            PartEvent::ObjectWritten { outcome } => match outcome {
                ObjectOutcome::OverLimit => (
                    PartPhase::Done,
                    PartAction::Respond { status: 413, body: part_too_large_message(claims.size) },
                ),
                ObjectOutcome::Failed => refuse(500, "backend error"),
                ObjectOutcome::Stored { body_len, digest } => if body_len != claims.size {
                    (
                        PartPhase::Done,
                        PartAction::DiscardAndRespond {
                            path,
                            status: 400,
                            body: part_length_mismatch_message(body_len, claims.size),
                        },
                    )
                } else {
                    let etag = hex_encode(digest.as_slice());
                    let hash_hex = etag.clone();
                    stored(file_id, version_id, part_number, &control_base_url, claims, body_len, etag, hash_hex)
                },
            },
            _ => refuse(500, "internal error"),
        },
        PartPhase::Reporting { claims, body_len, backend_etag, hash_hex, url, attempt } => match e {
            PartEvent::ReportAttempted { outcome } => match callback_step(attempt, outcome) {
                CallbackStep::Accepted => (
                    PartPhase::Done,
                    PartAction::Accept { part_number, backend_etag, hash_hex },
                ),
                CallbackStep::Failed => refuse(502, "report failed"),
                CallbackStep::Retry { next_attempt } => {
                    let (size, _) = written_report(body_len, &[]);
                    let action = PartAction::SendReport {
                        url: url.clone(),
                        backend_etag: backend_etag.clone(),
                        hash_hex: hash_hex.clone(),
                        size,
                        attempt: next_attempt,
                    };
                    (
                        PartPhase::Reporting {
                            claims,
                            body_len,
                            backend_etag,
                            hash_hex,
                            url,
                            attempt: next_attempt,
                        },
                        action,
                    )
                },
            },
            _ => refuse(500, "internal error"),
        },
        PartPhase::Done => refuse(500, "internal error"),
    };
    (PartState { file_id, version_id, part_number, control_base_url, phase }, action)
}

/// The action deletes `path` and answers `400` for a part of `body_len`
/// bytes against a size claim of `size`.
pub open spec fn r1_discards(a: PartAction, path: Seq<char>, body_len: u64, size: u64) -> bool {
    a matches PartAction::DiscardAndRespond { path: p, status, body } && p@ == path && status == 400
        && body@ == "part body length "@ + dec_digits(body_len as nat)
        + " does not match token size claim "@ + dec_digits(size as nat)
}

/// After a part of the claimed size was stored with `etag` and digest
/// `hash_hex`: the report goes out as attempt 1, or, with reports disabled,
/// the part is accepted.
pub open spec fn part_stored(
    s: PartState,
    r: (PartState, PartAction),
    claims: PartClaims,
    body_len: u64,
    etag: Seq<char>,
    hash_hex: Seq<char>,
) -> bool {
    if s.control_base_url@.len() == 0 {
        r.1 matches PartAction::Accept { part_number, backend_etag, hash_hex: h }
            && part_number == s.part_number && backend_etag@ == etag && h@ == hash_hex
    } else {
        (r.0.phase matches PartPhase::Reporting {
            claims: c,
            body_len: b,
            backend_etag: t,
            hash_hex: h,
            url,
            attempt,
        } && c == claims && b == body_len && t@ == etag && h@ == hash_hex && url@ == report_url_of(
            s,
            claims.upload_id,
        ) && attempt == 1) && (r.1 matches PartAction::SendReport {
            url,
            backend_etag,
            hash_hex: h,
            size,
            attempt,
        } && url@ == report_url_of(s, claims.upload_id) && backend_etag@ == etag && h@ == hash_hex
            && size == sat_i64(body_len) && attempt == 1)
    }
}

/// The phase and action after a part of `body_len` bytes was stored.
fn stored(
    file_id: u128,
    version_id: u128,
    part_number: u32,
    control_base_url: &String,
    claims: PartClaims,
    body_len: u64,
    backend_etag: String,
    hash_hex: String,
) -> (r: (PartPhase, PartAction))
    ensures
        ({
            let s = PartState {
                file_id,
                version_id,
                part_number,
                control_base_url: *control_base_url,
                phase: PartPhase::Done,
            };
            &&& part_stored(s, (PartState { phase: r.0, ..s }, r.1), claims, body_len, backend_etag@, hash_hex@)
            &&& part_final(r.1) == (r.0 is Done)
            &&& (r.0 matches PartPhase::Reporting { claims: c, body_len: b, url, attempt, .. } ==> c == claims
                && b == body_len && url@ == report_url_of(s, claims.upload_id)
                && control_base_url@.len() > 0 && attempt == 1)
        }),
{
    match report_part_url(control_base_url.as_str(), file_id, version_id, claims.upload_id, part_number) {
        None => (PartPhase::Done, PartAction::Accept { part_number, backend_etag, hash_hex }),
        Some(url) => {
            let (size, _) = written_report(body_len, &[]);
            let action = PartAction::SendReport {
                url: url.clone(),
                backend_etag: backend_etag.clone(),
                hash_hex: hash_hex.clone(),
                size,
                attempt: 1,
            };
            (PartPhase::Reporting { claims, body_len, backend_etag, hash_hex, url, attempt: 1 }, action)
        },
    }
}

/// The claims a part upload holds, past verification.
pub open spec fn part_claims(p: PartPhase) -> Option<PartClaims> {
    match p {
        PartPhase::Resolving { claims } => Some(claims),
        PartPhase::Buffering { claims } => Some(claims),
        PartPhase::UploadingPart { claims, .. } => Some(claims),
        PartPhase::WritingObject { claims, .. } => Some(claims),
        PartPhase::Reporting { claims, .. } => Some(claims),
        _ => None,
    }
}

/// In every state a part upload reaches from `part_start` (`part_start`
/// gives a well-formed state and `part_upload_step` keeps it so): a step
/// that writes bytes starts from a state whose token grants this very part,
/// and a part is accepted only when that token grants it and the stored
/// body has exactly the claimed size.
pub proof fn law_part_checks_precede_writes_and_acceptance(s: PartState, e: PartEvent)
    requires
        part_wf(s),
    ensures
        (s.phase is Resolving || s.phase is Buffering) ==> (part_claims(s.phase) matches Some(c)
            && grants_part(c, s.file_id, s.version_id, s.part_number)),
        (accepted_unreported(s, e) || accepted_reported(s, e)) ==> (part_claims(s.phase) matches Some(
            c,
        ) && grants_part(c, s.file_id, s.version_id, s.part_number) && (match s.phase {
            PartPhase::UploadingPart { body_len, .. } => body_len == c.size,
            PartPhase::Reporting { body_len, .. } => body_len == c.size,
            PartPhase::WritingObject { .. } => e matches PartEvent::ObjectWritten { outcome } && (
            outcome matches ObjectOutcome::Stored { body_len, .. } && body_len == c.size),
            _ => false,
        })),
{
}

/// A finished part upload and the error response it sends.
fn refuse(status: u16, body: &str) -> (r: (PartPhase, PartAction))
    ensures
        r.0 is Done,
        part_responds(r.1, status, body@),
{
    (PartPhase::Done, PartAction::Respond { status, body: String::from_str(body) })
}

} // verus!
