//! Multipart upload sessions and parts, and the rules the control plane
//! applies to them when a part is reported, and when a session is
//! initiated, completed or aborted.

use vstd::prelude::*;
use vstd::string::*;
use crate::error::DomainError;
use crate::text::{dec_digits, dec_int, i64_decimal, str_eq, u64_decimal, uuid_string, uuid_text};

verus! {

/// State of a multipart upload session.
#[derive(Debug, Clone, Copy, PartialEq, Eq, Structural)]
pub enum MultipartUploadState {
    InProgress,
    Completed,
    Aborted,
}

impl MultipartUploadState {
    /// Wire and storage spelling.
    pub open spec fn spec_name(self) -> Seq<char> {
        match self {
            MultipartUploadState::InProgress => "in_progress"@,
            MultipartUploadState::Completed => "completed"@,
            MultipartUploadState::Aborted => "aborted"@,
        }
    }

    /// The state that a spelling names, if any.
    pub open spec fn spec_parse(s: Seq<char>) -> Option<MultipartUploadState> {
        if s == "in_progress"@ {
            Some(MultipartUploadState::InProgress)
        } else if s == "completed"@ {
            Some(MultipartUploadState::Completed)
        } else if s == "aborted"@ {
            Some(MultipartUploadState::Aborted)
        } else {
            None
        }
    }

    pub fn as_str(&self) -> (r: &'static str)
        ensures
            r@ == self.spec_name(),
    {
        match self {
            MultipartUploadState::InProgress => "in_progress",
            MultipartUploadState::Completed => "completed",
            MultipartUploadState::Aborted => "aborted",
        }
    }

    pub fn parse(s: &str) -> (r: Option<MultipartUploadState>)
        ensures
            r == MultipartUploadState::spec_parse(s@),
    {
        if str_eq(s, "in_progress") {
            Some(MultipartUploadState::InProgress)
        } else if str_eq(s, "completed") {
            Some(MultipartUploadState::Completed)
        } else if str_eq(s, "aborted") {
            Some(MultipartUploadState::Aborted)
        } else {
            None
        }
    }
}

/// A state's spelling parses back to the state, and every spelling that
/// parses is the spelling of what it parses to.
pub proof fn law_upload_state_round_trip(st: MultipartUploadState, s: Seq<char>)
    ensures
        MultipartUploadState::spec_parse(st.spec_name()) == Some(st),
        MultipartUploadState::spec_parse(s) matches Some(j) ==> j.spec_name() == s,
{
    reveal_strlit("in_progress");
    reveal_strlit("completed");
    reveal_strlit("aborted");
    assert("in_progress"@ != "completed"@) by {
        assert("in_progress"@.len() != "completed"@.len());
    }
    assert("in_progress"@ != "aborted"@) by {
        assert("in_progress"@.len() != "aborted"@.len());
    }
    assert("completed"@ != "aborted"@) by {
        assert("completed"@.len() != "aborted"@.len());
    }
}

/// An in-flight multipart upload session.
#[derive(Debug, Clone)]
pub struct MultipartUploadSession {
    pub upload_id: u128,
    pub file_id: u128,
    pub version_id: u128,
    pub backend_upload_handle: String,
    pub state: MultipartUploadState,
    pub declared_mime: String,
    /// Total size the client declared at initiation, in bytes.
    pub declared_size: u64,
    pub mime_validated: bool,
    /// Creation time, in nanoseconds since the Unix epoch.
    pub created_at: i128,
    /// Expiry time, in nanoseconds since the Unix epoch.
    pub expires_at: i128,
}

/// One uploaded part of a multipart session.
#[derive(Debug, Clone)]
pub struct MultipartPart {
    pub upload_id: u128,
    pub part_number: u32,
    pub backend_etag: String,
    pub part_hash: Vec<u8>,
    pub size: i64,
    /// Upload time, in nanoseconds since the Unix epoch.
    pub uploaded_at: i128,
}

/// The error for a session that is missing or bound to another file.
pub open spec fn not_found(e: DomainError, upload_id: u128) -> bool {
    e == DomainError::MultipartUploadNotFound { upload_id }
}

/// The error for a session that is not `in_progress` (named `state`).
pub open spec fn not_in_progress(e: DomainError, upload_id: u128, state: Seq<char>) -> bool {
    e matches DomainError::MultipartUploadNotInProgress { upload_id: u, state: s } && u == upload_id
        && s@ == state
}

/// Check a part report from the sidecar against the session it names: the
/// session must exist, belong to the token's file and version, and be in
/// progress. Returns the part number as stored.
pub fn validate_part_report(
    session: Option<&MultipartUploadSession>,
    upload_id: u128,
    file_id: u128,
    version_id: u128,
    part_number: u32,
) -> (r: Result<i32, DomainError>)
    ensures
        match session {
            None => r matches Err(e) && not_found(e, upload_id),
            Some(s) => if s.file_id != file_id || s.version_id != version_id {
                r matches Err(e) && not_found(e, upload_id)
            } else if s.state != MultipartUploadState::InProgress {
                r matches Err(e) && not_in_progress(e, upload_id, s.state.spec_name())
            } else if part_number > i32::MAX {
                r matches Err(DomainError::Validation { field, message }) && field@ == "part_number"@
                    && message@ == "part_number overflows i32"@
            } else {
                r == Ok::<i32, DomainError>(part_number as i32)
            },
        },
{
    let s = match session {
        None => return Err(DomainError::multipart_upload_not_found(upload_id)),
        Some(s) => s,
    };
    if s.file_id != file_id || s.version_id != version_id {
        return Err(DomainError::multipart_upload_not_found(upload_id));
    }
    if s.state != MultipartUploadState::InProgress {
        return Err(DomainError::multipart_upload_not_in_progress(upload_id, s.state.as_str()));
    }
    if part_number > 2147483647u32 {
        return Err(DomainError::validation("part_number", "part_number overflows i32"));
    }
    Ok(part_number as i32)
}

/// Check that a session may be completed now: it exists, belongs to
/// `file_id`, is in progress, and has not expired (`expires_at <= now`
/// counts as expired).
pub fn validate_session_for_complete(
    session: Option<&MultipartUploadSession>,
    file_id: u128,
    upload_id: u128,
    now: i128,
) -> (r: Result<(), DomainError>)
    ensures
        match session {
            None => r matches Err(e) && not_found(e, upload_id),
            Some(s) => if s.file_id != file_id {
                r matches Err(e) && not_found(e, upload_id)
            } else if s.state != MultipartUploadState::InProgress {
                r matches Err(e) && not_in_progress(e, upload_id, s.state.spec_name())
            } else if s.expires_at <= now {
                r matches Err(e) && not_in_progress(e, upload_id, "expired"@)
            } else {
                r is Ok
            },
        },
{
    let s = match session {
        None => return Err(DomainError::multipart_upload_not_found(upload_id)),
        Some(s) => s,
    };
    if s.file_id != file_id {
        return Err(DomainError::multipart_upload_not_found(upload_id));
    }
    if s.state != MultipartUploadState::InProgress {
        return Err(DomainError::multipart_upload_not_in_progress(upload_id, s.state.as_str()));
    }
    if s.expires_at <= now {
        return Err(DomainError::multipart_upload_not_in_progress(upload_id, "expired"));
    }
    Ok(())
}

/// Check that a session may be aborted: it exists, belongs to `file_id`,
/// and is in progress.
pub fn validate_session_for_abort(
    session: Option<&MultipartUploadSession>,
    file_id: u128,
    upload_id: u128,
) -> (r: Result<(), DomainError>)
    ensures
        match session {
            None => r matches Err(e) && not_found(e, upload_id),
            Some(s) => if s.file_id != file_id {
                r matches Err(e) && not_found(e, upload_id)
            } else if s.state != MultipartUploadState::InProgress {
                r matches Err(e) && not_in_progress(e, upload_id, s.state.spec_name())
            } else {
                r is Ok
            },
        },
{
    let s = match session {
        None => return Err(DomainError::multipart_upload_not_found(upload_id)),
        Some(s) => s,
    };
    if s.file_id != file_id {
        return Err(DomainError::multipart_upload_not_found(upload_id));
    }
    if s.state != MultipartUploadState::InProgress {
        return Err(DomainError::multipart_upload_not_in_progress(upload_id, s.state.as_str()));
    }
    Ok(())
}

/// Sum of the sizes of the parts.
pub open spec fn sizes_sum(parts: Seq<MultipartPart>) -> int
    decreases parts.len(),
{
    if parts.len() == 0 {
        0
    } else {
        sizes_sum(parts.drop_last()) + parts.last().size
    }
}

/// Total assembled size of the uploaded parts.
pub fn assembled_size(parts: &Vec<MultipartPart>) -> (r: i64)
    requires
        forall|k: int|
            0 <= k <= parts@.len() ==> i64::MIN <= #[trigger] sizes_sum(parts@.take(k)) <= i64::MAX,
    ensures
        r as int == sizes_sum(parts@),
{
    let mut total: i64 = 0;
    let mut i: usize = 0;
    assert(parts@.take(0) =~= Seq::<MultipartPart>::empty());
    while i < parts.len()
        invariant
            i <= parts@.len(),
            total as int == sizes_sum(parts@.take(i as int)),
            forall|k: int|
                0 <= k <= parts@.len() ==> i64::MIN <= #[trigger] sizes_sum(parts@.take(k))
                    <= i64::MAX,
        decreases parts@.len() - i,
    {
        assert(parts@.take(i + 1).drop_last() =~= parts@.take(i as int));
        assert(sizes_sum(parts@.take(i + 1)) == sizes_sum(parts@.take(i as int)) + parts@[i as int].size);
        total = total + parts[i].size;
        i = i + 1;
    }
    assert(parts@.take(parts@.len() as int) =~= parts@);
    total
}

/// The declared size as a signed size, saturating at `i64::MAX`.
pub open spec fn declared_as_i64(declared_size: u64) -> int {
    if declared_size <= i64::MAX {
        declared_size as int
    } else {
        i64::MAX as int
    }
}

/// When a size was declared, the assembled size must equal it; otherwise
/// the upload has a missing or extra part.
pub fn check_assembled_size(upload_id: u128, total_size: i64, declared_size: u64) -> (r: Result<
    (),
    DomainError,
>)
    ensures
        (declared_size > 0 && total_size != declared_as_i64(declared_size)) ==> (r matches Err(
            DomainError::Conflict { message },
        ) && message@ == "multipart upload "@ + uuid_text(upload_id) + ": assembled size "@
            + dec_int(total_size as int) + " does not match declared_size "@ + dec_int(
            declared_as_i64(declared_size),
        )),
        !(declared_size > 0 && total_size != declared_as_i64(declared_size)) ==> r is Ok,
{
    if declared_size > 0 {
        let expected: i64 = if declared_size <= 9223372036854775807u64 {
            declared_size as i64
        } else {
            i64::MAX
        };
        if total_size != expected {
            let m = String::from_str("multipart upload ").concat(uuid_string(upload_id).as_str()).concat(
                ": assembled size ",
            ).concat(i64_decimal(total_size).as_str()).concat(" does not match declared_size ").concat(
                i64_decimal(expected).as_str(),
            );
            return Err(DomainError::Conflict { message: m });
        }
    }
    Ok(())
}

/// A completed upload larger than the effective limit is refused.
pub fn check_assembled_within_limit(effective_max: Option<u64>, total_size: i64) -> (r: Result<
    (),
    DomainError,
>)
    ensures
        match effective_max {
            Some(limit) => if total_size > 0 && total_size > limit {
                r matches Err(DomainError::PolicySizeExceeded { limit_bytes, limit_source })
                    && limit_bytes == limit && limit_source@ == "policy size limit"@
            } else {
                r is Ok
            },
            None => r is Ok,
        },
{
    if let Some(limit) = effective_max {
        if total_size > 0 && (total_size as u64) > limit {
            return Err(DomainError::policy_size_exceeded(limit, "policy size limit"));
        }
    }
    Ok(())
}

/// A multipart upload whose declared size exceeds the effective limit is
/// refused up front, at initiation.
pub fn check_declared_within_limit(effective_max: Option<u64>, declared_size: u64) -> (r: Result<
    (),
    DomainError,
>)
    ensures
        match effective_max {
            Some(limit) => if declared_size > limit {
                r matches Err(DomainError::PolicySizeExceeded { limit_bytes, limit_source })
                    && limit_bytes == limit && limit_source@ == "policy size limit"@
            } else {
                r is Ok
            },
            None => r is Ok,
        },
{
    if let Some(limit) = effective_max {
        if declared_size > limit {
            return Err(DomainError::policy_size_exceeded(limit, "policy size limit"));
        }
    }
    Ok(())
}

/// A backend without native multipart support cannot host a session.
pub fn check_multipart_capable(multipart_native: bool, backend_id: &str) -> (r: Result<
    (),
    DomainError,
>)
    ensures
        multipart_native ==> r is Ok,
        !multipart_native ==> (r matches Err(DomainError::MultipartNotSupported { backend_id: b })
            && b@ == backend_id@),
{
    if !multipart_native {
        return Err(DomainError::multipart_not_supported(backend_id));
    }
    Ok(())
}

/// Nanoseconds per second.
pub const NANOS_PER_SEC: i128 = 1_000_000_000;

/// Session and signed-URL expiry: `now` plus the configured TTL, at least
/// one second.
pub fn session_expiry(now: i128, url_ttl_secs: i64) -> (r: i128)
    requires
        -0x1_0000_0000_0000_0000_0000_0000_0000 <= now <= 0x1_0000_0000_0000_0000_0000_0000_0000,
    ensures
        r == now + (if url_ttl_secs >= 1 { url_ttl_secs as int } else { 1 }) * NANOS_PER_SEC,
{
    let secs: i64 = if url_ttl_secs >= 1 { url_ttl_secs } else { 1 };
    assert(0 < secs * NANOS_PER_SEC <= 0x8000_0000_0000_0000 * 1_000_000_000) by (nonlinear_arith)
        requires
            1 <= secs <= i64::MAX,
    ;
    now + (secs as i128) * NANOS_PER_SEC
}

/// Object path of a version on its backend: `/{file_id}/{version_id}`.
pub open spec fn backend_path_of(file_id: u128, version_id: u128) -> Seq<char> {
    "/"@ + uuid_text(file_id) + "/"@ + uuid_text(version_id)
}

pub fn backend_path(file_id: u128, version_id: u128) -> (r: String)
    ensures
        r@ == backend_path_of(file_id, version_id),
{
    String::from_str("/").concat(uuid_string(file_id).as_str()).concat("/").concat(
        uuid_string(version_id).as_str(),
    )
}

/// Kind of actor recorded in audit entries: `"app"` for an app subject,
/// `"user"` for every other subject.
pub fn actor_kind(subject_type: Option<&str>) -> (r: &'static str)
    ensures
        r@ == (if subject_type matches Some(t) && t@ == "app"@ {
            "app"@
        } else {
            "user"@
        }),
{
    match subject_type {
        Some(t) => if str_eq(t, "app") {
            "app"
        } else {
            "user"
        },
        None => "user",
    }
}

/// Signed sidecar URL for uploading one part.
pub open spec fn part_upload_url_of(
    base: Seq<char>,
    file_id: u128,
    version_id: u128,
    part_number: u32,
    token: Seq<char>,
) -> Seq<char> {
    base + "/api/file-storage-data/v1/multipart/"@ + uuid_text(file_id) + "/"@ + uuid_text(
        version_id,
    ) + "/parts/"@ + dec_digits(part_number as nat) + "?fs-token="@ + token
}

pub fn part_upload_url(
    sidecar_base_url: &str,
    file_id: u128,
    version_id: u128,
    part_number: u32,
    token: &str,
) -> (r: String)
    ensures
        r@ == part_upload_url_of(sidecar_base_url@, file_id, version_id, part_number, token@),
{
    String::from_str(sidecar_base_url).concat("/api/file-storage-data/v1/multipart/").concat(
        uuid_string(file_id).as_str(),
    ).concat("/").concat(uuid_string(version_id).as_str()).concat("/parts/").concat(
        u64_decimal(part_number as u64).as_str(),
    ).concat("?fs-token=").concat(token)
}

/// The backend a session's version lives on: the one its version row names,
/// or the default backend when the row is gone.
pub fn version_backend_id(version_backend: Option<&str>, default_id: &str) -> (r: String)
    ensures
        r@ == (match version_backend {
            Some(b) => b@,
            None => default_id@,
        }),
{
    match version_backend {
        Some(b) => b.to_owned(),
        None => default_id.to_owned(),
    }
}

/// `(part_number, backend_etag)` of every part, in order, as the backend
/// needs them to assemble the object.
pub fn backend_parts(parts: &Vec<MultipartPart>) -> (r: Vec<(u32, String)>)
    ensures
        r@.len() == parts@.len(),
        forall|k: int|
            0 <= k < parts@.len() ==> (#[trigger] r@[k]).0 == parts@[k].part_number && r@[k].1@
                == parts@[k].backend_etag@,
{
    let mut r: Vec<(u32, String)> = Vec::new();
    let mut i: usize = 0;
    while i < parts.len()
        invariant
            i <= parts@.len(),
            r@.len() == i,
            forall|k: int|
                0 <= k < i ==> (#[trigger] r@[k]).0 == parts@[k].part_number && r@[k].1@
                    == parts@[k].backend_etag@,
        decreases parts@.len() - i,
    {
        r.push((parts[i].part_number, parts[i].backend_etag.clone()));
        i = i + 1;
    }
    r
}

/// Finalising the version row failed because it was removed concurrently.
pub fn version_removed_error(upload_id: u128) -> (r: DomainError)
    ensures
        r matches DomainError::Conflict { message } && message@ == "multipart upload "@ + uuid_text(
            upload_id,
        ) + ": version row was removed before completion"@,
{
    DomainError::Conflict {
        message: String::from_str("multipart upload ").concat(uuid_string(upload_id).as_str()).concat(
            ": version row was removed before completion",
        ),
    }
}

/// The storage-quota service's answer to a request for more bytes.
#[derive(Debug, Clone, PartialEq, Eq)]
pub enum QuotaDecision {
    Allowed,
    Denied { reason: String },
}

/// Outcome of the quota preflight: with no quota service configured
/// (`None`) every request passes; a denial is refused with its reason.
pub fn quota_verdict(decision: Option<QuotaDecision>) -> (r: Result<(), DomainError>)
    ensures
        match decision {
            Some(QuotaDecision::Denied { reason }) => r matches Err(DomainError::QuotaExceeded { reason: m })
                && m@ == reason@,
            _ => r is Ok,
        },
{
    match decision {
        Some(QuotaDecision::Denied { reason }) => Err(DomainError::QuotaExceeded { reason }),
        _ => Ok(()),
    }
}

} // verus!
