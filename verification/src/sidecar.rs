//! Decisions of the data-plane sidecar: whether a signed token authorizes a
//! transfer, whether uploaded bytes meet the token's constraints, which
//! headers a download carries, and how control-plane callbacks are
//! addressed and retried.

use vstd::prelude::*;
use vstd::string::*;
use crate::models::ByteRange;
use crate::service::{sat_i64, saturating_i64};
use crate::text::{
    dec_digits, dec_int, eq_ascii_nocase, eq_ignore_ascii_case, hex_bytes, hex_encode, i64_decimal,
    joined, join, strip_back, trim_end_char, u64_decimal, uuid_string, uuid_text,
};

verus! {

/// Operation a signed token was minted for.
#[derive(Debug, Clone, Copy, PartialEq, Eq, Structural)]
pub enum TokenOp {
    Put,
    Get,
    MultipartPart,
}

/// Refusal message when a token is for another operation or object.
pub const WRONG_TARGET: &'static str = "token does not authorize this operation";

/// Refusal message when a part token names another part.
pub const WRONG_PART: &'static str = "token part_number does not match path";

/// A token authorizes a single-object transfer when it was minted for this
/// operation on exactly this `(file_id, version_id)`.
pub fn check_object_token(
    op: TokenOp,
    wanted: TokenOp,
    claim_file_id: u128,
    claim_version_id: u128,
    file_id: u128,
    version_id: u128,
) -> (r: Result<(), &'static str>)
    ensures
        (op == wanted && claim_file_id == file_id && claim_version_id == version_id) ==> r is Ok,
        !(op == wanted && claim_file_id == file_id && claim_version_id == version_id) ==> (r matches Err(
            m,
        ) && m@ == WRONG_TARGET@),
{
    if op != wanted || claim_file_id != file_id || claim_version_id != version_id {
        return Err(WRONG_TARGET);
    }
    Ok(())
}

/// A part token authorizes a part upload when it is a part token for this
/// `(file_id, version_id)` and names this part; replaying another part's
/// token is refused.
pub fn check_part_token(
    op: TokenOp,
    claim_file_id: u128,
    claim_version_id: u128,
    claim_part_number: u32,
    file_id: u128,
    version_id: u128,
    part_number: u32,
) -> (r: Result<(), &'static str>)
    ensures
        !(op == TokenOp::MultipartPart && claim_file_id == file_id && claim_version_id
            == version_id) ==> (r matches Err(m) && m@ == WRONG_TARGET@),
        (op == TokenOp::MultipartPart && claim_file_id == file_id && claim_version_id == version_id
            && claim_part_number != part_number) ==> (r matches Err(m) && m@ == WRONG_PART@),
        (op == TokenOp::MultipartPart && claim_file_id == file_id && claim_version_id == version_id
            && claim_part_number == part_number) ==> r is Ok,
{
    check_object_token(op, TokenOp::MultipartPart, claim_file_id, claim_version_id, file_id, version_id)?;
    if claim_part_number != part_number {
        return Err(WRONG_PART);
    }
    Ok(())
}

/// The token taken from the `fs-token` query parameter, else from the
/// `x-fs-token` header.
pub fn select_token(query: Option<String>, header: Option<String>) -> (r: Option<String>)
    ensures
        r == (match query {
            Some(q) => Some(q),
            None => header,
        }),
{
    match query {
        Some(q) => Some(q),
        None => header,
    }
}

/// Refusal of an upload whose bytes break the token's constraints.
#[derive(Debug, Clone, Copy, PartialEq, Eq, Structural)]
pub enum UploadRejection {
    /// The byte count differs from the token's `exact_size`.
    SizeMismatch,
    /// The content hash differs from the token's `expected_hash`.
    HashMismatch,
}

impl UploadRejection {
    pub fn message(&self) -> (r: &'static str)
        ensures
            r@ == (match self {
                UploadRejection::SizeMismatch => "size does not match exact_size"@,
                UploadRejection::HashMismatch => "content hash mismatch"@,
            }),
    {
        match self {
            UploadRejection::SizeMismatch => "size does not match exact_size",
            UploadRejection::HashMismatch => "content hash mismatch",
        }
    }
}

/// Check the streamed upload against the token: the exact size when one is
/// set, then the expected hash `"{algorithm}:{hex digest}"`, compared
/// without regard to ASCII case.
pub fn check_upload_constraints(
    bytes_written: u64,
    exact_size: Option<u64>,
    expected_hash: Option<&str>,
    algorithm: &str,
    digest: &[u8],
) -> (r: Result<(), UploadRejection>)
    ensures
        (exact_size matches Some(n) && n != bytes_written) ==> r == Err::<(), UploadRejection>(
            UploadRejection::SizeMismatch,
        ),
        !(exact_size matches Some(n) && n != bytes_written) ==> (match expected_hash {
            Some(h) => if eq_ascii_nocase(h@, algorithm@ + seq![':'] + hex_bytes(digest@)) {
                r is Ok
            } else {
                r == Err::<(), UploadRejection>(UploadRejection::HashMismatch)
            },
            None => r is Ok,
        }),
{
    if let Some(n) = exact_size {
        if n != bytes_written {
            return Err(UploadRejection::SizeMismatch);
        }
    }
    if let Some(h) = expected_hash {
        let got = String::from_str(algorithm).concat(":").concat(hex_encode(digest).as_str());
        proof {
            reveal_strlit(":");
        }
        assert(got@ =~= algorithm@ + seq![':'] + hex_bytes(digest@));
        if !eq_ignore_ascii_case(h, got.as_str()) {
            return Err(UploadRejection::HashMismatch);
        }
    }
    Ok(())
}

/// Whether appending a chunk to the buffered part would exceed the token's
/// size claim (the sum saturates rather than wrapping).
pub fn chunk_overflows(buffered: u64, chunk_len: u64, max_size: u64) -> (r: bool)
    ensures
        r == ((if buffered + chunk_len > u64::MAX {
            u64::MAX as int
        } else {
            buffered + chunk_len
        }) > max_size),
{
    let total: u64 = if buffered > u64::MAX - chunk_len {
        u64::MAX
    } else {
        buffered + chunk_len
    };
    total > max_size
}

/// Message for a part whose body exceeds the token's size claim.
pub fn part_too_large_message(max_size: u64) -> (r: String)
    ensures
        r@ == "part body length exceeds token size claim "@ + dec_digits(max_size as nat),
{
    String::from_str("part body length exceeds token size claim ").concat(
        u64_decimal(max_size).as_str(),
    )
}

/// Message for a part whose body is shorter than the token's size claim.
pub fn part_length_mismatch_message(body_len: u64, size: u64) -> (r: String)
    ensures
        r@ == "part body length "@ + dec_digits(body_len as nat)
            + " does not match token size claim "@ + dec_digits(size as nat),
{
    String::from_str("part body length ").concat(u64_decimal(body_len).as_str()).concat(
        " does not match token size claim ",
    ).concat(u64_decimal(size).as_str())
}

/// Path of a part written as its own object on a backend without native
/// multipart support: `{backend_path}.part.{n}`.
pub fn offset_part_path(backend_path: &str, part_number: u32) -> (r: String)
    ensures
        r@ == backend_path@ + ".part."@ + dec_digits(part_number as nat),
{
    String::from_str(backend_path).concat(".part.").concat(u64_decimal(part_number as u64).as_str())
}

/// Outcome of a ranged download of a blob that exists.
pub enum RangeReply {
    /// `206 Partial Content` over `[start, end]`, with its `Content-Range`.
    Partial { start: u64, end: u64, content_range: String },
    /// `416 Range Not Satisfiable`, with `Content-Range: bytes */{total}`.
    Unsatisfiable { content_range: String },
}

/// Answer a `Range` request against a blob of `total` bytes.
pub fn range_reply(range: ByteRange, total: u64) -> (r: RangeReply)
    ensures
        match range.spec_resolve(total) {
            Some((s, e)) => r matches RangeReply::Partial { start, end, content_range } && start
                == s && end == e && content_range@ == "bytes "@ + dec_digits(s as nat) + "-"@
                + dec_digits(e as nat) + "/"@ + dec_digits(total as nat),
            None => r matches RangeReply::Unsatisfiable { content_range } && content_range@
                == "bytes */"@ + dec_digits(total as nat),
        },
{
    match range.resolve(total) {
        Some((start, end)) => {
            let content_range = String::from_str("bytes ").concat(u64_decimal(start).as_str()).concat(
                "-",
            ).concat(u64_decimal(end).as_str()).concat("/").concat(u64_decimal(total).as_str());
            RangeReply::Partial { start, end, content_range }
        },
        None => RangeReply::Unsatisfiable {
            content_range: String::from_str("bytes */").concat(u64_decimal(total).as_str()),
        },
    }
}

/// A character HTTP allows in a header value: tab, or anything from space
/// upwards except DEL.
pub open spec fn header_char_ok(c: char) -> bool {
    c == '\t' || (c >= ' ' && c != '\x7f')
}

/// Every character may appear in a header value.
pub open spec fn header_text_ok(s: Seq<char>) -> bool {
    forall|i: int| 0 <= i < s.len() ==> header_char_ok(#[trigger] s[i])
}

fn header_ok(s: &str) -> (r: bool)
    ensures
        r == header_text_ok(s@),
{
    let n = s.unicode_len();
    let mut i: usize = 0;
    while i < n
        invariant
            i <= n,
            n == s@.len(),
            forall|j: int| 0 <= j < i ==> header_char_ok(#[trigger] s@[j]),
        decreases n - i,
    {
        let c = s.get_char(i);
        if !(c == '\t' || (c >= ' ' && c != '\x7f')) {
            assert(!header_char_ok(s@[i as int]));
            return false;
        }
        i = i + 1;
    }
    true
}

/// Content type of downloads whose token names none usable.
pub const FALLBACK_CONTENT_TYPE: &'static str = "application/octet-stream";

/// `Content-Type` of a download: the token's claim when it is non-empty and
/// a valid header value, else `application/octet-stream`.
pub fn download_content_type(claim: &str) -> (r: String)
    ensures
        r@ == (if claim@.len() > 0 && header_text_ok(claim@) {
            claim@
        } else {
            FALLBACK_CONTENT_TYPE@
        }),
{
    if claim.unicode_len() > 0 && header_ok(claim) {
        String::from_str(claim)
    } else {
        String::from_str(FALLBACK_CONTENT_TYPE)
    }
}

/// `ETag` of a download: the token's claim when it is non-empty and a valid
/// header value; otherwise the header is omitted.
pub fn download_etag(claim: &str) -> (r: Option<String>)
    ensures
        match r {
            Some(e) => claim@.len() > 0 && header_text_ok(claim@) && e@ == claim@,
            None => !(claim@.len() > 0 && header_text_ok(claim@)),
        },
{
    if claim.unicode_len() > 0 && header_ok(claim) {
        Some(String::from_str(claim))
    } else {
        None
    }
}

/// Readiness answer: `200 "ready"` when no backend failed; otherwise `503`
/// naming only the failing backend ids, never their errors.
pub fn readiness_reply(failing: &Vec<String>) -> (r: (u16, String))
    ensures
        failing@.len() == 0 ==> r.0 == 200 && r.1@ == "ready"@,
        failing@.len() > 0 ==> r.0 == 503 && r.1@ == "not ready: "@ + joined(
            failing.deep_view(),
            ", "@,
        ),
{
    if failing.len() == 0 {
        (200, String::from_str("ready"))
    } else {
        (503, String::from_str("not ready: ").concat(join(failing, ", ").as_str()))
    }
}

/// The finalize callback URL; `None` when callbacks are disabled (empty
/// control-plane base URL). Trailing slashes of the base are dropped.
pub fn finalize_url(control_base_url: &str, file_id: u128, version_id: u128) -> (r: Option<String>)
    ensures
        control_base_url@.len() == 0 ==> r is None,
        control_base_url@.len() > 0 ==> (r matches Some(u) && u@ == strip_back(
            control_base_url@,
            '/',
        ) + "/api/file-storage/v1/files/"@ + uuid_text(file_id) + "/versions/"@ + uuid_text(
            version_id,
        ) + "/finalize"@),
{
    if control_base_url.unicode_len() == 0 {
        return None;
    }
    let base = trim_end_char(control_base_url, '/');
    Some(
        base.concat("/api/file-storage/v1/files/").concat(uuid_string(file_id).as_str()).concat(
            "/versions/",
        ).concat(uuid_string(version_id).as_str()).concat("/finalize"),
    )
}

/// The report-part callback URL; `None` when callbacks are disabled.
pub fn report_part_url(
    control_base_url: &str,
    file_id: u128,
    version_id: u128,
    upload_id: u128,
    part_number: u32,
) -> (r: Option<String>)
    ensures
        control_base_url@.len() == 0 ==> r is None,
        control_base_url@.len() > 0 ==> (r matches Some(u) && u@ == strip_back(
            control_base_url@,
            '/',
        ) + "/api/file-storage/v1/files/"@ + uuid_text(file_id) + "/versions/"@ + uuid_text(
            version_id,
        ) + "/multipart/"@ + uuid_text(upload_id) + "/parts/"@ + dec_digits(part_number as nat)
            + "/report"@),
{
    if control_base_url.unicode_len() == 0 {
        return None;
    }
    let base = trim_end_char(control_base_url, '/');
    Some(
        base.concat("/api/file-storage/v1/files/").concat(uuid_string(file_id).as_str()).concat(
            "/versions/",
        ).concat(uuid_string(version_id).as_str()).concat("/multipart/").concat(
            uuid_string(upload_id).as_str(),
        ).concat("/parts/").concat(u64_decimal(part_number as u64).as_str()).concat("/report"),
    )
}

/// Attempts (including the first) of a control-plane callback.
pub const CALLBACK_MAX_ATTEMPTS: u32 = 3;

/// Whether a failed callback attempt is retried: only transport connect or
/// timeout failures, and only while attempts remain.
pub fn should_retry(attempt: u32, is_connect: bool, is_timeout: bool) -> (r: bool)
    ensures
        r == (attempt < CALLBACK_MAX_ATTEMPTS && (is_connect || is_timeout)),
{
    attempt < CALLBACK_MAX_ATTEMPTS && (is_connect || is_timeout)
}

/// What one attempt of a control-plane callback met.
#[derive(Debug, Clone, Copy, PartialEq, Eq, Structural)]
pub enum CallbackOutcome {
    /// The control plane answered with this HTTP status.
    Answered { status: u16 },
    /// The request failed in transport.
    TransportFailed { is_connect: bool, is_timeout: bool },
}

/// What the sidecar does after an attempt.
#[derive(Debug, Clone, Copy, PartialEq, Eq, Structural)]
pub enum CallbackStep {
    /// The control plane accepted the callback.
    Accepted,
    /// Send again, as attempt `next_attempt`, after the retry delay.
    Retry { next_attempt: u32 },
    /// Give up: the client gets `callback_failure_reply`.
    Failed,
}

/// The step after attempt `attempt` met `outcome`: a 2xx answer is
/// accepted, any other answer fails at once, and a transport failure is
/// retried only when `should_retry` allows it.
pub open spec fn spec_callback_step(attempt: u32, outcome: CallbackOutcome) -> CallbackStep {
    match outcome {
        CallbackOutcome::Answered { status } => if 200 <= status <= 299 {
            CallbackStep::Accepted
        } else {
            CallbackStep::Failed
        },
        CallbackOutcome::TransportFailed { is_connect, is_timeout } => if attempt
            < CALLBACK_MAX_ATTEMPTS && (is_connect || is_timeout) {
            CallbackStep::Retry { next_attempt: (attempt + 1) as u32 }
        } else {
            CallbackStep::Failed
        },
    }
}

/// Decide the step after a callback attempt.
pub fn callback_step(attempt: u32, outcome: CallbackOutcome) -> (r: CallbackStep)
    ensures
        r == spec_callback_step(attempt, outcome),
{
    match outcome {
        CallbackOutcome::Answered { status } => if 200 <= status && status <= 299 {
            CallbackStep::Accepted
        } else {
            CallbackStep::Failed
        },
        CallbackOutcome::TransportFailed { is_connect, is_timeout } => if should_retry(
            attempt,
            is_connect,
            is_timeout,
        ) {
            CallbackStep::Retry { next_attempt: attempt + 1 }
        } else {
            CallbackStep::Failed
        },
    }
}

/// How many requests a callback sends, starting at attempt `attempt`, when
/// its successive attempts meet `outcomes` (a run that outlives `outcomes`
/// is counted up to its end).
pub open spec fn callback_sends(attempt: u32, outcomes: Seq<CallbackOutcome>) -> nat
    decreases outcomes.len(),
{
    if outcomes.len() == 0 {
        0
    } else {
        match spec_callback_step(attempt, outcomes[0]) {
            CallbackStep::Retry { next_attempt } => 1 + callback_sends(
                next_attempt,
                outcomes.drop_first(),
            ),
            _ => 1,
        }
    }
}

/// A callback sends at most `CALLBACK_MAX_ATTEMPTS` requests, whatever each
/// attempt meets; an answered attempt, whatever its status, is never sent
/// again.
pub proof fn law_callback_attempts_bounded(attempt: u32, outcomes: Seq<CallbackOutcome>)
    requires
        1 <= attempt <= CALLBACK_MAX_ATTEMPTS,
    ensures
        callback_sends(attempt, outcomes) <= CALLBACK_MAX_ATTEMPTS - attempt + 1,
        forall|status: u16|
            !(#[trigger] spec_callback_step(attempt, CallbackOutcome::Answered { status }) is Retry),
    decreases outcomes.len(),
{
    if outcomes.len() > 0 {
        match spec_callback_step(attempt, outcomes[0]) {
            CallbackStep::Retry { next_attempt } => {
                law_callback_attempts_bounded(next_attempt, outcomes.drop_first());
            },
            _ => {},
        }
    }
}

/// The shared secret sent with callbacks: an unset or empty value sends none.
pub fn internal_token(configured: Option<String>) -> (r: Option<String>)
    ensures
        match configured {
            Some(t) => if t@.len() > 0 {
                r == Some(t)
            } else {
                r is None
            },
            None => r is None,
        },
{
    match configured {
        Some(t) => if t.as_str().unicode_len() > 0 {
            Some(t)
        } else {
            None
        },
        None => None,
    }
}

/// Reply sent to the uploading client when a control-plane callback fails;
/// it never carries the upstream status, body or address.
pub fn callback_failure_reply(finalize: bool) -> (r: (u16, &'static str))
    ensures
        r.0 == 502,
        r.1@ == (if finalize {
            "finalize failed"@
        } else {
            "report failed"@
        }),
{
    if finalize {
        (502, "finalize failed")
    } else {
        (502, "report failed")
    }
}

/// What a finished write reports to the control plane: its size, saturated
/// to `i64::MAX`, and its digest in lowercase hexadecimal.
pub fn written_report(bytes_written: u64, digest: &[u8]) -> (r: (i64, String))
    ensures
        r.0 == sat_i64(bytes_written),
        r.1@ == hex_bytes(digest@),
{
    (saturating_i64(bytes_written), hex_encode(digest))
}

} // verus!
