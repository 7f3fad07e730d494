//! Initiating a multipart upload as a step function. The loop around it
//! loads and authorizes the file, resolves the effective policy, asks the
//! quota service, draws fresh identifiers and the parts plan, writes the
//! pending version and the session row, opens the backend session and mints
//! one signed URL per part.
//!
//! A backend without native multipart support, a MIME type the policy
//! refuses, a declared size over the effective limit and a quota denial are
//! all refused before any pending version, backend session, session row or
//! URL is made. A session row that cannot be written has its backend
//! session and pending version cleaned up before the error is returned.

use vstd::prelude::*;
use crate::error::DomainError;
use crate::multipart::{
    backend_path, backend_path_of, check_declared_within_limit, check_multipart_capable,
    part_upload_url, part_upload_url_of, quota_verdict, session_expiry, QuotaDecision,
    NANOS_PER_SEC,
};

verus! {

/// One part of the plan handed to the client: where it sits in the object
/// and the signed URL that accepts it.
pub struct MultipartPartPlan {
    pub part_number: u32,
    pub offset: u64,
    pub size: u64,
    pub upload_url: String,
}

/// What a successful initiation returns.
pub struct MultipartPlan {
    pub upload_id: u128,
    pub version_id: u128,
    pub part_hash_algorithm: String,
    pub part_size: u64,
    pub parts: Vec<MultipartPartPlan>,
    /// Expiry of the session and of every URL, in nanoseconds since the
    /// Unix epoch.
    pub expires_at: i128,
}

/// The fresh identifiers, the clock reading (nanoseconds since the Unix
/// epoch) and the parts plan `(part_number, offset, size)` drawn for one
/// initiation.
pub struct PlanDraft {
    pub upload_id: u128,
    pub version_id: u128,
    pub now: i128,
    pub part_size: u64,
    pub parts: Vec<(u32, u64, u64)>,
}

/// Where an initiation stands. `limit` is the effective size limit the
/// policy gave.
pub enum InitiatePhase {
    /// Waiting for the file to be loaded and the write authorized.
    Authorizing,
    /// Waiting for the effective policy: the MIME check and the limit.
    ResolvingPolicy,
    /// Waiting for the quota service.
    CheckingQuota { limit: Option<u64> },
    /// Every check passed; waiting for identifiers and the parts plan.
    Planning { limit: Option<u64> },
    /// Waiting for the pending version row to be written.
    InsertingPending { limit: Option<u64>, draft: PlanDraft, expires_at: i128 },
    /// Waiting for the backend to open its multipart session.
    InitiatingOnBackend { limit: Option<u64>, draft: PlanDraft, expires_at: i128 },
    /// Waiting for the session row to be written.
    CreatingSession { limit: Option<u64>, draft: PlanDraft, expires_at: i128, handle: String },
    /// The session row failed; waiting for the backend session and the
    /// pending version to be cleaned up.
    Compensating { error: DomainError },
    /// Waiting for one signed token per part.
    MintingTokens { limit: Option<u64>, draft: PlanDraft, expires_at: i128 },
    Done,
}

/// One initiation: the request, the default backend and its capability,
/// the configured URL lifetime and sidecar address, and the phase.
pub struct InitiateState {
    pub file_id: u128,
    pub declared_mime: String,
    pub declared_size: u64,
    pub preferred_part_size: Option<u64>,
    pub backend_id: String,
    pub multipart_native: bool,
    pub url_ttl_secs: i64,
    pub sidecar_base_url: String,
    pub phase: InitiatePhase,
}

/// What the last outside action returned.
pub enum InitiateEvent {
    Authorized { result: Result<(), DomainError> },
    /// The MIME check's refusal, or the effective size limit.
    PolicyResolved { result: Result<Option<u64>, DomainError> },
    /// The quota service's answer; `None` when none is configured.
    QuotaChecked { result: Result<Option<QuotaDecision>, DomainError> },
    Planned { draft: PlanDraft },
    PendingInserted { result: Result<(), DomainError> },
    /// The backend's handle for the new multipart session.
    BackendInitiated { result: Result<String, DomainError> },
    SessionCreated { result: Result<(), DomainError> },
    /// The best-effort cleanup ran (its own failures are only logged).
    Compensated,
    /// One token per part, in plan order.
    TokensMinted { result: Result<Vec<String>, DomainError> },
}

/// The next outside action.
pub enum InitiateAction {
    Authorize { file_id: u128 },
    ResolvePolicy { declared_mime: String, backend_id: String },
    CheckQuota { additional_bytes: u64 },
    Plan { declared_size: u64, preferred_part_size: Option<u64> },
    InsertPendingVersion {
        file_id: u128,
        version_id: u128,
        declared_mime: String,
        backend_id: String,
        backend_path: String,
        now: i128,
    },
    InitiateOnBackend { backend_id: String, backend_path: String },
    CreateSession {
        upload_id: u128,
        file_id: u128,
        version_id: u128,
        backend_upload_handle: String,
        declared_mime: String,
        declared_size: u64,
        part_size: u64,
        expires_at: i128,
        now: i128,
    },
    Compensate { backend_path: String, backend_upload_handle: String, file_id: u128, version_id: u128 },
    MintTokens {
        upload_id: u128,
        file_id: u128,
        version_id: u128,
        backend_id: String,
        backend_path: String,
        expires_at: i128,
        parts: Vec<(u32, u64, u64)>,
    },
    Finish { result: Result<MultipartPlan, DomainError> },
}

/// The declared size is within the effective limit.
pub open spec fn declared_within(limit: Option<u64>, declared_size: u64) -> bool {
    !(limit matches Some(l) && declared_size > l)
}

/// The quota service did not deny the request.
pub open spec fn quota_allows(d: Option<QuotaDecision>) -> bool {
    !(d matches Some(QuotaDecision::Denied { .. }))
}

/// The limit a phase past the policy check holds.
pub open spec fn phase_limit(p: InitiatePhase) -> Option<Option<u64>> {
    match p {
        InitiatePhase::CheckingQuota { limit } => Some(limit),
        InitiatePhase::Planning { limit } => Some(limit),
        InitiatePhase::InsertingPending { limit, .. } => Some(limit),
        InitiatePhase::InitiatingOnBackend { limit, .. } => Some(limit),
        InitiatePhase::CreatingSession { limit, .. } => Some(limit),
        InitiatePhase::MintingTokens { limit, .. } => Some(limit),
        _ => None,
    }
}

/// What every reachable state satisfies: past the backend check the backend
/// supports multipart, and past the policy check the declared size is
/// within the limit.
pub open spec fn initiate_wf(s: InitiateState) -> bool {
    &&& s.phase is ResolvingPolicy ==> s.multipart_native
    &&& phase_limit(s.phase) matches Some(limit) ==> s.multipart_native && declared_within(
        limit,
        s.declared_size,
    )
}

/// The action makes something that outlives a refusal: a version row, a
/// backend session, a session row or a signed URL.
pub open spec fn initiate_writes(a: InitiateAction) -> bool {
    a is InsertPendingVersion || a is InitiateOnBackend || a is CreateSession || a is MintTokens
}

/// A clock reading the calendar can hold.
pub open spec fn time_in_range(now: i128) -> bool {
    -0x1_0000_0000_0000_0000_0000_0000_0000 <= now <= 0x1_0000_0000_0000_0000_0000_0000_0000
}

/// Each phase expects the answer to the action it asked for.
pub open spec fn initiate_event_fits(p: InitiatePhase, e: InitiateEvent) -> bool {
    match p {
        InitiatePhase::Authorizing => e is Authorized,
        InitiatePhase::ResolvingPolicy => e is PolicyResolved,
        InitiatePhase::CheckingQuota { .. } => e is QuotaChecked,
        InitiatePhase::Planning { .. } => e matches InitiateEvent::Planned { draft } && time_in_range(
            draft.now,
        ),
        InitiatePhase::InsertingPending { .. } => e is PendingInserted,
        InitiatePhase::InitiatingOnBackend { .. } => e is BackendInitiated,
        InitiatePhase::CreatingSession { .. } => e is SessionCreated,
        InitiatePhase::Compensating { .. } => e is Compensated,
        InitiatePhase::MintingTokens { draft, .. } => e matches InitiateEvent::TokensMinted { result }
            && (result matches Ok(tokens) ==> tokens@.len() == draft.parts@.len()),
        InitiatePhase::Done => false,
    }
}

/// The plan's parts are the drawn parts, in order, each with the URL its
/// token signs.
pub open spec fn parts_planned(
    r: Seq<MultipartPartPlan>,
    base: Seq<char>,
    file_id: u128,
    version_id: u128,
    parts: Seq<(u32, u64, u64)>,
    tokens: Seq<String>,
) -> bool {
    &&& r.len() == parts.len()
    &&& forall|k: int|
        0 <= k < parts.len() ==> (#[trigger] r[k]).part_number == parts[k].0 && r[k].offset
            == parts[k].1 && r[k].size == parts[k].2 && r[k].upload_url@ == part_upload_url_of(
            base,
            file_id,
            version_id,
            parts[k].0,
            tokens[k]@,
        )
}

/// The state an initiation starts in, and its first action.
pub fn initiate_start(
    file_id: u128,
    declared_mime: String,
    declared_size: u64,
    preferred_part_size: Option<u64>,
    backend_id: String,
    multipart_native: bool,
    url_ttl_secs: i64,
    sidecar_base_url: String,
) -> (r: (InitiateState, InitiateAction))
    ensures
        r.0.file_id == file_id && r.0.declared_mime == declared_mime && r.0.declared_size
            == declared_size && r.0.preferred_part_size == preferred_part_size,
        r.0.backend_id == backend_id && r.0.multipart_native == multipart_native,
        r.0.url_ttl_secs == url_ttl_secs && r.0.sidecar_base_url == sidecar_base_url,
        r.0.phase is Authorizing,
        r.1 == (InitiateAction::Authorize { file_id }),
        initiate_wf(r.0),
{
    (
        InitiateState {
            file_id,
            declared_mime,
            declared_size,
            preferred_part_size,
            backend_id,
            multipart_native,
            url_ttl_secs,
            sidecar_base_url,
            phase: InitiatePhase::Authorizing,
        },
        InitiateAction::Authorize { file_id },
    )
}

/// The parts, copied.
fn copy_parts(v: &Vec<(u32, u64, u64)>) -> (r: Vec<(u32, u64, u64)>)
    ensures
        r@ == v@,
{
    let mut r: Vec<(u32, u64, u64)> = Vec::new();
    let mut i: usize = 0;
    while i < v.len()
        invariant
            i <= v@.len(),
            r@ == v@.take(i as int),
        decreases v@.len() - i,
    {
        let p = v[i];
        r.push(p);
        i = i + 1;
        assert(r@ == v@.take(i as int));
    }
    assert(v@.take(v@.len() as int) == v@);
    r
}

/// The plan's parts: each drawn part with the URL its token signs.
fn plan_parts(
    base: &str,
    file_id: u128,
    version_id: u128,
    parts: &Vec<(u32, u64, u64)>,
    tokens: &Vec<String>,
) -> (r: Vec<MultipartPartPlan>)
    requires
        tokens@.len() == parts@.len(),
    ensures
        parts_planned(r@, base@, file_id, version_id, parts@, tokens@),
{
    let mut r: Vec<MultipartPartPlan> = Vec::new();
    let mut i: usize = 0;
    while i < parts.len()
        invariant
            i <= parts@.len(),
            tokens@.len() == parts@.len(),
            r@.len() == i,
            forall|k: int|
                0 <= k < i ==> (#[trigger] r@[k]).part_number == parts@[k].0 && r@[k].offset
                    == parts@[k].1 && r@[k].size == parts@[k].2 && r@[k].upload_url@
                    == part_upload_url_of(base@, file_id, version_id, parts@[k].0, tokens@[k]@),
        decreases parts@.len() - i,
    {
        let (part_number, offset, size) = parts[i];
        let upload_url = part_upload_url(base, file_id, version_id, part_number, tokens[i].as_str());
        r.push(MultipartPartPlan { part_number, offset, size, upload_url });
        i = i + 1;
    }
    r
}

/// One step of an initiation.
pub fn initiate_step(s: InitiateState, e: InitiateEvent) -> (r: (InitiateState, InitiateAction))
    requires
        initiate_event_fits(s.phase, e),
    ensures
        r.0.file_id == s.file_id && r.0.declared_mime == s.declared_mime && r.0.declared_size
            == s.declared_size && r.0.preferred_part_size == s.preferred_part_size,
        r.0.backend_id == s.backend_id && r.0.multipart_native == s.multipart_native,
        r.0.url_ttl_secs == s.url_ttl_secs && r.0.sidecar_base_url == s.sidecar_base_url,
        initiate_wf(s) ==> initiate_wf(r.0),
        (r.1 is Finish) == (r.0.phase is Done),
        // nothing is made before the backend, policy and size checks passed
        initiate_wf(s) && initiate_writes(r.1) ==> s.multipart_native && (phase_limit(r.0.phase)
            matches Some(limit) && declared_within(limit, s.declared_size)),
        // the first write follows the quota answer directly
        r.1 is Plan ==> s.phase is CheckingQuota && (e matches InitiateEvent::QuotaChecked {
            result: Ok(d),
        } && quota_allows(d)),
        r.1 is InsertPendingVersion ==> s.phase is Planning,
        match (s.phase, e) {
            (InitiatePhase::Authorizing, InitiateEvent::Authorized { result }) => match result {
                Err(err) => r.1 == (InitiateAction::Finish { result: Err(err) }),
                Ok(_) => if !s.multipart_native {
                    r.1 matches InitiateAction::Finish {
                        result: Err(DomainError::MultipartNotSupported { backend_id }),
                    } && backend_id@ == s.backend_id@
                } else {
                    r.0.phase is ResolvingPolicy && (r.1 matches InitiateAction::ResolvePolicy {
                        declared_mime,
                        backend_id,
                    } && declared_mime@ == s.declared_mime@ && backend_id@ == s.backend_id@)
                },
            },
            (InitiatePhase::ResolvingPolicy, InitiateEvent::PolicyResolved { result }) =>
                match result {
                Err(err) => r.1 == (InitiateAction::Finish { result: Err(err) }),
                Ok(limit) => if !declared_within(limit, s.declared_size) {
                    r.1 matches InitiateAction::Finish {
                        result: Err(DomainError::PolicySizeExceeded { limit_bytes, limit_source }),
                    } && limit == Some(limit_bytes) && limit_source@ == "policy size limit"@
                } else {
                    r.0.phase == (InitiatePhase::CheckingQuota { limit }) && r.1
                        == (InitiateAction::CheckQuota { additional_bytes: s.declared_size })
                },
            },
            (InitiatePhase::CheckingQuota { limit }, InitiateEvent::QuotaChecked { result }) =>
                match result {
                Err(err) => r.1 == (InitiateAction::Finish { result: Err(err) }),
                Ok(d) => match d {
                    Some(QuotaDecision::Denied { reason }) => r.1 matches InitiateAction::Finish {
                        result: Err(DomainError::QuotaExceeded { reason: m }),
                    } && m@ == reason@,
                    _ => r.0.phase == (InitiatePhase::Planning { limit }) && r.1
                        == (InitiateAction::Plan {
                        declared_size: s.declared_size,
                        preferred_part_size: s.preferred_part_size,
                    }),
                },
            },
            (InitiatePhase::Planning { limit }, InitiateEvent::Planned { draft }) => {
                &&& r.0.phase matches InitiatePhase::InsertingPending { limit: l, draft: d, expires_at }
                    && l == limit && d == draft && expires_at == draft.now + (if s.url_ttl_secs
                    >= 1 {
                    s.url_ttl_secs as int
                } else {
                    1
                }) * NANOS_PER_SEC
                &&& r.1 matches InitiateAction::InsertPendingVersion {
                    file_id,
                    version_id,
                    declared_mime,
                    backend_id,
                    backend_path: p,
                    now,
                } && file_id == s.file_id && version_id == draft.version_id && declared_mime@
                    == s.declared_mime@ && backend_id@ == s.backend_id@ && p@ == backend_path_of(
                    s.file_id,
                    draft.version_id,
                ) && now == draft.now
            },
            (InitiatePhase::InsertingPending { limit, draft, expires_at }, InitiateEvent::PendingInserted {
                result,
            }) => match result {
                Err(err) => r.1 == (InitiateAction::Finish { result: Err(err) }),
                Ok(_) => r.0.phase == (InitiatePhase::InitiatingOnBackend { limit, draft, expires_at })
                    && (r.1 matches InitiateAction::InitiateOnBackend { backend_id, backend_path: p }
                    && backend_id@ == s.backend_id@ && p@ == backend_path_of(
                    s.file_id,
                    draft.version_id,
                )),
            },
            (InitiatePhase::InitiatingOnBackend { limit, draft, expires_at }, InitiateEvent::BackendInitiated {
                result,
            }) => match result {
                Err(err) => r.1 == (InitiateAction::Finish { result: Err(err) }),
                Ok(handle) => r.0.phase == (InitiatePhase::CreatingSession {
                    limit,
                    draft,
                    expires_at,
                    handle,
                }) && (r.1 matches InitiateAction::CreateSession {
                    upload_id,
                    file_id,
                    version_id,
                    backend_upload_handle,
                    declared_mime,
                    declared_size,
                    part_size,
                    expires_at: x,
                    now,
                } && upload_id == draft.upload_id && file_id == s.file_id && version_id
                    == draft.version_id && backend_upload_handle@ == handle@ && declared_mime@
                    == s.declared_mime@ && declared_size == s.declared_size && part_size
                    == draft.part_size && x == expires_at && now == draft.now),
            },
            (InitiatePhase::CreatingSession { limit, draft, expires_at, handle }, InitiateEvent::SessionCreated {
                result,
            }) => match result {
                Err(err) => r.0.phase == (InitiatePhase::Compensating { error: err }) && (r.1 matches InitiateAction::Compensate {
                    backend_path: p,
                    backend_upload_handle: h,
                    file_id,
                    version_id,
                } && p@ == backend_path_of(s.file_id, draft.version_id) && h@ == handle@ && file_id
                    == s.file_id && version_id == draft.version_id),
                Ok(_) => r.0.phase == (InitiatePhase::MintingTokens { limit, draft, expires_at })
                    && (r.1 matches InitiateAction::MintTokens {
                    upload_id,
                    file_id,
                    version_id,
                    backend_id,
                    backend_path: p,
                    expires_at: x,
                    parts,
                } && upload_id == draft.upload_id && file_id == s.file_id && version_id
                    == draft.version_id && backend_id@ == s.backend_id@ && p@ == backend_path_of(
                    s.file_id,
                    draft.version_id,
                ) && x == expires_at && parts@ == draft.parts@),
            },
            (InitiatePhase::Compensating { error }, InitiateEvent::Compensated) => r.1
                == (InitiateAction::Finish { result: Err(error) }),
            (InitiatePhase::MintingTokens { draft, expires_at, .. }, InitiateEvent::TokensMinted {
                result,
            }) => match result {
                Err(err) => r.1 == (InitiateAction::Finish { result: Err(err) }),
                Ok(tokens) => r.1 matches InitiateAction::Finish { result: Ok(plan) }
                    && plan.upload_id == draft.upload_id && plan.version_id == draft.version_id
                    && plan.part_hash_algorithm@ == "SHA-256"@ && plan.part_size == draft.part_size
                    && plan.expires_at == expires_at && parts_planned(
                    plan.parts@,
                    s.sidecar_base_url@,
                    s.file_id,
                    draft.version_id,
                    draft.parts@,
                    tokens@,
                ),
            },
            _ => false,
        },
{
    let InitiateState {
        file_id,
        declared_mime,
        declared_size,
        preferred_part_size,
        backend_id,
        multipart_native,
        url_ttl_secs,
        sidecar_base_url,
        phase,
    } = s;
    let (phase, action) = match phase {
        InitiatePhase::Authorizing => match e {
            InitiateEvent::Authorized { result } => match result {
                Err(err) => finish(Err(err)),
                Ok(()) => match check_multipart_capable(multipart_native, backend_id.as_str()) {
                    Err(err) => finish(Err(err)),
                    Ok(()) => (
                        InitiatePhase::ResolvingPolicy,
                        InitiateAction::ResolvePolicy {
                            declared_mime: declared_mime.clone(),
                            backend_id: backend_id.clone(),
                        },
                    ),
                },
            },
            _ => finish(Err(DomainError::InternalError)),
        },
        InitiatePhase::ResolvingPolicy => match e {
            InitiateEvent::PolicyResolved { result } => match result {
                Err(err) => finish(Err(err)),
                Ok(limit) => match check_declared_within_limit(limit, declared_size) {
                    Err(err) => finish(Err(err)),
                    Ok(()) => (
                        InitiatePhase::CheckingQuota { limit },
                        InitiateAction::CheckQuota { additional_bytes: declared_size },
                    ),
                },
            },
            _ => finish(Err(DomainError::InternalError)),
        },
        InitiatePhase::CheckingQuota { limit } => match e {
            InitiateEvent::QuotaChecked { result } => match result {
                Err(err) => finish(Err(err)),
                Ok(d) => match quota_verdict(d) {
                    Err(err) => finish(Err(err)),
                    Ok(()) => (
                        InitiatePhase::Planning { limit },
                        InitiateAction::Plan { declared_size, preferred_part_size },
                    ),
                },
            },
            _ => finish(Err(DomainError::InternalError)),
        },
        InitiatePhase::Planning { limit } => match e {
            InitiateEvent::Planned { draft } => {
                let expires_at = session_expiry(draft.now, url_ttl_secs);
                let action = InitiateAction::InsertPendingVersion {
                    file_id,
                    version_id: draft.version_id,
                    declared_mime: declared_mime.clone(),
                    backend_id: backend_id.clone(),
                    backend_path: backend_path(file_id, draft.version_id),
                    now: draft.now,
                };
                (InitiatePhase::InsertingPending { limit, draft, expires_at }, action)
            },
            _ => finish(Err(DomainError::InternalError)),
        },
        InitiatePhase::InsertingPending { limit, draft, expires_at } => match e {
            InitiateEvent::PendingInserted { result } => match result {
                Err(err) => finish(Err(err)),
                Ok(()) => {
                    let action = InitiateAction::InitiateOnBackend {
                        backend_id: backend_id.clone(),
                        backend_path: backend_path(file_id, draft.version_id),
                    };
                    (InitiatePhase::InitiatingOnBackend { limit, draft, expires_at }, action)
                },
            },
            _ => finish(Err(DomainError::InternalError)),
        },
        InitiatePhase::InitiatingOnBackend { limit, draft, expires_at } => match e {
            InitiateEvent::BackendInitiated { result } => match result {
                Err(err) => finish(Err(err)),
                Ok(handle) => {
                    let action = InitiateAction::CreateSession {
                        upload_id: draft.upload_id,
                        file_id,
                        version_id: draft.version_id,
                        backend_upload_handle: handle.clone(),
                        declared_mime: declared_mime.clone(),
                        declared_size,
                        part_size: draft.part_size,
                        expires_at,
                        now: draft.now,
                    };
                    (InitiatePhase::CreatingSession { limit, draft, expires_at, handle }, action)
                },
            },
            _ => finish(Err(DomainError::InternalError)),
        },
        InitiatePhase::CreatingSession { limit, draft, expires_at, handle } => match e {
            InitiateEvent::SessionCreated { result } => match result {
                Err(err) => {
                    let action = InitiateAction::Compensate {
                        backend_path: backend_path(file_id, draft.version_id),
                        backend_upload_handle: handle,
                        file_id,
                        version_id: draft.version_id,
                    };
                    (InitiatePhase::Compensating { error: err }, action)
                },
                Ok(()) => {
                    let action = InitiateAction::MintTokens {
                        upload_id: draft.upload_id,
                        file_id,
                        version_id: draft.version_id,
                        backend_id: backend_id.clone(),
                        backend_path: backend_path(file_id, draft.version_id),
                        expires_at,
                        parts: copy_parts(&draft.parts),
                    };
                    (InitiatePhase::MintingTokens { limit, draft, expires_at }, action)
                },
            },
            _ => finish(Err(DomainError::InternalError)),
        },
        InitiatePhase::Compensating { error } => match e {
            InitiateEvent::Compensated => finish(Err(error)),
            _ => finish(Err(DomainError::InternalError)),
        },
        InitiatePhase::MintingTokens { limit, draft, expires_at } => match e {
            InitiateEvent::TokensMinted { result } => match result {
                Err(err) => finish(Err(err)),
                Ok(tokens) => {
                    let parts = plan_parts(
                        sidecar_base_url.as_str(),
                        file_id,
                        draft.version_id,
                        &draft.parts,
                        &tokens,
                    );
                    let plan = MultipartPlan {
                        upload_id: draft.upload_id,
                        version_id: draft.version_id,
                        part_hash_algorithm: String::from_str("SHA-256"),
                        part_size: draft.part_size,
                        parts,
                        expires_at,
                    };
                    finish(Ok(plan))
                },
            },
            _ => finish(Err(DomainError::InternalError)),
        },
        InitiatePhase::Done => finish(Err(DomainError::InternalError)),
    };
    (
        InitiateState {
            file_id,
            declared_mime,
            declared_size,
            preferred_part_size,
            backend_id,
            multipart_native,
            url_ttl_secs,
            sidecar_base_url,
            phase,
        },
        action,
    )
}

/// The end of an initiation with `result`.
fn finish(result: Result<MultipartPlan, DomainError>) -> (r: (InitiatePhase, InitiateAction))
    ensures
        r.0 is Done,
        r.1 == (InitiateAction::Finish { result }),
{
    (InitiatePhase::Done, InitiateAction::Finish { result })
}

} // verus!
