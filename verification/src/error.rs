//! Domain errors, their human-readable descriptions, and their mapping to
//! RFC-9457 problem descriptions at the REST boundary.

use vstd::prelude::*;
use vstd::string::*;
use crate::text::{dec_digits, u64_decimal, uuid_string, uuid_text};

verus! {

/// Resource type of the file objects that client-facing problems refer to.
pub const FILE_OBJECT_RESOURCE: &'static str = "gts.cf.fstorage.file.object.v1~";

/// Domain-specific errors.
#[derive(Debug, Clone, PartialEq, Eq)]
pub enum DomainError {
    FileNotFound { id: u128 },
    VersionNotFound { file_id: u128, version_id: u128 },
    Database { message: String },
    Validation { field: String, message: String },
    /// A genuine state conflict (e.g. duplicate).
    Conflict { message: String },
    /// A conditional-request precondition (`If-Match`/CAS) failed.
    PreconditionFailed { message: String },
    MimeMismatch { declared: String, detected: String },
    HashMismatch { expected: String, got: String },
    InvalidGtsType { value: String },
    Backend { backend_id: String, message: String },
    UnknownBackend { backend_id: String },
    TokenInvalid { reason: String },
    Forbidden,
    InternalError,
    PolicyMimeNotAllowed { mime_type: String },
    PolicySizeExceeded { limit_bytes: u64, limit_source: String },
    PolicyMetadataExceeded { reason: String },
    QuotaExceeded { reason: String },
    MultipartNotSupported { backend_id: String },
    MultipartUploadNotFound { upload_id: u128 },
    MultipartUploadNotInProgress { upload_id: u128, state: String },
    VersionedFileMigrationNotSupported { file_id: u128 },
}

impl DomainError {
    pub fn file_not_found(id: u128) -> (r: DomainError)
        ensures
            r == (DomainError::FileNotFound { id }),
    {
        DomainError::FileNotFound { id }
    }

    pub fn version_not_found(file_id: u128, version_id: u128) -> (r: DomainError)
        ensures
            r == (DomainError::VersionNotFound { file_id, version_id }),
    {
        DomainError::VersionNotFound { file_id, version_id }
    }

    pub fn database(message: &str) -> (r: DomainError)
        ensures
            r matches DomainError::Database { message: m } && m@ == message@,
    {
        DomainError::Database { message: message.to_owned() }
    }

    pub fn validation(field: &str, message: &str) -> (r: DomainError)
        ensures
            r matches DomainError::Validation { field: f, message: m } && f@ == field@ && m@
                == message@,
    {
        DomainError::Validation { field: field.to_owned(), message: message.to_owned() }
    }

    pub fn conflict(message: &str) -> (r: DomainError)
        ensures
            r matches DomainError::Conflict { message: m } && m@ == message@,
    {
        DomainError::Conflict { message: message.to_owned() }
    }

    pub fn precondition_failed(message: &str) -> (r: DomainError)
        ensures
            r matches DomainError::PreconditionFailed { message: m } && m@ == message@,
    {
        DomainError::PreconditionFailed { message: message.to_owned() }
    }

    pub fn mime_mismatch(declared: &str, detected: &str) -> (r: DomainError)
        ensures
            r matches DomainError::MimeMismatch { declared: a, detected: b } && a@ == declared@
                && b@ == detected@,
    {
        DomainError::MimeMismatch { declared: declared.to_owned(), detected: detected.to_owned() }
    }

    pub fn hash_mismatch(expected: &str, got: &str) -> (r: DomainError)
        ensures
            r matches DomainError::HashMismatch { expected: a, got: b } && a@ == expected@ && b@
                == got@,
    {
        DomainError::HashMismatch { expected: expected.to_owned(), got: got.to_owned() }
    }

    pub fn invalid_gts_type(value: &str) -> (r: DomainError)
        ensures
            r matches DomainError::InvalidGtsType { value: v } && v@ == value@,
    {
        DomainError::InvalidGtsType { value: value.to_owned() }
    }

    pub fn backend(backend_id: &str, message: &str) -> (r: DomainError)
        ensures
            r matches DomainError::Backend { backend_id: b, message: m } && b@ == backend_id@ && m@
                == message@,
    {
        DomainError::Backend { backend_id: backend_id.to_owned(), message: message.to_owned() }
    }

    pub fn unknown_backend(backend_id: &str) -> (r: DomainError)
        ensures
            r matches DomainError::UnknownBackend { backend_id: b } && b@ == backend_id@,
    {
        DomainError::UnknownBackend { backend_id: backend_id.to_owned() }
    }

    pub fn token_invalid(reason: &str) -> (r: DomainError)
        ensures
            r matches DomainError::TokenInvalid { reason: m } && m@ == reason@,
    {
        DomainError::TokenInvalid { reason: reason.to_owned() }
    }

    pub fn quota_exceeded(reason: &str) -> (r: DomainError)
        ensures
            r matches DomainError::QuotaExceeded { reason: m } && m@ == reason@,
    {
        DomainError::QuotaExceeded { reason: reason.to_owned() }
    }

    pub fn policy_size_exceeded(limit_bytes: u64, limit_source: &str) -> (r: DomainError)
        ensures
            r matches DomainError::PolicySizeExceeded { limit_bytes: l, limit_source: s } && l
                == limit_bytes && s@ == limit_source@,
    {
        DomainError::PolicySizeExceeded { limit_bytes, limit_source: limit_source.to_owned() }
    }

    pub fn multipart_not_supported(backend_id: &str) -> (r: DomainError)
        ensures
            r matches DomainError::MultipartNotSupported { backend_id: b } && b@ == backend_id@,
    {
        DomainError::MultipartNotSupported { backend_id: backend_id.to_owned() }
    }

    pub fn multipart_upload_not_found(upload_id: u128) -> (r: DomainError)
        ensures
            r == (DomainError::MultipartUploadNotFound { upload_id }),
    {
        DomainError::MultipartUploadNotFound { upload_id }
    }

    pub fn multipart_upload_not_in_progress(upload_id: u128, state: &str) -> (r: DomainError)
        ensures
            r matches DomainError::MultipartUploadNotInProgress { upload_id: u, state: s } && u
                == upload_id && s@ == state@,
    {
        DomainError::MultipartUploadNotInProgress { upload_id, state: state.to_owned() }
    }
}


// ── problem descriptions ────────────────────────────────────────────────────

/// Category of a client-facing problem.
#[derive(Debug, Clone, Copy, PartialEq, Eq, Structural)]
pub enum ProblemKind {
    NotFound,
    InvalidArgument,
    Aborted,
    FailedPrecondition,
    PermissionDenied,
    Internal,
    OutOfRange,
    ResourceExhausted,
}

/// What a violation entry of a problem is about.
#[derive(Debug, Clone, Copy, PartialEq, Eq, Structural)]
pub enum ViolationKind {
    /// A request field (`field`, description, reason code).
    Field,
    /// A precondition (`type`, description, reason code).
    Precondition,
    /// A quota (`subject`, description).
    Quota,
}

/// One violation entry of a problem.
#[derive(Debug, Clone, PartialEq, Eq)]
pub struct Violation {
    pub kind: ViolationKind,
    pub subject: String,
    pub description: String,
    pub code: Option<String>,
}

/// A client-facing problem description (RFC 9457).
#[derive(Debug, Clone, PartialEq, Eq)]
pub struct Problem {
    pub kind: ProblemKind,
    /// Raised against the file-object resource type (`FILE_OBJECT_RESOURCE`);
    /// `false` for generic internal errors.
    pub file_resource: bool,
    pub detail: Option<String>,
    pub resource: Option<String>,
    pub violation: Option<Violation>,
    pub reason: Option<String>,
}

/// Abstract contents of a violation.
pub struct ViolationView {
    pub kind: ViolationKind,
    pub subject: Seq<char>,
    pub description: Seq<char>,
    pub code: Option<Seq<char>>,
}

/// Abstract contents of a problem.
pub struct ProblemView {
    pub kind: ProblemKind,
    pub file_resource: bool,
    pub detail: Option<Seq<char>>,
    pub resource: Option<Seq<char>>,
    pub violation: Option<ViolationView>,
    pub reason: Option<Seq<char>>,
}

pub open spec fn opt_view(o: Option<String>) -> Option<Seq<char>> {
    match o {
        Some(s) => Some(s@),
        None => None,
    }
}

impl View for Violation {
    type V = ViolationView;

    open spec fn view(&self) -> ViolationView {
        ViolationView {
            kind: self.kind,
            subject: self.subject@,
            description: self.description@,
            code: opt_view(self.code),
        }
    }
}

impl View for Problem {
    type V = ProblemView;

    open spec fn view(&self) -> ProblemView {
        ProblemView {
            kind: self.kind,
            file_resource: self.file_resource,
            detail: opt_view(self.detail),
            resource: opt_view(self.resource),
            violation: match self.violation {
                Some(v) => Some(v@),
                None => None,
            },
            reason: opt_view(self.reason),
        }
    }
}

/// A problem about the file object with the given kind and nothing else set.
pub open spec fn bare(kind: ProblemKind) -> ProblemView {
    ProblemView {
        kind,
        file_resource: true,
        detail: None,
        resource: None,
        violation: None,
        reason: None,
    }
}

/// An invalid-argument problem with one field violation.
pub open spec fn field_problem(field: Seq<char>, description: Seq<char>, code: Seq<char>) -> ProblemView {
    ProblemView {
        violation: Some(
            ViolationView {
                kind: ViolationKind::Field,
                subject: field,
                description,
                code: Some(code),
            },
        ),
        ..bare(ProblemKind::InvalidArgument)
    }
}

/// A generic internal problem: only a fixed detail, never the cause.
pub open spec fn internal_problem(detail: Seq<char>) -> ProblemView {
    ProblemView {
        kind: ProblemKind::Internal,
        file_resource: false,
        detail: Some(detail),
        resource: None,
        violation: None,
        reason: None,
    }
}

/// The problem that each domain error is reported as.
pub open spec fn problem_of(e: DomainError) -> ProblemView {
    match e {
        DomainError::FileNotFound { id } => ProblemView {
            detail: Some("File "@ + uuid_text(id) + " not found"@),
            resource: Some(uuid_text(id)),
            ..bare(ProblemKind::NotFound)
        },
        DomainError::VersionNotFound { file_id, version_id } => ProblemView {
            detail: Some("Version "@ + uuid_text(file_id) + "/"@ + uuid_text(version_id)
                + " not found"@),
            resource: Some(uuid_text(version_id)),
            ..bare(ProblemKind::NotFound)
        },
        DomainError::Validation { field, message } => field_problem(field@, message@, "VALIDATION"@),
        DomainError::InvalidGtsType { value } => field_problem(
            "gts_file_type"@,
            "invalid GTS type: "@ + value@,
            "INVALID_GTS_TYPE"@,
        ),
        DomainError::MimeMismatch { declared, detected } => field_problem(
            "mime_type"@,
            "declared '"@ + declared@ + "' != detected '"@ + detected@ + "'"@,
            "MIME_MISMATCH"@,
        ),
        DomainError::HashMismatch { expected, got } => field_problem(
            "hash"@,
            "expected "@ + expected@ + ", got "@ + got@,
            "HASH_MISMATCH"@,
        ),
        DomainError::UnknownBackend { backend_id } => field_problem(
            "backend_id"@,
            "unknown backend "@ + backend_id@,
            "UNKNOWN_BACKEND"@,
        ),
        DomainError::Conflict { message } => ProblemView {
            detail: Some(message@),
            reason: Some("CONFLICT"@),
            ..bare(ProblemKind::Aborted)
        },
        DomainError::PreconditionFailed { message } => ProblemView {
            violation: Some(
                ViolationView {
                    kind: ViolationKind::Precondition,
                    subject: "content"@,
                    description: message@,
                    code: Some("IF_MATCH"@),
                },
            ),
            ..bare(ProblemKind::FailedPrecondition)
        },
        DomainError::TokenInvalid { reason } => ProblemView {
            reason: Some("INVALID_TOKEN: "@ + reason@),
            ..bare(ProblemKind::PermissionDenied)
        },
        DomainError::Forbidden => ProblemView {
            reason: Some("ACCESS_DENIED"@),
            ..bare(ProblemKind::PermissionDenied)
        },
        DomainError::Backend { .. } => internal_problem("storage backend error"@),
        DomainError::Database { .. } => internal_problem("internal database error"@),
        DomainError::InternalError => internal_problem("internal error"@),
        DomainError::PolicyMimeNotAllowed { mime_type } => field_problem(
            "mime_type"@,
            "MIME type '"@ + mime_type@ + "' is not permitted by policy"@,
            "POLICY_MIME_NOT_ALLOWED"@,
        ),
        DomainError::PolicySizeExceeded { limit_bytes, limit_source } => ProblemView {
            detail: Some("file size exceeds limit of "@ + dec_digits(limit_bytes as nat) + " bytes ("@
                + limit_source@ + ")"@),
            violation: Some(
                ViolationView {
                    kind: ViolationKind::Field,
                    subject: "size"@,
                    description: "exceeds limit of "@ + dec_digits(limit_bytes as nat) + " bytes ("@
                        + limit_source@ + ")"@,
                    code: Some("POLICY_SIZE_EXCEEDED"@),
                },
            ),
            ..bare(ProblemKind::OutOfRange)
        },
        DomainError::PolicyMetadataExceeded { reason } => field_problem(
            "custom_metadata"@,
            reason@,
            "POLICY_METADATA_EXCEEDED"@,
        ),
        DomainError::QuotaExceeded { reason } => ProblemView {
            detail: Some(reason@),
            violation: Some(
                ViolationView {
                    kind: ViolationKind::Quota,
                    subject: "storage_bytes"@,
                    description: reason@,
                    code: None,
                },
            ),
            ..bare(ProblemKind::ResourceExhausted)
        },
        DomainError::MultipartNotSupported { backend_id } => field_problem(
            "backend"@,
            "backend '"@ + backend_id@ + "' does not support multipart upload"@,
            "MULTIPART_NOT_SUPPORTED"@,
        ),
        DomainError::MultipartUploadNotFound { upload_id } => ProblemView {
            detail: Some("Multipart upload session "@ + uuid_text(upload_id) + " not found"@),
            resource: Some(uuid_text(upload_id)),
            ..bare(ProblemKind::NotFound)
        },
        DomainError::MultipartUploadNotInProgress { upload_id, state } => ProblemView {
            detail: Some("Multipart upload session "@ + uuid_text(upload_id)
                + " is not in progress (state: "@ + state@ + ")"@),
            reason: Some("MULTIPART_NOT_IN_PROGRESS"@),
            ..bare(ProblemKind::Aborted)
        },
        DomainError::VersionedFileMigrationNotSupported { file_id } => ProblemView {
            detail: Some("File "@ + uuid_text(file_id)
                + " has multiple versions and cannot be migrated between backends"@),
            reason: Some("VERSIONED_FILE_MIGRATION_NOT_SUPPORTED"@),
            ..bare(ProblemKind::Aborted)
        },
    }
}

fn s(a: &str) -> (r: String)
    ensures
        r@ == a@,
{
    String::from_str(a)
}

fn field_violation_problem(field: &str, description: String, code: &str) -> (r: Problem)
    ensures
        r@ == field_problem(field@, description@, code@),
{
    Problem {
        kind: ProblemKind::InvalidArgument,
        file_resource: true,
        detail: None,
        resource: None,
        violation: Some(
            Violation {
                kind: ViolationKind::Field,
                subject: s(field),
                description,
                code: Some(s(code)),
            },
        ),
        reason: None,
    }
}

fn internal(detail: &str) -> (r: Problem)
    ensures
        r@ == internal_problem(detail@),
{
    Problem {
        kind: ProblemKind::Internal,
        file_resource: false,
        detail: Some(s(detail)),
        resource: None,
        violation: None,
        reason: None,
    }
}

fn about_file(kind: ProblemKind) -> (r: Problem)
    ensures
        r@ == bare(kind),
{
    Problem { kind, file_resource: true, detail: None, resource: None, violation: None, reason: None }
}

impl DomainError {
    /// The client-facing problem this error is reported as. Storage and
    /// database failures are reported with a fixed detail only.
    pub fn to_problem(&self) -> (r: Problem)
        ensures
            r@ == problem_of(*self),
    {
        match self {
            DomainError::FileNotFound { id } => {
                let mut p = about_file(ProblemKind::NotFound);
                p.detail = Some(s("File ").concat(uuid_string(*id).as_str()).concat(" not found"));
                p.resource = Some(uuid_string(*id));
                p
            },
            DomainError::VersionNotFound { file_id, version_id } => {
                let mut p = about_file(ProblemKind::NotFound);
                p.detail = Some(
                    s("Version ").concat(uuid_string(*file_id).as_str()).concat("/").concat(
                        uuid_string(*version_id).as_str(),
                    ).concat(" not found"),
                );
                p.resource = Some(uuid_string(*version_id));
                p
            },
            DomainError::Validation { field, message } => field_violation_problem(
                field.as_str(),
                message.clone(),
                "VALIDATION",
            ),
            DomainError::InvalidGtsType { value } => field_violation_problem(
                "gts_file_type",
                s("invalid GTS type: ").concat(value.as_str()),
                "INVALID_GTS_TYPE",
            ),
            DomainError::MimeMismatch { declared, detected } => field_violation_problem(
                "mime_type",
                s("declared '").concat(declared.as_str()).concat("' != detected '").concat(
                    detected.as_str(),
                ).concat("'"),
                "MIME_MISMATCH",
            ),
            DomainError::HashMismatch { expected, got } => field_violation_problem(
                "hash",
                s("expected ").concat(expected.as_str()).concat(", got ").concat(got.as_str()),
                "HASH_MISMATCH",
            ),
            DomainError::UnknownBackend { backend_id } => field_violation_problem(
                "backend_id",
                s("unknown backend ").concat(backend_id.as_str()),
                "UNKNOWN_BACKEND",
            ),
            DomainError::Conflict { message } => {
                let mut p = about_file(ProblemKind::Aborted);
                p.detail = Some(message.clone());
                p.reason = Some(s("CONFLICT"));
                p
            },
            DomainError::PreconditionFailed { message } => {
                let mut p = about_file(ProblemKind::FailedPrecondition);
                p.violation = Some(
                    Violation {
                        kind: ViolationKind::Precondition,
                        subject: s("content"),
                        description: message.clone(),
                        code: Some(s("IF_MATCH")),
                    },
                );
                p
            },
            DomainError::TokenInvalid { reason } => {
                let mut p = about_file(ProblemKind::PermissionDenied);
                p.reason = Some(s("INVALID_TOKEN: ").concat(reason.as_str()));
                p
            },
            DomainError::Forbidden => {
                let mut p = about_file(ProblemKind::PermissionDenied);
                p.reason = Some(s("ACCESS_DENIED"));
                p
            },
            DomainError::Backend { .. } => internal("storage backend error"),
            DomainError::Database { .. } => internal("internal database error"),
            DomainError::InternalError => internal("internal error"),
            DomainError::PolicyMimeNotAllowed { mime_type } => field_violation_problem(
                "mime_type",
                s("MIME type '").concat(mime_type.as_str()).concat("' is not permitted by policy"),
                "POLICY_MIME_NOT_ALLOWED",
            ),
            DomainError::PolicySizeExceeded { limit_bytes, limit_source } => {
                let limit = u64_decimal(*limit_bytes);
                let mut p = about_file(ProblemKind::OutOfRange);
                p.detail = Some(
                    s("file size exceeds limit of ").concat(limit.as_str()).concat(" bytes (").concat(
                        limit_source.as_str(),
                    ).concat(")"),
                );
                p.violation = Some(
                    Violation {
                        kind: ViolationKind::Field,
                        subject: s("size"),
                        description: s("exceeds limit of ").concat(limit.as_str()).concat(
                            " bytes (",
                        ).concat(limit_source.as_str()).concat(")"),
                        code: Some(s("POLICY_SIZE_EXCEEDED")),
                    },
                );
                p
            },
            DomainError::PolicyMetadataExceeded { reason } => field_violation_problem(
                "custom_metadata",
                reason.clone(),
                "POLICY_METADATA_EXCEEDED",
            ),
            DomainError::QuotaExceeded { reason } => {
                let mut p = about_file(ProblemKind::ResourceExhausted);
                p.detail = Some(reason.clone());
                p.violation = Some(
                    Violation {
                        kind: ViolationKind::Quota,
                        subject: s("storage_bytes"),
                        description: reason.clone(),
                        code: None,
                    },
                );
                p
            },
            DomainError::MultipartNotSupported { backend_id } => field_violation_problem(
                "backend",
                s("backend '").concat(backend_id.as_str()).concat(
                    "' does not support multipart upload",
                ),
                "MULTIPART_NOT_SUPPORTED",
            ),
            DomainError::MultipartUploadNotFound { upload_id } => {
                let mut p = about_file(ProblemKind::NotFound);
                p.detail = Some(
                    s("Multipart upload session ").concat(uuid_string(*upload_id).as_str()).concat(
                        " not found",
                    ),
                );
                p.resource = Some(uuid_string(*upload_id));
                p
            },
            DomainError::MultipartUploadNotInProgress { upload_id, state } => {
                let mut p = about_file(ProblemKind::Aborted);
                p.detail = Some(
                    s("Multipart upload session ").concat(uuid_string(*upload_id).as_str()).concat(
                        " is not in progress (state: ",
                    ).concat(state.as_str()).concat(")"),
                );
                p.reason = Some(s("MULTIPART_NOT_IN_PROGRESS"));
                p
            },
            DomainError::VersionedFileMigrationNotSupported { file_id } => {
                let mut p = about_file(ProblemKind::Aborted);
                p.detail = Some(
                    s("File ").concat(uuid_string(*file_id).as_str()).concat(
                        " has multiple versions and cannot be migrated between backends",
                    ),
                );
                p.reason = Some(s("VERSIONED_FILE_MIGRATION_NOT_SUPPORTED"));
                p
            },
        }
    }
}

/// The human-readable description of each domain error.
pub open spec fn description_of(e: DomainError) -> Seq<char> {
    match e {
        DomainError::FileNotFound { id } => "File not found: "@ + uuid_text(id),
        DomainError::VersionNotFound { file_id, version_id } => "Version not found: "@ + uuid_text(
            file_id,
        ) + "/"@ + uuid_text(version_id),
        DomainError::Database { message } => "Database error: "@ + message@,
        DomainError::Validation { field, message } => "Validation failed: "@ + field@ + ": "@
            + message@,
        DomainError::Conflict { message } => "Conflict: "@ + message@,
        DomainError::PreconditionFailed { message } => "Precondition failed: "@ + message@,
        DomainError::MimeMismatch { declared, detected } => "Declared mime '"@ + declared@
            + "' does not match detected '"@ + detected@ + "'"@,
        DomainError::HashMismatch { expected, got } => "Content hash mismatch: expected "@
            + expected@ + ", got "@ + got@,
        DomainError::InvalidGtsType { value } => "Invalid GTS file type: '"@ + value@ + "'"@,
        DomainError::Backend { backend_id, message } => "Storage backend '"@ + backend_id@
            + "' error: "@ + message@,
        DomainError::UnknownBackend { backend_id } => "Unknown storage backend: '"@ + backend_id@
            + "'"@,
        DomainError::TokenInvalid { reason } => "Signed-URL token rejected: "@ + reason@,
        DomainError::Forbidden => "Access denied"@,
        DomainError::InternalError => "Internal error"@,
        DomainError::PolicyMimeNotAllowed { mime_type } => "MIME type '"@ + mime_type@
            + "' is not permitted by policy"@,
        DomainError::PolicySizeExceeded { limit_bytes, limit_source } =>
            "File size exceeds limit of "@ + dec_digits(limit_bytes as nat) + " bytes ("@
            + limit_source@ + ")"@,
        DomainError::PolicyMetadataExceeded { reason } => "Metadata exceeds policy limits: "@
            + reason@,
        DomainError::QuotaExceeded { reason } => "Storage quota exceeded: "@ + reason@,
        DomainError::MultipartNotSupported { backend_id } => "Storage backend '"@ + backend_id@
            + "' does not support multipart upload"@,
        DomainError::MultipartUploadNotFound { upload_id } => "Multipart upload session not found: "@
            + uuid_text(upload_id),
        DomainError::MultipartUploadNotInProgress { upload_id, state } =>
            "Multipart upload session "@ + uuid_text(upload_id) + " is not in progress (state: "@
            + state@ + ")"@,
        DomainError::VersionedFileMigrationNotSupported { file_id } => "File "@ + uuid_text(file_id)
            + " has multiple versions and cannot be migrated between backends"@,
    }
}

impl DomainError {
    /// The human-readable description of this error.
    pub fn describe(&self) -> (r: String)
        ensures
            r@ == description_of(*self),
    {
        match self {
            DomainError::FileNotFound { id } => s("File not found: ").concat(uuid_string(*id).as_str()),
            DomainError::VersionNotFound { file_id, version_id } => s("Version not found: ").concat(
                uuid_string(*file_id).as_str(),
            ).concat("/").concat(uuid_string(*version_id).as_str()),
            DomainError::Database { message } => s("Database error: ").concat(message.as_str()),
            DomainError::Validation { field, message } => s("Validation failed: ").concat(
                field.as_str(),
            ).concat(": ").concat(message.as_str()),
            DomainError::Conflict { message } => s("Conflict: ").concat(message.as_str()),
            DomainError::PreconditionFailed { message } => s("Precondition failed: ").concat(
                message.as_str(),
            ),
            DomainError::MimeMismatch { declared, detected } => s("Declared mime '").concat(
                declared.as_str(),
            ).concat("' does not match detected '").concat(detected.as_str()).concat("'"),
            DomainError::HashMismatch { expected, got } => s("Content hash mismatch: expected ").concat(
                expected.as_str(),
            ).concat(", got ").concat(got.as_str()),
            DomainError::InvalidGtsType { value } => s("Invalid GTS file type: '").concat(
                value.as_str(),
            ).concat("'"),
            DomainError::Backend { backend_id, message } => s("Storage backend '").concat(
                backend_id.as_str(),
            ).concat("' error: ").concat(message.as_str()),
            DomainError::UnknownBackend { backend_id } => s("Unknown storage backend: '").concat(
                backend_id.as_str(),
            ).concat("'"),
            DomainError::TokenInvalid { reason } => s("Signed-URL token rejected: ").concat(
                reason.as_str(),
            ),
            DomainError::Forbidden => s("Access denied"),
            DomainError::InternalError => s("Internal error"),
            DomainError::PolicyMimeNotAllowed { mime_type } => s("MIME type '").concat(
                mime_type.as_str(),
            ).concat("' is not permitted by policy"),
            DomainError::PolicySizeExceeded { limit_bytes, limit_source } => s(
                "File size exceeds limit of ",
            ).concat(u64_decimal(*limit_bytes).as_str()).concat(" bytes (").concat(
                limit_source.as_str(),
            ).concat(")"),
            DomainError::PolicyMetadataExceeded { reason } => s(
                "Metadata exceeds policy limits: ",
            ).concat(reason.as_str()),
            DomainError::QuotaExceeded { reason } => s("Storage quota exceeded: ").concat(
                reason.as_str(),
            ),
            DomainError::MultipartNotSupported { backend_id } => s("Storage backend '").concat(
                backend_id.as_str(),
            ).concat("' does not support multipart upload"),
            DomainError::MultipartUploadNotFound { upload_id } => s(
                "Multipart upload session not found: ",
            ).concat(uuid_string(*upload_id).as_str()),
            DomainError::MultipartUploadNotInProgress { upload_id, state } => s(
                "Multipart upload session ",
            ).concat(uuid_string(*upload_id).as_str()).concat(" is not in progress (state: ").concat(
                state.as_str(),
            ).concat(")"),
            DomainError::VersionedFileMigrationNotSupported { file_id } => s("File ").concat(
                uuid_string(*file_id).as_str(),
            ).concat(" has multiple versions and cannot be migrated between backends"),
        }
    }
}

/// Storage and database failures reach the client as a fixed internal
/// problem: nothing of their message or backend id is exposed.
pub proof fn law_internal_errors_do_not_leak(
    b1: String,
    m1: String,
    b2: String,
    m2: String,
)
    ensures
        problem_of(DomainError::Backend { backend_id: b1, message: m1 }) == problem_of(
            DomainError::Backend { backend_id: b2, message: m2 },
        ),
        problem_of(DomainError::Database { message: m1 }) == problem_of(
            DomainError::Database { message: m2 },
        ),
        problem_of(DomainError::Backend { backend_id: b1, message: m1 }).file_resource == false,
{
}

/// The kind of problem a domain error is reported as depends only on what
/// went wrong: a missing file, version or upload session is "not found";
/// malformed or refused input is an invalid argument; a state conflict is
/// aborted; a failed `If-Match` is a failed precondition; a bad token or a
/// denial is permission denied; a storage or database failure is internal;
/// an oversized file is out of range; an exhausted quota is resource
/// exhausted. Every problem but the internal ones is raised against the
/// file-object resource, and a not-found problem names the missing
/// resource's id. An invalid argument carries a field violation (a
/// validation error's own field and message), a failed precondition a
/// precondition violation with its message, an exhausted quota a quota
/// violation with its reason, a conflict its message as detail; an internal
/// problem carries neither violation nor resource.
pub proof fn law_problem_kind_follows_the_error(e: DomainError)
    ensures
        (e is FileNotFound || e is VersionNotFound || e is MultipartUploadNotFound) <==> problem_of(
            e,
        ).kind == ProblemKind::NotFound,
        (e is Validation || e is InvalidGtsType || e is MimeMismatch || e is HashMismatch
            || e is UnknownBackend || e is PolicyMimeNotAllowed || e is PolicyMetadataExceeded
            || e is MultipartNotSupported) <==> problem_of(e).kind == ProblemKind::InvalidArgument,
        (e is Conflict || e is MultipartUploadNotInProgress || e is VersionedFileMigrationNotSupported)
            <==> problem_of(e).kind == ProblemKind::Aborted,
        e is PreconditionFailed <==> problem_of(e).kind == ProblemKind::FailedPrecondition,
        (e is TokenInvalid || e is Forbidden) <==> problem_of(e).kind == ProblemKind::PermissionDenied,
        (e is Backend || e is Database || e is InternalError) <==> problem_of(e).kind
            == ProblemKind::Internal,
        e is PolicySizeExceeded <==> problem_of(e).kind == ProblemKind::OutOfRange,
        e is QuotaExceeded <==> problem_of(e).kind == ProblemKind::ResourceExhausted,
        problem_of(e).file_resource <==> !(e is Backend || e is Database || e is InternalError),
        e matches DomainError::FileNotFound { id } ==> problem_of(e).resource == Some(uuid_text(id)),
        e matches DomainError::VersionNotFound { version_id, .. } ==> problem_of(e).resource == Some(
            uuid_text(version_id),
        ),
        e matches DomainError::MultipartUploadNotFound { upload_id } ==> problem_of(e).resource
            == Some(uuid_text(upload_id)),
        problem_of(e).kind == ProblemKind::InvalidArgument ==> (problem_of(e).violation matches Some(v)
            && v.kind == ViolationKind::Field),
        e matches DomainError::Validation { field, message } ==> (problem_of(e).violation matches Some(
            v,
        ) && v.subject == field@ && v.description == message@),
        e matches DomainError::Conflict { message } ==> problem_of(e).detail == Some(message@),
        e matches DomainError::PreconditionFailed { message } ==> (problem_of(e).violation matches Some(
            v,
        ) && v.kind == ViolationKind::Precondition && v.description == message@),
        e matches DomainError::QuotaExceeded { reason } ==> (problem_of(e).violation matches Some(v)
            && v.kind == ViolationKind::Quota && v.description == reason@),
        (problem_of(e).kind == ProblemKind::Internal) ==> problem_of(e).violation is None
            && problem_of(e).resource is None,
{
}

} // verus!
