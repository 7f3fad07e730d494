//! Transport-agnostic model types shared by every layer.

use vstd::prelude::*;
use crate::text::str_eq;

verus! {

/// The principal that owns a file.
#[derive(Debug, Clone, Copy, PartialEq, Eq, Structural)]
pub enum OwnerKind {
    /// A platform user.
    User,
    /// An application gear.
    App,
}

impl OwnerKind {
    /// Wire and storage spelling of each kind.
    pub open spec fn spec_name(self) -> Seq<char> {
        match self {
            OwnerKind::User => "user"@,
            OwnerKind::App => "app"@,
        }
    }

    /// The wire/DB spelling (`"user"` / `"app"`).
    pub fn as_str(self) -> (r: &'static str)
        ensures
            r@ == self.spec_name(),
    {
        match self {
            OwnerKind::User => "user",
            OwnerKind::App => "app",
        }
    }

    /// The kind spelled `s`, if any.
    pub open spec fn spec_parse(s: Seq<char>) -> Option<OwnerKind> {
        if s == "user"@ {
            Some(OwnerKind::User)
        } else if s == "app"@ {
            Some(OwnerKind::App)
        } else {
            None
        }
    }

    /// Parse from the wire/DB spelling; `None` for anything else.
    pub fn parse(s: &str) -> (r: Option<OwnerKind>)
        ensures
            r == OwnerKind::spec_parse(s@),
    {
        if str_eq(s, "user") {
            Some(OwnerKind::User)
        } else if str_eq(s, "app") {
            Some(OwnerKind::App)
        } else {
            None
        }
    }
}

/// A kind's spelling parses back to the kind, and every spelling that
/// parses is the spelling of what it parses to.
pub proof fn law_owner_kind_round_trip(k: OwnerKind, s: Seq<char>)
    ensures
        OwnerKind::spec_parse(k.spec_name()) == Some(k),
        OwnerKind::spec_parse(s) matches Some(j) ==> j.spec_name() == s,
{
    reveal_strlit("user");
    reveal_strlit("app");
    assert("user"@ != "app"@) by {
        assert("user"@.len() != "app"@.len());
    }
}


/// Identity of a logical file.
pub type FileId = u128;

/// Identity of one immutable content blob of a file.
pub type VersionId = u128;

/// GTS file-type resource family used for per-type access decisions.
pub const FILE_TYPE_RESOURCE: &'static str = "gts.cf.fstorage.file.type.v1~";

/// Inter-gear client of the file-storage control plane.
pub trait FileStorageClientV1: Send + Sync {
    /// Module name of the backing gear.
    fn module_name(&self) -> &'static str;
}

/// Lifecycle of a content version: `pending` until its bytes are verified,
/// then `available`.
#[derive(Debug, Clone, Copy, PartialEq, Eq, Structural)]
pub enum VersionStatus {
    /// Pre-registered; bytes may still be uploading.
    Pending,
    /// Bytes durably written and verified.
    Available,
}

impl VersionStatus {
    /// Wire and storage spelling.
    pub open spec fn spec_name(self) -> Seq<char> {
        match self {
            VersionStatus::Pending => "pending"@,
            VersionStatus::Available => "available"@,
        }
    }

    /// The status that a spelling names, if any.
    pub open spec fn spec_parse(s: Seq<char>) -> Option<VersionStatus> {
        if s == "pending"@ {
            Some(VersionStatus::Pending)
        } else if s == "available"@ {
            Some(VersionStatus::Available)
        } else {
            None
        }
    }

    /// The wire/DB spelling (`"pending"` / `"available"`).
    pub fn as_str(self) -> (r: &'static str)
        ensures
            r@ == self.spec_name(),
    {
        match self {
            VersionStatus::Pending => "pending",
            VersionStatus::Available => "available",
        }
    }

    /// Parse from the wire/DB spelling; `None` for anything else.
    pub fn parse(s: &str) -> (r: Option<VersionStatus>)
        ensures
            r == VersionStatus::spec_parse(s@),
    {
        if str_eq(s, "pending") {
            Some(VersionStatus::Pending)
        } else if str_eq(s, "available") {
            Some(VersionStatus::Available)
        } else {
            None
        }
    }
}

/// A status's spelling parses back to the status, and every spelling that
/// parses is the spelling of what it parses to.
pub proof fn law_version_status_round_trip(v: VersionStatus, s: Seq<char>)
    ensures
        VersionStatus::spec_parse(v.spec_name()) == Some(v),
        VersionStatus::spec_parse(s) matches Some(j) ==> j.spec_name() == s,
{
    reveal_strlit("pending");
    reveal_strlit("available");
    assert("pending"@ != "available"@) by {
        assert("pending"@.len() != "available"@.len());
    }
}

/// A logical file: stable identity plus the current content pointer.
#[derive(Debug, Clone, PartialEq, Eq)]
pub struct File {
    pub file_id: FileId,
    pub tenant_id: u128,
    pub owner_kind: OwnerKind,
    pub owner_id: u128,
    pub name: String,
    pub gts_file_type: String,
    /// Version currently bound as live content; `None` until the first bind.
    pub content_id: Option<VersionId>,
    /// Counter bumped on metadata-only writes.
    pub meta_version: i64,
    /// Creation time, in nanoseconds since the Unix epoch.
    pub created_at: i128,
    /// Last modification time, in nanoseconds since the Unix epoch.
    pub last_modified_at: i128,
}

/// An immutable content version of a file, stored at
/// `/{file_id}/{version_id}` on its backend.
#[derive(Debug, Clone, PartialEq, Eq)]
pub struct FileVersion {
    pub file_id: FileId,
    pub version_id: VersionId,
    pub mime_type: String,
    pub size: i64,
    pub hash_algorithm: String,
    pub hash_value: Vec<u8>,
    pub status: VersionStatus,
    pub is_current: bool,
    pub backend_id: String,
    pub backend_path: String,
    /// Creation time, in nanoseconds since the Unix epoch.
    pub created_at: i128,
}

/// One custom-metadata key/value pair attached to a file.
#[derive(Debug, Clone, PartialEq, Eq)]
pub struct CustomMetadataEntry {
    pub key: String,
    pub value: String,
}

/// Data to create a new file.
#[derive(Debug, Clone, PartialEq, Eq)]
pub struct NewFile {
    pub owner_kind: OwnerKind,
    pub owner_id: u128,
    pub name: String,
    pub gts_file_type: String,
    /// Declared content type of the first version.
    pub mime_type: String,
    pub custom_metadata: Vec<CustomMetadataEntry>,
}

/// Mandatory owner filter for listing.
#[derive(Debug, Clone, Copy, PartialEq, Eq, Structural)]
pub struct OwnerFilter {
    pub owner_kind: OwnerKind,
    pub owner_id: u128,
}

/// Merge-patch over custom metadata: `Some(value)` upserts a key, `None`
/// deletes it; absent keys are unchanged.
#[derive(Debug, Clone, PartialEq, Eq)]
pub struct CustomMetadataPatch {
    pub entries: Vec<(String, Option<String>)>,
}

/// The abstract contents of a list of patch entries.
pub open spec fn patch_view(s: Seq<(String, Option<String>)>) -> Seq<(Seq<char>, Option<Seq<char>>)> {
    Seq::new(
        s.len(),
        |i: int|
            (
                s[i].0@,
                match s[i].1 {
                    Some(v) => Some(v@),
                    None => None,
                },
            ),
    )
}

impl View for CustomMetadataPatch {
    type V = Seq<(Seq<char>, Option<Seq<char>>)>;

    open spec fn view(&self) -> Seq<(Seq<char>, Option<Seq<char>>)> {
        patch_view(self.entries@)
    }
}

impl Default for CustomMetadataPatch {
    fn default() -> (r: CustomMetadataPatch)
        ensures
            r.entries@.len() == 0,
    {
        CustomMetadataPatch { entries: Vec::new() }
    }
}

/// A parsed HTTP `Range` request over a blob of known length.
#[derive(Debug, Clone, Copy, PartialEq, Eq, Structural)]
pub enum ByteRange {
    /// `bytes=start-end`, both inclusive.
    Inclusive { start: u64, end: u64 },
    /// `bytes=start-`, to the end of the content.
    OpenEnded { start: u64 },
    /// `bytes=-length`, the final `length` bytes.
    Suffix { length: u64 },
}

impl ByteRange {
    /// The inclusive byte interval that a range selects from `total` bytes,
    /// or `None` when the range cannot be satisfied.
    pub open spec fn spec_resolve(self, total: u64) -> Option<(u64, u64)> {
        if total == 0 {
            None
        } else {
            match self {
                ByteRange::Inclusive { start, end } => if start >= total || start > end {
                    None
                } else {
                    Some((start, if end <= total - 1 { end } else { (total - 1) as u64 }))
                },
                ByteRange::OpenEnded { start } => if start >= total {
                    None
                } else {
                    Some((start, (total - 1) as u64))
                },
                ByteRange::Suffix { length } => if length == 0 {
                    None
                } else {
                    let len = if length <= total { length } else { total };
                    Some(((total - len) as u64, (total - 1) as u64))
                },
            }
        }
    }

    /// Resolve to a concrete inclusive `(start, end)` against `total` bytes;
    /// `None` if the range is unsatisfiable for that length.
    pub fn resolve(self, total: u64) -> (r: Option<(u64, u64)>)
        ensures
            r == self.spec_resolve(total),
    {
        if total == 0 {
            return None;
        }
        match self {
            ByteRange::Inclusive { start, end } => {
                if start >= total || start > end {
                    return None;
                }
                Some((start, if end <= total - 1 { end } else { total - 1 }))
            },
            ByteRange::OpenEnded { start } => {
                if start >= total {
                    return None;
                }
                Some((start, total - 1))
            },
            ByteRange::Suffix { length } => {
                if length == 0 {
                    return None;
                }
                let len = if length <= total { length } else { total };
                Some((total - len, total - 1))
            },
        }
    }
}

/// A resolved range is a non-empty interval inside the blob; an open-ended
/// range reaches the last byte, and a suffix range selects exactly the
/// requested number of trailing bytes (or the whole blob when it is shorter).
pub proof fn law_byte_range_within_blob(r: ByteRange, total: u64)
    ensures
        r.spec_resolve(total) matches Some((s, e)) ==> s <= e && e < total,
        r.spec_resolve(total) matches Some((s, e)) ==> ((r matches ByteRange::OpenEnded { .. })
            ==> e == total - 1),
        r.spec_resolve(total) matches Some((s, e)) ==> (r matches ByteRange::Suffix { length } ==> e
            - s + 1 == (if length <= total {
            length
        } else {
            total
        })),
        r.spec_resolve(total) is None <==> (total == 0 || match r {
            ByteRange::Inclusive { start, end } => start >= total || start > end,
            ByteRange::OpenEnded { start } => start >= total,
            ByteRange::Suffix { length } => length == 0,
        }),
{
}

/// A satisfiable range serves exactly what was asked, clipped to the blob:
/// an inclusive range starts at its start and ends at its end, or at the
/// last byte when its end lies past the blob; an open-ended range starts at
/// its start; a suffix range ends at the last byte. An inclusive range
/// inside the blob is served as is.
pub proof fn law_byte_range_serves_what_was_asked(r: ByteRange, total: u64)
    ensures
        r.spec_resolve(total) matches Some((s, e)) ==> (r matches ByteRange::Inclusive { start, end }
            ==> s == start && (end < total ==> e == end) && (end >= total ==> e == total - 1)),
        r.spec_resolve(total) matches Some((s, e)) ==> (r matches ByteRange::OpenEnded { start }
            ==> s == start),
        r.spec_resolve(total) matches Some((s, e)) ==> ((r is Suffix) ==> e == total - 1),
        r matches ByteRange::Inclusive { start, end } ==> (start <= end && end < total
            ==> r.spec_resolve(total) == Some((start, end))),
{
}

} // verus!
