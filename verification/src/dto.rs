//! Transfer shapes of the control-plane REST API, and their conversions to
//! and from the domain types. Each conversion keeps what the value says.

use vstd::prelude::*;
use crate::error::DomainError;
use crate::models::{
    patch_view, CustomMetadataEntry, CustomMetadataPatch, File, FileVersion, NewFile, OwnerKind,
    VersionStatus,
};
use crate::multipart::{MultipartUploadSession, MultipartUploadState};
use crate::policy::{PolicyScope, RetentionScope, StoredPolicy, StoredRetentionRule};
use crate::text::{hex_bytes, hex_encode, str_eq};
use crate::policy::{
    copy_strings, opt_strings, overrides_view, AgeRetention, EffectivePolicy, EffectivePolicyView,
    InactivityRetention, MetadataLimits, MetadataRetention, MimeSizeOverride, PolicyBody,
    PolicyBodyView, RetentionRuleBody, RetentionRuleView, SizeLimits,
};

verus! {

// ── metadata entries ────────────────────────────────────────────────────────

/// One custom-metadata key/value pair.
#[derive(Debug, Clone, PartialEq, Eq)]
pub struct MetadataEntryDto {
    pub key: String,
    pub value: String,
}

impl View for MetadataEntryDto {
    type V = (Seq<char>, Seq<char>);

    open spec fn view(&self) -> (Seq<char>, Seq<char>) {
        (self.key@, self.value@)
    }
}

impl MetadataEntryDto {
    /// The transfer shape of a stored entry.
    pub fn from_entry(e: CustomMetadataEntry) -> (r: MetadataEntryDto)
        ensures
            r.key == e.key,
            r.value == e.value,
    {
        MetadataEntryDto { key: e.key, value: e.value }
    }

    /// The stored entry this pair describes.
    pub fn into_entry(self) -> (r: CustomMetadataEntry)
        ensures
            r.key == self.key,
            r.value == self.value,
    {
        CustomMetadataEntry { key: self.key, value: self.value }
    }
}

// ── storages ────────────────────────────────────────────────────────────────

/// What a storage backend can do natively.
#[derive(Debug, Clone, Copy, PartialEq, Eq, Structural)]
pub struct BackendCapabilities {
    pub multipart_native: bool,
    pub encryption_native: bool,
    pub range_native: bool,
}

/// Backend capabilities as listed by `GET /storages`.
#[derive(Debug, Clone, Copy, PartialEq, Eq, Structural)]
pub struct CapabilitiesDto {
    pub multipart_native: bool,
    pub encryption_native: bool,
    pub range_native: bool,
}

impl From<BackendCapabilities> for CapabilitiesDto {
    fn from(c: BackendCapabilities) -> (r: CapabilitiesDto) {
        CapabilitiesDto {
            multipart_native: c.multipart_native,
            encryption_native: c.encryption_native,
            range_native: c.range_native,
        }
    }
}

impl vstd::std_specs::convert::FromSpecImpl<BackendCapabilities> for CapabilitiesDto {
    open spec fn obeys_from_spec() -> bool {
        true
    }

    open spec fn from_spec(c: BackendCapabilities) -> CapabilitiesDto {
        CapabilitiesDto {
            multipart_native: c.multipart_native,
            encryption_native: c.encryption_native,
            range_native: c.range_native,
        }
    }
}

/// A configured storage backend (`GET /storages`).
#[derive(Debug, Clone, PartialEq, Eq)]
pub struct StorageDto {
    pub id: String,
    pub capabilities: CapabilitiesDto,
}

impl StorageDto {
    /// The listing entry of backend `id`.
    pub fn new(id: String, capabilities: BackendCapabilities) -> (r: StorageDto)
        ensures
            r.id == id,
            r.capabilities.multipart_native == capabilities.multipart_native,
            r.capabilities.encryption_native == capabilities.encryption_native,
            r.capabilities.range_native == capabilities.range_native,
    {
        StorageDto { id, capabilities: CapabilitiesDto::from(capabilities) }
    }
}

// ── policy shapes ───────────────────────────────────────────────────────────

/// Per-pattern size cap in a policy request or response.
#[derive(Debug, Clone, PartialEq, Eq)]
pub struct MimeSizeOverrideDto {
    /// MIME type or pattern, e.g. `"image/*"` or `"video/mp4"`.
    pub mime: String,
    /// Maximum file size in bytes for this pattern.
    pub max_bytes: u64,
}

impl View for MimeSizeOverrideDto {
    type V = (Seq<char>, u64);

    open spec fn view(&self) -> (Seq<char>, u64) {
        (self.mime@, self.max_bytes)
    }
}

impl From<MimeSizeOverride> for MimeSizeOverrideDto {
    fn from(v: MimeSizeOverride) -> (r: MimeSizeOverrideDto) {
        MimeSizeOverrideDto { mime: v.mime, max_bytes: v.max_bytes }
    }
}

impl vstd::std_specs::convert::FromSpecImpl<MimeSizeOverride> for MimeSizeOverrideDto {
    open spec fn obeys_from_spec() -> bool {
        true
    }

    open spec fn from_spec(v: MimeSizeOverride) -> MimeSizeOverrideDto {
        MimeSizeOverrideDto { mime: v.mime, max_bytes: v.max_bytes }
    }
}

impl From<MimeSizeOverrideDto> for MimeSizeOverride {
    fn from(v: MimeSizeOverrideDto) -> (r: MimeSizeOverride) {
        MimeSizeOverride { mime: v.mime, max_bytes: v.max_bytes }
    }
}

impl vstd::std_specs::convert::FromSpecImpl<MimeSizeOverrideDto> for MimeSizeOverride {
    open spec fn obeys_from_spec() -> bool {
        true
    }

    open spec fn from_spec(v: MimeSizeOverrideDto) -> MimeSizeOverride {
        MimeSizeOverride { mime: v.mime, max_bytes: v.max_bytes }
    }
}

/// Metadata limits in a policy body; `None` means unlimited.
#[derive(Debug, Clone, Copy, PartialEq, Eq, Structural)]
pub struct MetadataLimitsDto {
    pub max_pairs: Option<u32>,
    pub max_key_len: Option<u32>,
    pub max_value_len: Option<u32>,
    pub max_total_bytes: Option<u32>,
}

impl View for MetadataLimitsDto {
    type V = MetadataLimits;

    open spec fn view(&self) -> MetadataLimits {
        MetadataLimits {
            max_pairs: self.max_pairs,
            max_key_len: self.max_key_len,
            max_value_len: self.max_value_len,
            max_total_bytes: self.max_total_bytes,
        }
    }
}

impl Default for MetadataLimitsDto {
    fn default() -> (r: MetadataLimitsDto)
        ensures
            (r.max_pairs is None),
            (r.max_key_len is None),
            (r.max_value_len is None),
            (r.max_total_bytes is None),
    {
        MetadataLimitsDto { max_pairs: None, max_key_len: None, max_value_len: None, max_total_bytes: None }
    }
}

impl From<MetadataLimits> for MetadataLimitsDto {
    fn from(v: MetadataLimits) -> (r: MetadataLimitsDto) {
        MetadataLimitsDto {
            max_pairs: v.max_pairs,
            max_key_len: v.max_key_len,
            max_value_len: v.max_value_len,
            max_total_bytes: v.max_total_bytes,
        }
    }
}

impl vstd::std_specs::convert::FromSpecImpl<MetadataLimits> for MetadataLimitsDto {
    open spec fn obeys_from_spec() -> bool {
        true
    }

    open spec fn from_spec(v: MetadataLimits) -> MetadataLimitsDto {
        MetadataLimitsDto {
            max_pairs: v.max_pairs,
            max_key_len: v.max_key_len,
            max_value_len: v.max_value_len,
            max_total_bytes: v.max_total_bytes,
        }
    }
}

impl From<MetadataLimitsDto> for MetadataLimits {
    fn from(v: MetadataLimitsDto) -> (r: MetadataLimits) {
        MetadataLimits {
            max_pairs: v.max_pairs,
            max_key_len: v.max_key_len,
            max_value_len: v.max_value_len,
            max_total_bytes: v.max_total_bytes,
        }
    }
}

impl vstd::std_specs::convert::FromSpecImpl<MetadataLimitsDto> for MetadataLimits {
    open spec fn obeys_from_spec() -> bool {
        true
    }

    open spec fn from_spec(v: MetadataLimitsDto) -> MetadataLimits {
        v@
    }
}

// ── retention shapes ────────────────────────────────────────────────────────

/// Age-based retention criterion.
#[derive(Debug, Clone, Copy, PartialEq, Eq, Structural)]
pub struct AgeRetentionDto {
    pub max_age_days: u32,
}

impl From<AgeRetention> for AgeRetentionDto {
    fn from(v: AgeRetention) -> (r: AgeRetentionDto) {
        AgeRetentionDto { max_age_days: v.max_age_days }
    }
}

impl vstd::std_specs::convert::FromSpecImpl<AgeRetention> for AgeRetentionDto {
    open spec fn obeys_from_spec() -> bool {
        true
    }

    open spec fn from_spec(v: AgeRetention) -> AgeRetentionDto {
        AgeRetentionDto { max_age_days: v.max_age_days }
    }
}

impl From<AgeRetentionDto> for AgeRetention {
    fn from(v: AgeRetentionDto) -> (r: AgeRetention) {
        AgeRetention { max_age_days: v.max_age_days }
    }
}

impl vstd::std_specs::convert::FromSpecImpl<AgeRetentionDto> for AgeRetention {
    open spec fn obeys_from_spec() -> bool {
        true
    }

    open spec fn from_spec(v: AgeRetentionDto) -> AgeRetention {
        AgeRetention { max_age_days: v.max_age_days }
    }
}

/// Inactivity-based retention criterion.
#[derive(Debug, Clone, Copy, PartialEq, Eq, Structural)]
pub struct InactivityRetentionDto {
    pub inactivity_days: u32,
}

impl From<InactivityRetention> for InactivityRetentionDto {
    fn from(v: InactivityRetention) -> (r: InactivityRetentionDto) {
        InactivityRetentionDto { inactivity_days: v.inactivity_days }
    }
}

impl vstd::std_specs::convert::FromSpecImpl<InactivityRetention> for InactivityRetentionDto {
    open spec fn obeys_from_spec() -> bool {
        true
    }

    open spec fn from_spec(v: InactivityRetention) -> InactivityRetentionDto {
        InactivityRetentionDto { inactivity_days: v.inactivity_days }
    }
}

impl From<InactivityRetentionDto> for InactivityRetention {
    fn from(v: InactivityRetentionDto) -> (r: InactivityRetention) {
        InactivityRetention { inactivity_days: v.inactivity_days }
    }
}

impl vstd::std_specs::convert::FromSpecImpl<InactivityRetentionDto> for InactivityRetention {
    open spec fn obeys_from_spec() -> bool {
        true
    }

    open spec fn from_spec(v: InactivityRetentionDto) -> InactivityRetention {
        InactivityRetention { inactivity_days: v.inactivity_days }
    }
}

/// Metadata-value-based retention criterion.
#[derive(Debug, Clone, PartialEq, Eq)]
pub struct MetadataRetentionDto {
    pub key: String,
    pub value: String,
}

impl View for MetadataRetentionDto {
    type V = (Seq<char>, Seq<char>);

    open spec fn view(&self) -> (Seq<char>, Seq<char>) {
        (self.key@, self.value@)
    }
}

impl From<MetadataRetention> for MetadataRetentionDto {
    fn from(v: MetadataRetention) -> (r: MetadataRetentionDto) {
        MetadataRetentionDto { key: v.key, value: v.value }
    }
}

impl vstd::std_specs::convert::FromSpecImpl<MetadataRetention> for MetadataRetentionDto {
    open spec fn obeys_from_spec() -> bool {
        true
    }

    open spec fn from_spec(v: MetadataRetention) -> MetadataRetentionDto {
        MetadataRetentionDto { key: v.key, value: v.value }
    }
}

impl From<MetadataRetentionDto> for MetadataRetention {
    fn from(v: MetadataRetentionDto) -> (r: MetadataRetention) {
        MetadataRetention { key: v.key, value: v.value }
    }
}

impl vstd::std_specs::convert::FromSpecImpl<MetadataRetentionDto> for MetadataRetention {
    open spec fn obeys_from_spec() -> bool {
        true
    }

    open spec fn from_spec(v: MetadataRetentionDto) -> MetadataRetention {
        MetadataRetention { key: v.key, value: v.value }
    }
}

// ── nested policy shapes ────────────────────────────────────────────────────

/// The abstract contents of a list of override shapes.
pub open spec fn dto_overrides_view(s: Seq<MimeSizeOverrideDto>) -> Seq<(Seq<char>, u64)> {
    Seq::new(s.len(), |i: int| s[i]@)
}

/// The transfer shapes of a list of overrides, in the same order.
fn overrides_to_dto(v: &Vec<MimeSizeOverride>) -> (r: Vec<MimeSizeOverrideDto>)
    ensures
        dto_overrides_view(r@) == overrides_view(v@),
{
    let mut r: Vec<MimeSizeOverrideDto> = Vec::new();
    let mut i: usize = 0;
    while i < v.len()
        invariant
            i <= v.len(),
            r@.len() == i,
            dto_overrides_view(r@) == overrides_view(v@.take(i as int)),
        decreases v.len() - i,
    {
        let d = MimeSizeOverrideDto { mime: v[i].mime.clone(), max_bytes: v[i].max_bytes };
        let ghost before = r@;
        r.push(d);
        assert forall|j: int| 0 <= j < i + 1 implies dto_overrides_view(r@)[j] == overrides_view(v@.take(i + 1))[j] by {
            if j < i {
                assert(r@[j] == before[j]);
                assert(dto_overrides_view(before)[j] == overrides_view(v@.take(i as int))[j]);
            }
        }
        assert(dto_overrides_view(r@) =~= overrides_view(v@.take(i + 1)));
        i = i + 1;
    }
    assert(v@.take(v.len() as int) =~= v@);
    r
}

/// The overrides a list of transfer shapes describes, in the same order.
fn overrides_from_dto(v: &Vec<MimeSizeOverrideDto>) -> (r: Vec<MimeSizeOverride>)
    ensures
        overrides_view(r@) == dto_overrides_view(v@),
{
    let mut r: Vec<MimeSizeOverride> = Vec::new();
    let mut i: usize = 0;
    while i < v.len()
        invariant
            i <= v.len(),
            r@.len() == i,
            overrides_view(r@) == dto_overrides_view(v@.take(i as int)),
        decreases v.len() - i,
    {
        let d = MimeSizeOverride { mime: v[i].mime.clone(), max_bytes: v[i].max_bytes };
        let ghost before = r@;
        r.push(d);
        assert forall|j: int| 0 <= j < i + 1 implies overrides_view(r@)[j] == dto_overrides_view(v@.take(i + 1))[j] by {
            if j < i {
                assert(r@[j] == before[j]);
                assert(overrides_view(before)[j] == dto_overrides_view(v@.take(i as int))[j]);
            }
        }
        assert(overrides_view(r@) =~= dto_overrides_view(v@.take(i + 1)));
        i = i + 1;
    }
    assert(v@.take(v.len() as int) =~= v@);
    r
}

/// Size limits in a policy body.
#[derive(Debug, Clone, PartialEq, Eq)]
pub struct SizeLimitsDto {
    /// Global maximum file size in bytes (`None` = unlimited at this level).
    pub max_bytes: Option<u64>,
    /// Per-pattern overrides.
    pub per_mime: Vec<MimeSizeOverrideDto>,
}

impl View for SizeLimitsDto {
    type V = (Option<u64>, Seq<(Seq<char>, u64)>);

    open spec fn view(&self) -> (Option<u64>, Seq<(Seq<char>, u64)>) {
        (self.max_bytes, dto_overrides_view(self.per_mime@))
    }
}

impl Default for SizeLimitsDto {
    fn default() -> (r: SizeLimitsDto)
        ensures
            (r.max_bytes is None),
            r.per_mime@.len() == 0,
    {
        SizeLimitsDto { max_bytes: None, per_mime: Vec::new() }
    }
}

impl SizeLimitsDto {
    /// The transfer shape of `v`.
    pub fn from_domain(v: SizeLimits) -> (r: SizeLimitsDto)
        ensures
            r@ == v@,
    {
        SizeLimitsDto { max_bytes: v.max_bytes, per_mime: overrides_to_dto(&v.per_mime) }
    }

    /// The size limits this shape describes.
    pub fn into_domain(self) -> (r: SizeLimits)
        ensures
            r@ == self@,
    {
        SizeLimits { max_bytes: self.max_bytes, per_mime: overrides_from_dto(&self.per_mime) }
    }
}

/// Policy body in requests and responses.
#[derive(Debug, Clone, PartialEq, Eq)]
pub struct PolicyBodyDto {
    /// Allowed MIME types; empty means every type is allowed at this level.
    pub allowed_mime_types: Vec<String>,
    /// Global and per-pattern size limits.
    pub size_limits: SizeLimitsDto,
    /// Metadata limits.
    pub metadata_limits: MetadataLimitsDto,
    /// Enabled event types; empty means none at this level.
    pub enabled_event_types: Vec<String>,
}

impl View for PolicyBodyDto {
    type V = PolicyBodyView;

    open spec fn view(&self) -> PolicyBodyView {
        PolicyBodyView {
            allowed_mime_types: self.allowed_mime_types.deep_view(),
            max_bytes: self.size_limits.max_bytes,
            per_mime: dto_overrides_view(self.size_limits.per_mime@),
            metadata_limits: self.metadata_limits@,
            enabled_event_types: self.enabled_event_types.deep_view(),
        }
    }
}

impl PolicyBodyDto {
    /// The transfer shape of `v`.
    pub fn from_domain(v: PolicyBody) -> (r: PolicyBodyDto)
        ensures
            r@ == v@,
    {
        PolicyBodyDto {
            size_limits: SizeLimitsDto::from_domain(v.size_limits),
            metadata_limits: MetadataLimitsDto::from(v.metadata_limits),
            allowed_mime_types: v.allowed_mime_types,
            enabled_event_types: v.enabled_event_types,
        }
    }

    /// The policy body this shape describes.
    pub fn into_domain(self) -> (r: PolicyBody)
        ensures
            r@ == self@,
    {
        PolicyBody {
            size_limits: self.size_limits.into_domain(),
            metadata_limits: MetadataLimits::from(self.metadata_limits),
            allowed_mime_types: self.allowed_mime_types,
            enabled_event_types: self.enabled_event_types,
        }
    }
}

/// The effective policy: the most restrictive combination of tenant and
/// user policies.
#[derive(Debug, Clone, PartialEq, Eq)]
pub struct EffectivePolicyDto {
    /// `None`: every type allowed; `Some(list)`: only what the list admits.
    pub allowed_mime_types: Option<Vec<String>>,
    /// Effective global size limit in bytes (`None` = unlimited).
    pub max_bytes: Option<u64>,
    /// Per-pattern caps, most restrictive per pattern.
    pub per_mime_max_bytes: Vec<MimeSizeOverrideDto>,
    /// Effective metadata limits, most restrictive per field.
    pub metadata_limits: MetadataLimitsDto,
}

impl View for EffectivePolicyDto {
    type V = EffectivePolicyView;

    open spec fn view(&self) -> EffectivePolicyView {
        EffectivePolicyView {
            allowed_mime_types: opt_strings(self.allowed_mime_types),
            max_bytes: self.max_bytes,
            per_mime_max_bytes: dto_overrides_view(self.per_mime_max_bytes@),
            metadata_limits: self.metadata_limits@,
        }
    }
}

impl EffectivePolicyDto {
    /// The transfer shape of `ep`.
    pub fn from_domain(ep: EffectivePolicy) -> (r: EffectivePolicyDto)
        ensures
            r@ == ep@,
    {
        EffectivePolicyDto {
            per_mime_max_bytes: overrides_to_dto(&ep.per_mime_max_bytes),
            metadata_limits: MetadataLimitsDto::from(ep.metadata_limits),
            allowed_mime_types: ep.allowed_mime_types,
            max_bytes: ep.max_bytes,
        }
    }
}

/// Retention rule body in requests and responses.
#[derive(Debug, Clone, PartialEq, Eq)]
pub struct RetentionRuleBodyDto {
    pub age: Option<AgeRetentionDto>,
    pub inactivity: Option<InactivityRetentionDto>,
    pub metadata: Option<MetadataRetentionDto>,
}

impl View for RetentionRuleBodyDto {
    type V = RetentionRuleView;

    open spec fn view(&self) -> RetentionRuleView {
        RetentionRuleView {
            max_age_days: match self.age {
                Some(a) => Some(a.max_age_days),
                None => None,
            },
            inactivity_days: match self.inactivity {
                Some(a) => Some(a.inactivity_days),
                None => None,
            },
            metadata: match self.metadata {
                Some(m) => Some(m@),
                None => None,
            },
        }
    }
}

impl RetentionRuleBodyDto {
    /// The transfer shape of `v`.
    pub fn from_domain(v: RetentionRuleBody) -> (r: RetentionRuleBodyDto)
        ensures
            r@ == v@,
    {
        RetentionRuleBodyDto {
            age: match v.age {
                Some(a) => Some(AgeRetentionDto::from(a)),
                None => None,
            },
            inactivity: match v.inactivity {
                Some(a) => Some(InactivityRetentionDto::from(a)),
                None => None,
            },
            metadata: match v.metadata {
                Some(m) => Some(MetadataRetentionDto::from(m)),
                None => None,
            },
        }
    }

    /// The retention rule body this shape describes.
    pub fn into_domain(self) -> (r: RetentionRuleBody)
        ensures
            r@ == self@,
    {
        RetentionRuleBody {
            age: match self.age {
                Some(a) => Some(AgeRetention::from(a)),
                None => None,
            },
            inactivity: match self.inactivity {
                Some(a) => Some(InactivityRetention::from(a)),
                None => None,
            },
            metadata: match self.metadata {
                Some(m) => Some(MetadataRetention::from(m)),
                None => None,
            },
        }
    }
}

// ── metadata merge-patch ────────────────────────────────────────────────────

/// No key occurs twice in a list of patch entries.
pub open spec fn keys_distinct(s: Seq<(Seq<char>, Option<Seq<char>>)>) -> bool {
    forall|i: int, j: int| 0 <= i < j < s.len() ==> #[trigger] s[i].0 != #[trigger] s[j].0
}

/// The abstract value of an optional string.
pub open spec fn opt_str(o: Option<String>) -> Option<Seq<char>> {
    match o {
        Some(v) => Some(v@),
        None => None,
    }
}

/// Request body for `PATCH /files/{id}`: a JSON merge patch over custom
/// metadata. Each key maps to a value (upsert) or `None` (delete); keys not
/// listed are unchanged. Each key occurs at most once.
#[derive(Debug, Clone, PartialEq, Eq)]
pub struct UpdateMetadataReq {
    custom_metadata: Vec<(String, Option<String>)>,
}

impl View for UpdateMetadataReq {
    type V = Seq<(Seq<char>, Option<Seq<char>>)>;

    closed spec fn view(&self) -> Seq<(Seq<char>, Option<Seq<char>>)> {
        patch_view(self.custom_metadata@)
    }
}

impl UpdateMetadataReq {
    /// Every key occurs at most once.
    pub open spec fn wf(&self) -> bool {
        keys_distinct(self@)
    }

    /// A patch that changes nothing.
    pub fn new() -> (r: UpdateMetadataReq)
        ensures
            r.wf(),
            r@.len() == 0,
    {
        UpdateMetadataReq { custom_metadata: Vec::new() }
    }

    /// Maps `key` to `value`, replacing what the patch held for `key`.
    pub fn set(&mut self, key: String, value: Option<String>)
        requires
            old(self).wf(),
        ensures
            final(self).wf(),
            forall|i: int|
                0 <= i < old(self)@.len() && (#[trigger] old(self)@[i]).0 == key@ ==> final(self)@
                    == old(self)@.update(i, (key@, opt_str(value))),
            (forall|i: int| 0 <= i < old(self)@.len() ==> (#[trigger] old(self)@[i]).0 != key@)
                ==> final(self)@ == old(self)@.push((key@, opt_str(value))),
    {
        let ghost before = self@;
        let ghost entry = (key@, opt_str(value));
        let mut i: usize = 0;
        while i < self.custom_metadata.len()
            invariant
                i <= self.custom_metadata.len(),
                self@ == before,
                before == old(self)@,
                entry == (key@, opt_str(value)),
                keys_distinct(before),
                forall|j: int| 0 <= j < i ==> (#[trigger] before[j]).0 != key@,
            decreases self.custom_metadata.len() - i,
        {
            if str_eq(self.custom_metadata[i].0.as_str(), key.as_str()) {
                assert(before[i as int].0 == key@);
                let ghost raw = self.custom_metadata@;
                let pair = (key, value);
                let ghost pv = pair;
                assert(entry == (pv.0@, opt_str(pv.1)));
                self.custom_metadata.set(i, pair);
                assert(self.custom_metadata@ == raw.update(i as int, pv));
                assert(patch_view(self.custom_metadata@)[i as int] == entry);
                assert forall|j: int| 0 <= j < before.len() implies #[trigger] patch_view(
                    self.custom_metadata@,
                )[j] == before.update(i as int, entry)[j] by {
                    if j != i {
                        assert(self.custom_metadata@[j] == raw[j]);
                    }
                }
                assert(self@ =~= before.update(i as int, entry));
                assert forall|a: int, b: int| 0 <= a < b < self@.len() implies #[trigger] self@[a].0
                    != #[trigger] self@[b].0 by {
                    assert(before[a].0 != before[b].0);
                }
                assert forall|j: int|
                    0 <= j < before.len() && (#[trigger] before[j]).0 == key@ implies self@
                    == before.update(j, entry) by {
                    if j != i {
                        assert(before[j].0 != before[i as int].0);
                    }
                }
                return;
            }
            i = i + 1;
        }
        self.custom_metadata.push((key, value));
        assert(self@ =~= before.push(entry));
        assert forall|a: int, b: int| 0 <= a < b < self@.len() implies #[trigger] self@[a].0
            != #[trigger] self@[b].0 by {
            if b < before.len() {
                assert(before[a].0 != before[b].0);
            } else {
                assert(before[a].0 != key@);
            }
        }
    }

    /// The domain patch this request describes.
    pub fn into_patch(self) -> (r: CustomMetadataPatch)
        ensures
            r@ == self@,
    {
        CustomMetadataPatch { entries: self.custom_metadata }
    }
}

// ── files and versions ──────────────────────────────────────────────────────

/// The abstract contents of stored metadata entries.
pub open spec fn entries_view(s: Seq<CustomMetadataEntry>) -> Seq<(Seq<char>, Seq<char>)> {
    Seq::new(s.len(), |i: int| (s[i].key@, s[i].value@))
}

/// The abstract contents of metadata pairs in transfer shape.
pub open spec fn dto_entries_view(s: Seq<MetadataEntryDto>) -> Seq<(Seq<char>, Seq<char>)> {
    Seq::new(s.len(), |i: int| s[i]@)
}

/// The transfer shapes of stored metadata entries, in the same order.
fn entries_to_dto(v: &Vec<CustomMetadataEntry>) -> (r: Vec<MetadataEntryDto>)
    ensures
        dto_entries_view(r@) == entries_view(v@),
{
    let mut r: Vec<MetadataEntryDto> = Vec::new();
    let mut i: usize = 0;
    while i < v.len()
        invariant
            i <= v.len(),
            r@.len() == i,
            dto_entries_view(r@) == entries_view(v@.take(i as int)),
        decreases v.len() - i,
    {
        let d = MetadataEntryDto { key: v[i].key.clone(), value: v[i].value.clone() };
        let ghost before = r@;
        r.push(d);
        assert forall|j: int| 0 <= j < i + 1 implies dto_entries_view(r@)[j] == entries_view(
            v@.take(i + 1),
        )[j] by {
            if j < i {
                assert(r@[j] == before[j]);
                assert(dto_entries_view(before)[j] == entries_view(v@.take(i as int))[j]);
            }
        }
        assert(dto_entries_view(r@) =~= entries_view(v@.take(i + 1)));
        i = i + 1;
    }
    assert(v@.take(v.len() as int) =~= v@);
    r
}

/// The stored entries that metadata pairs in transfer shape describe.
fn entries_from_dto(v: &Vec<MetadataEntryDto>) -> (r: Vec<CustomMetadataEntry>)
    ensures
        entries_view(r@) == dto_entries_view(v@),
{
    let mut r: Vec<CustomMetadataEntry> = Vec::new();
    let mut i: usize = 0;
    while i < v.len()
        invariant
            i <= v.len(),
            r@.len() == i,
            entries_view(r@) == dto_entries_view(v@.take(i as int)),
        decreases v.len() - i,
    {
        let d = CustomMetadataEntry { key: v[i].key.clone(), value: v[i].value.clone() };
        let ghost before = r@;
        r.push(d);
        assert forall|j: int| 0 <= j < i + 1 implies entries_view(r@)[j] == dto_entries_view(
            v@.take(i + 1),
        )[j] by {
            if j < i {
                assert(r@[j] == before[j]);
                assert(entries_view(before)[j] == dto_entries_view(v@.take(i as int))[j]);
            }
        }
        assert(entries_view(r@) =~= dto_entries_view(v@.take(i + 1)));
        i = i + 1;
    }
    assert(v@.take(v.len() as int) =~= v@);
    r
}

/// File metadata response (`GET /files/{id}`, and the body of mutations).
/// Times are nanoseconds since the Unix epoch.
#[derive(Debug, Clone, PartialEq, Eq)]
pub struct FileDto {
    pub file_id: u128,
    pub tenant_id: u128,
    pub owner_kind: String,
    pub owner_id: u128,
    pub name: String,
    pub gts_file_type: String,
    pub content_id: Option<u128>,
    pub meta_version: i64,
    pub etag: Option<String>,
    pub created_at: i128,
    pub last_modified_at: i128,
    pub custom_metadata: Vec<MetadataEntryDto>,
}

impl FileDto {
    /// The response for `file` with its custom metadata `meta`; `etag` is
    /// the entity tag of the file's current content, if it has any.
    pub fn from_parts(file: File, meta: Vec<CustomMetadataEntry>, etag: Option<String>) -> (r:
        FileDto)
        ensures
            r.file_id == file.file_id,
            r.tenant_id == file.tenant_id,
            r.owner_kind@ == file.owner_kind.spec_name(),
            r.owner_id == file.owner_id,
            r.name == file.name,
            r.gts_file_type == file.gts_file_type,
            r.content_id == file.content_id,
            r.meta_version == file.meta_version,
            r.etag == etag,
            r.created_at == file.created_at,
            r.last_modified_at == file.last_modified_at,
            dto_entries_view(r.custom_metadata@) == entries_view(meta@),
    {
        FileDto {
            file_id: file.file_id,
            tenant_id: file.tenant_id,
            owner_kind: file.owner_kind.as_str().to_owned(),
            owner_id: file.owner_id,
            name: file.name,
            gts_file_type: file.gts_file_type,
            content_id: file.content_id,
            meta_version: file.meta_version,
            etag,
            created_at: file.created_at,
            last_modified_at: file.last_modified_at,
            custom_metadata: entries_to_dto(&meta),
        }
    }
}

/// The validation error for an owner kind outside `"user"` / `"app"`.
pub open spec fn bad_owner_kind(e: DomainError, field: Seq<char>) -> bool {
    e matches DomainError::Validation { field: f, message: m } && f@ == field && m@
        == "must be 'user' or 'app'"@
}

/// The owner kind spelled `s`, or a validation error on `field`.
pub fn require_owner_kind(field: &str, s: &str) -> (r: Result<OwnerKind, DomainError>)
    ensures
        OwnerKind::spec_parse(s@) matches Some(k) ==> r == Ok::<OwnerKind, DomainError>(k),
        OwnerKind::spec_parse(s@) is None ==> (r matches Err(e) && bad_owner_kind(e, field@)),
{
    match OwnerKind::parse(s) {
        Some(k) => Ok(k),
        None => Err(DomainError::validation(field, "must be 'user' or 'app'")),
    }
}

/// Request to create a file (`POST /files`).
#[derive(Debug, Clone, PartialEq, Eq)]
pub struct CreateFileReq {
    /// `"user"` or `"app"`.
    pub owner_kind: String,
    pub owner_id: u128,
    pub name: String,
    pub gts_file_type: String,
    pub mime_type: String,
    pub custom_metadata: Vec<MetadataEntryDto>,
    /// Key under which a retried request gets the first response back
    /// instead of creating a second file.
    pub idempotency_key: Option<String>,
}

impl CreateFileReq {
    /// Parse the owner kind, rejecting unknown spellings.
    pub fn parse_owner_kind(&self) -> (r: Option<OwnerKind>)
        ensures
            r == OwnerKind::spec_parse(self.owner_kind@),
    {
        OwnerKind::parse(self.owner_kind.as_str())
    }

    /// The file this request asks to create, or the validation error on
    /// `owner_kind` when that is neither `"user"` nor `"app"`.
    pub fn to_new_file(&self) -> (r: Result<NewFile, DomainError>)
        ensures
            OwnerKind::spec_parse(self.owner_kind@) is None ==> (r matches Err(e) && bad_owner_kind(
                e,
                "owner_kind"@,
            )),
            OwnerKind::spec_parse(self.owner_kind@) matches Some(k) ==> (r matches Ok(n) && n.owner_kind
                == k && n.owner_id == self.owner_id && n.name@ == self.name@ && n.gts_file_type@
                == self.gts_file_type@ && n.mime_type@ == self.mime_type@ && entries_view(
                n.custom_metadata@,
            ) == dto_entries_view(self.custom_metadata@)),
    {
        let owner_kind = match require_owner_kind("owner_kind", self.owner_kind.as_str()) {
            Ok(k) => k,
            Err(e) => {
                return Err(e);
            },
        };
        Ok(
            NewFile {
                owner_kind,
                owner_id: self.owner_id,
                name: self.name.clone(),
                gts_file_type: self.gts_file_type.clone(),
                mime_type: self.mime_type.clone(),
                custom_metadata: entries_from_dto(&self.custom_metadata),
            },
        )
    }
}

/// Result of create / presign: identity plus the signed upload URL.
#[derive(Debug, Clone, PartialEq, Eq)]
pub struct UploadTicketDto {
    pub file_id: u128,
    pub version_id: u128,
    pub upload_url: String,
}

/// Result of `GET /files/{id}/download-url`.
#[derive(Debug, Clone, PartialEq, Eq)]
pub struct DownloadTicketDto {
    pub download_url: String,
    pub etag: String,
    pub version_id: u128,
}

/// Request body for `POST /files/{id}/bind`.
#[derive(Debug, Clone, Copy, PartialEq, Eq, Structural)]
pub struct BindReq {
    pub version_id: u128,
}

/// One content version (`GET /files/{id}/versions`); `hash` is the digest
/// in lowercase hexadecimal, `created_at` nanoseconds since the Unix epoch.
#[derive(Debug, Clone, PartialEq, Eq)]
pub struct VersionDto {
    pub version_id: u128,
    pub mime_type: String,
    pub size: i64,
    pub hash_algorithm: String,
    pub hash: String,
    pub status: String,
    pub is_current: bool,
    pub created_at: i128,
}

impl VersionDto {
    /// The listing entry of version `v`.
    pub fn from_version(v: FileVersion) -> (r: VersionDto)
        ensures
            r.version_id == v.version_id,
            r.mime_type == v.mime_type,
            r.size == v.size,
            r.hash_algorithm == v.hash_algorithm,
            r.hash@ == hex_bytes(v.hash_value@),
            r.status@ == v.status.spec_name(),
            r.is_current == v.is_current,
            r.created_at == v.created_at,
    {
        VersionDto {
            hash: hex_encode(v.hash_value.as_slice()),
            status: v.status.as_str().to_owned(),
            version_id: v.version_id,
            mime_type: v.mime_type,
            size: v.size,
            hash_algorithm: v.hash_algorithm,
            is_current: v.is_current,
            created_at: v.created_at,
        }
    }
}

// ── policies and retention rules ────────────────────────────────────────────

/// The validation error on `scope` for a spelling that names no scope;
/// `allowed` lists the accepted spellings.
pub open spec fn bad_scope(e: DomainError, allowed: Seq<char>) -> bool {
    e matches DomainError::Validation { field: f, message: m } && f@ == "scope"@ && m@ == allowed
}

/// The policy scope spelled `s`, or a validation error on `scope`.
pub fn require_policy_scope(s: &str) -> (r: Result<PolicyScope, DomainError>)
    ensures
        PolicyScope::spec_parse(s@) matches Some(k) ==> r == Ok::<PolicyScope, DomainError>(k),
        PolicyScope::spec_parse(s@) is None ==> (r matches Err(e) && bad_scope(
            e,
            "must be 'tenant' or 'user'"@,
        )),
{
    match PolicyScope::parse(s) {
        Some(k) => Ok(k),
        None => Err(DomainError::validation("scope", "must be 'tenant' or 'user'")),
    }
}

/// The retention scope spelled `s`, or a validation error on `scope`.
pub fn require_retention_scope(s: &str) -> (r: Result<RetentionScope, DomainError>)
    ensures
        RetentionScope::spec_parse(s@) matches Some(k) ==> r == Ok::<RetentionScope, DomainError>(k),
        RetentionScope::spec_parse(s@) is None ==> (r matches Err(e) && bad_scope(
            e,
            "must be 'tenant', 'user', or 'file'"@,
        )),
{
    match RetentionScope::parse(s) {
        Some(k) => Ok(k),
        None => Err(DomainError::validation("scope", "must be 'tenant', 'user', or 'file'")),
    }
}

/// A stored policy row as returned by `GET /policy`. Stored rows carry no
/// timestamps, so both times are the Unix epoch (0).
#[derive(Debug, Clone, PartialEq, Eq)]
pub struct PolicyDto {
    pub policy_id: u128,
    pub tenant_id: u128,
    /// `"tenant"` or `"user"`.
    pub scope: String,
    pub scope_owner_id: Option<u128>,
    pub body: PolicyBodyDto,
    pub created_at: i128,
    pub updated_at: i128,
}

impl PolicyDto {
    /// The response for stored policy `p`.
    pub fn from_stored(p: StoredPolicy) -> (r: PolicyDto)
        ensures
            r.policy_id == p.policy_id,
            r.tenant_id == p.tenant_id,
            r.scope@ == p.scope.spec_name(),
            r.scope_owner_id == p.scope_owner_id,
            r.body@ == p.body@,
            r.created_at == 0,
            r.updated_at == 0,
    {
        PolicyDto {
            scope: p.scope.as_str().to_owned(),
            body: PolicyBodyDto::from_domain(p.body),
            policy_id: p.policy_id,
            tenant_id: p.tenant_id,
            scope_owner_id: p.scope_owner_id,
            created_at: 0,
            updated_at: 0,
        }
    }
}

/// Request body for `PUT /policy`.
#[derive(Debug, Clone, PartialEq, Eq)]
pub struct SetPolicyReq {
    /// `"tenant"` or `"user"`.
    pub scope: String,
    /// Target owner; required for the user scope.
    pub scope_owner_id: Option<u128>,
    /// The policy to store.
    pub body: PolicyBodyDto,
}

/// A stored retention rule row. Stored rows carry no timestamp, so
/// `created_at` is the Unix epoch (0).
#[derive(Debug, Clone, PartialEq, Eq)]
pub struct RetentionRuleDto {
    pub rule_id: u128,
    pub tenant_id: u128,
    /// `"tenant"`, `"user"`, or `"file"`.
    pub scope: String,
    pub scope_target_id: Option<u128>,
    pub body: RetentionRuleBodyDto,
    pub created_at: i128,
}

impl RetentionRuleDto {
    /// The response for stored rule `r0`.
    pub fn from_stored(r0: StoredRetentionRule) -> (r: RetentionRuleDto)
        ensures
            r.rule_id == r0.rule_id,
            r.tenant_id == r0.tenant_id,
            r.scope@ == r0.scope.spec_name(),
            r.scope_target_id == r0.scope_target_id,
            r.body@ == r0.body@,
            r.created_at == 0,
    {
        RetentionRuleDto {
            scope: r0.scope.as_str().to_owned(),
            body: RetentionRuleBodyDto::from_domain(r0.body),
            rule_id: r0.rule_id,
            tenant_id: r0.tenant_id,
            scope_target_id: r0.scope_target_id,
            created_at: 0,
        }
    }
}

/// Request body to create a retention rule (`POST /retention-rules`).
#[derive(Debug, Clone, PartialEq, Eq)]
pub struct CreateRetentionRuleReq {
    /// `"tenant"`, `"user"`, or `"file"`.
    pub scope: String,
    /// The user id for the user scope, the file id for the file scope.
    pub scope_target_id: Option<u128>,
    pub body: RetentionRuleBodyDto,
}

/// Outcome of deleting retention rule `rule_id`: a rule that was not there
/// is reported as not found.
pub fn retention_rule_deleted(removed: bool, rule_id: u128) -> (r: Result<(), DomainError>)
    ensures
        removed ==> r is Ok,
        !removed ==> r == Err::<(), DomainError>(DomainError::FileNotFound { id: rule_id }),
{
    if removed {
        Ok(())
    } else {
        Err(DomainError::file_not_found(rule_id))
    }
}

// ── multipart uploads ───────────────────────────────────────────────────────

/// Request to initiate a multipart upload (`POST /files/{id}/multipart`).
#[derive(Debug, Clone, PartialEq, Eq)]
pub struct InitiateMultipartReq {
    /// Declared MIME type of the file content.
    pub declared_mime: String,
}

/// An initiated multipart upload session; `expires_at` is nanoseconds since
/// the Unix epoch.
#[derive(Debug, Clone, PartialEq, Eq)]
pub struct MultipartSessionDto {
    pub upload_id: u128,
    pub file_id: u128,
    pub version_id: u128,
    pub state: String,
    pub declared_mime: String,
    pub expires_at: i128,
}

impl MultipartSessionDto {
    /// The response for session `s`.
    pub fn from_session(s: MultipartUploadSession) -> (r: MultipartSessionDto)
        ensures
            r.upload_id == s.upload_id,
            r.file_id == s.file_id,
            r.version_id == s.version_id,
            r.state@ == s.state.spec_name(),
            r.declared_mime == s.declared_mime,
            r.expires_at == s.expires_at,
    {
        MultipartSessionDto {
            state: s.state.as_str().to_owned(),
            upload_id: s.upload_id,
            file_id: s.file_id,
            version_id: s.version_id,
            declared_mime: s.declared_mime,
            expires_at: s.expires_at,
        }
    }
}

/// Response for an uploaded part.
#[derive(Debug, Clone, PartialEq, Eq)]
pub struct UploadPartDto {
    pub part_number: u32,
    pub backend_etag: String,
    pub size: i64,
}

// ── migration and ownership ─────────────────────────────────────────────────

/// Request to move a file's content to another storage backend.
#[derive(Debug, Clone, PartialEq, Eq)]
pub struct MigrateBackendReq {
    /// Id of the backend that receives the content.
    pub target_backend_id: String,
}

/// Request to transfer ownership of a file (`POST /files/{id}/transfer`).
#[derive(Debug, Clone, PartialEq, Eq)]
pub struct TransferOwnershipReq {
    /// New owner kind: `"user"` or `"app"`.
    pub new_owner_kind: String,
    pub new_owner_id: u128,
}

// ── round trips ─────────────────────────────────────────────────────────────

/// A policy body sent out in transfer shape and read back says the same.
pub proof fn law_policy_body_round_trip(b: PolicyBody, d: PolicyBodyDto, back: PolicyBody)
    requires
        d@ == b@,
        back@ == d@,
    ensures
        back@ == b@,
{
}

/// A retention rule body sent out in transfer shape and read back says the
/// same.
pub proof fn law_retention_rule_round_trip(
    b: RetentionRuleBody,
    d: RetentionRuleBodyDto,
    back: RetentionRuleBody,
)
    requires
        d@ == b@,
        back@ == d@,
    ensures
        back@ == b@,
{
}

} // verus!
