//! Policy types and the resolver that combines a tenant-level and a
//! user-level policy into the effective policy: the most restrictive choice
//! for every aspect.

use vstd::prelude::*;
use crate::mime::{
    is_wildcard, is_wildcard_pattern, list_allows, mime_base, mimes_overlap, narrower, pattern_admits,
    pattern_allows, same_base,
};
use crate::text::str_eq;

verus! {

// ── scopes ──────────────────────────────────────────────────────────────────

/// Whether a policy row applies to the whole tenant or to one user.
#[derive(Debug, Clone, Copy, PartialEq, Eq, Structural)]
pub enum PolicyScope {
    Tenant,
    User,
}

impl PolicyScope {
    /// Wire and storage spelling.
    pub open spec fn spec_name(self) -> Seq<char> {
        match self {
            PolicyScope::Tenant => "tenant"@,
            PolicyScope::User => "user"@,
        }
    }

    /// Wire/DB spelling (`"tenant"` / `"user"`).
    pub fn as_str(&self) -> (r: &'static str)
        ensures
            r@ == self.spec_name(),
    {
        match self {
            PolicyScope::Tenant => "tenant",
            PolicyScope::User => "user",
        }
    }

    /// The scope that a spelling names, if any.
    pub open spec fn spec_parse(s: Seq<char>) -> Option<PolicyScope> {
        if s == "tenant"@ {
            Some(PolicyScope::Tenant)
        } else if s == "user"@ {
            Some(PolicyScope::User)
        } else {
            None
        }
    }

    /// Parse from the wire/DB spelling; `None` for anything else.
    pub fn parse(s: &str) -> (r: Option<PolicyScope>)
        ensures
            r == PolicyScope::spec_parse(s@),
    {
        if str_eq(s, "tenant") {
            Some(PolicyScope::Tenant)
        } else if str_eq(s, "user") {
            Some(PolicyScope::User)
        } else {
            None
        }
    }
}

/// Whether a retention rule applies to the tenant, a user, or a file.
#[derive(Debug, Clone, Copy, PartialEq, Eq, Structural)]
pub enum RetentionScope {
    Tenant,
    User,
    File,
}

impl RetentionScope {
    /// Wire and storage spelling.
    pub open spec fn spec_name(self) -> Seq<char> {
        match self {
            RetentionScope::Tenant => "tenant"@,
            RetentionScope::User => "user"@,
            RetentionScope::File => "file"@,
        }
    }

    /// Wire/DB spelling.
    pub fn as_str(&self) -> (r: &'static str)
        ensures
            r@ == self.spec_name(),
    {
        match self {
            RetentionScope::Tenant => "tenant",
            RetentionScope::User => "user",
            RetentionScope::File => "file",
        }
    }

    /// The scope that a spelling names, if any.
    pub open spec fn spec_parse(s: Seq<char>) -> Option<RetentionScope> {
        if s == "tenant"@ {
            Some(RetentionScope::Tenant)
        } else if s == "user"@ {
            Some(RetentionScope::User)
        } else if s == "file"@ {
            Some(RetentionScope::File)
        } else {
            None
        }
    }

    /// Parse from the wire/DB spelling; `None` for anything else.
    pub fn parse(s: &str) -> (r: Option<RetentionScope>)
        ensures
            r == RetentionScope::spec_parse(s@),
    {
        if str_eq(s, "tenant") {
            Some(RetentionScope::Tenant)
        } else if str_eq(s, "user") {
            Some(RetentionScope::User)
        } else if str_eq(s, "file") {
            Some(RetentionScope::File)
        } else {
            None
        }
    }
}

/// A scope's spelling parses back to the scope, and every spelling that
/// parses is the spelling of what it parses to.
pub proof fn law_policy_scope_round_trip(k: PolicyScope, s: Seq<char>)
    ensures
        PolicyScope::spec_parse(k.spec_name()) == Some(k),
        PolicyScope::spec_parse(s) matches Some(j) ==> j.spec_name() == s,
{
    reveal_strlit("tenant");
    reveal_strlit("user");
    assert("tenant"@ != "user"@) by {
        assert("tenant"@.len() != "user"@.len());
    }
}

/// A retention scope's spelling parses back to the scope, and every
/// spelling that parses is the spelling of what it parses to.
pub proof fn law_retention_scope_round_trip(k: RetentionScope, s: Seq<char>)
    ensures
        RetentionScope::spec_parse(k.spec_name()) == Some(k),
        RetentionScope::spec_parse(s) matches Some(j) ==> j.spec_name() == s,
{
    reveal_strlit("tenant");
    reveal_strlit("user");
    reveal_strlit("file");
    assert("tenant"@ != "user"@) by {
        assert("tenant"@.len() != "user"@.len());
    }
    assert("tenant"@ != "file"@) by {
        assert("tenant"@.len() != "file"@.len());
    }
    assert("user"@ != "file"@) by {
        assert("user"@[0] != "file"@[0]);
    }
}

// ── policy body ─────────────────────────────────────────────────────────────

/// A size cap for the MIME types that one pattern admits.
#[derive(Debug, Clone, PartialEq, Eq)]
pub struct MimeSizeOverride {
    /// Pattern such as `"video/*"` or `"image/jpeg"`.
    pub mime: String,
    /// Maximum file size in bytes for this pattern.
    pub max_bytes: u64,
}

impl View for MimeSizeOverride {
    type V = (Seq<char>, u64);

    open spec fn view(&self) -> (Seq<char>, u64) {
        (self.mime@, self.max_bytes)
    }
}

impl MimeSizeOverride {
    /// A fresh override with the same pattern and cap.
    pub fn duplicate(&self) -> (r: MimeSizeOverride)
        ensures
            r@ == self@,
    {
        MimeSizeOverride { mime: self.mime.clone(), max_bytes: self.max_bytes }
    }
}

impl Default for MimeSizeOverride {
    fn default() -> (r: MimeSizeOverride)
        ensures
            r@ == (Seq::<char>::empty(), 0u64),
    {
        MimeSizeOverride { mime: String::new(), max_bytes: 0 }
    }
}

/// The abstract contents of a list of overrides.
pub open spec fn overrides_view(s: Seq<MimeSizeOverride>) -> Seq<(Seq<char>, u64)> {
    Seq::new(s.len(), |i: int| s[i]@)
}

/// Size limits: a global cap and per-pattern overrides.
#[derive(Debug, Clone, PartialEq, Eq)]
pub struct SizeLimits {
    /// Global maximum file size in bytes (`None` = unlimited at this level).
    pub max_bytes: Option<u64>,
    /// Per-pattern overrides.
    pub per_mime: Vec<MimeSizeOverride>,
}

impl Default for SizeLimits {
    fn default() -> (r: SizeLimits)
        ensures
            (r.max_bytes is None),
            r.per_mime@.len() == 0,
    {
        SizeLimits { max_bytes: None, per_mime: Vec::new() }
    }
}

/// Metadata limits; `None` in a field means unlimited at this level.
#[derive(Debug, Clone, Copy, PartialEq, Eq, Structural)]
pub struct MetadataLimits {
    /// Maximum number of key-value pairs.
    pub max_pairs: Option<u32>,
    /// Maximum length of a single key in bytes.
    pub max_key_len: Option<u32>,
    /// Maximum length of a single value in bytes.
    pub max_value_len: Option<u32>,
    /// Maximum total byte size of all keys and values.
    pub max_total_bytes: Option<u32>,
}

impl Default for MetadataLimits {
    fn default() -> (r: MetadataLimits)
        ensures
            r == (MetadataLimits {
                max_pairs: None,
                max_key_len: None,
                max_value_len: None,
                max_total_bytes: None,
            }),
    {
        MetadataLimits { max_pairs: None, max_key_len: None, max_value_len: None, max_total_bytes: None }
    }
}

/// The policy stored for one scope (tenant or user).
#[derive(Debug, Clone, PartialEq, Eq)]
pub struct PolicyBody {
    /// Allowed MIME patterns; an empty list means every type is allowed.
    pub allowed_mime_types: Vec<String>,
    /// Global and per-pattern size limits.
    pub size_limits: SizeLimits,
    /// Metadata limits.
    pub metadata_limits: MetadataLimits,
    /// Enabled event types; an empty list means none at this level.
    pub enabled_event_types: Vec<String>,
}

impl Default for PolicyBody {
    fn default() -> (r: PolicyBody)
        ensures
            r.allowed_mime_types@.len() == 0,
            (r.size_limits.max_bytes is None),
            r.size_limits.per_mime@.len() == 0,
            r.metadata_limits == (MetadataLimits {
                max_pairs: None,
                max_key_len: None,
                max_value_len: None,
                max_total_bytes: None,
            }),
            r.enabled_event_types@.len() == 0,
    {
        PolicyBody {
            allowed_mime_types: Vec::new(),
            size_limits: SizeLimits::default(),
            metadata_limits: MetadataLimits::default(),
            enabled_event_types: Vec::new(),
        }
    }
}

// ── retention rule body ─────────────────────────────────────────────────────

/// Expire files created more than `max_age_days` ago.
#[derive(Debug, Clone, Copy, PartialEq, Eq, Structural)]
pub struct AgeRetention {
    pub max_age_days: u32,
}

impl Default for AgeRetention {
    fn default() -> (r: AgeRetention)
        ensures
            r.max_age_days == 0,
    {
        AgeRetention { max_age_days: 0 }
    }
}

/// Expire files not accessed for `inactivity_days`.
#[derive(Debug, Clone, Copy, PartialEq, Eq, Structural)]
pub struct InactivityRetention {
    pub inactivity_days: u32,
}

impl Default for InactivityRetention {
    fn default() -> (r: InactivityRetention)
        ensures
            r.inactivity_days == 0,
    {
        InactivityRetention { inactivity_days: 0 }
    }
}

/// Expire files whose metadata `key` holds `value`.
#[derive(Debug, Clone, PartialEq, Eq)]
pub struct MetadataRetention {
    pub key: String,
    pub value: String,
}

impl Default for MetadataRetention {
    fn default() -> (r: MetadataRetention)
        ensures
            r.key@.len() == 0,
            r.value@.len() == 0,
    {
        MetadataRetention { key: String::new(), value: String::new() }
    }
}

/// A retention rule: any criterion that matches expires the file.
#[derive(Debug, Clone, PartialEq, Eq)]
pub struct RetentionRuleBody {
    pub age: Option<AgeRetention>,
    pub inactivity: Option<InactivityRetention>,
    pub metadata: Option<MetadataRetention>,
}

impl Default for RetentionRuleBody {
    fn default() -> (r: RetentionRuleBody)
        ensures
            (r.age is None),
            (r.inactivity is None),
            (r.metadata is None),
    {
        RetentionRuleBody { age: None, inactivity: None, metadata: None }
    }
}

/// A stored policy row.
#[derive(Debug, Clone, PartialEq, Eq)]
pub struct StoredPolicy {
    pub policy_id: u128,
    pub tenant_id: u128,
    pub scope: PolicyScope,
    /// `None` for the tenant scope; the user's owner id for the user scope.
    pub scope_owner_id: Option<u128>,
    pub body: PolicyBody,
}

/// A stored retention rule row.
#[derive(Debug, Clone, PartialEq, Eq)]
pub struct StoredRetentionRule {
    pub rule_id: u128,
    pub tenant_id: u128,
    pub scope: RetentionScope,
    /// `None` for the tenant scope; the user or file id otherwise.
    pub scope_target_id: Option<u128>,
    pub body: RetentionRuleBody,
}

// ── effective policy ────────────────────────────────────────────────────────

/// The resolved policy for one request context.
#[derive(Debug, Clone, PartialEq, Eq)]
pub struct EffectivePolicy {
    /// `None`: every type allowed; `Some(list)`: only what the list admits
    /// (an empty list admits nothing).
    pub allowed_mime_types: Option<Vec<String>>,
    /// Most restrictive global size limit; `None` = unlimited.
    pub max_bytes: Option<u64>,
    /// Per-pattern caps, most restrictive per pattern.
    pub per_mime_max_bytes: Vec<MimeSizeOverride>,
    /// Most restrictive metadata limits, field by field.
    pub metadata_limits: MetadataLimits,
}

// ── abstract contents ───────────────────────────────────────────────────────

impl View for SizeLimits {
    type V = (Option<u64>, Seq<(Seq<char>, u64)>);

    open spec fn view(&self) -> (Option<u64>, Seq<(Seq<char>, u64)>) {
        (self.max_bytes, overrides_view(self.per_mime@))
    }
}

/// What a policy body says, field by field.
pub struct PolicyBodyView {
    pub allowed_mime_types: Seq<Seq<char>>,
    pub max_bytes: Option<u64>,
    pub per_mime: Seq<(Seq<char>, u64)>,
    pub metadata_limits: MetadataLimits,
    pub enabled_event_types: Seq<Seq<char>>,
}

impl View for PolicyBody {
    type V = PolicyBodyView;

    open spec fn view(&self) -> PolicyBodyView {
        PolicyBodyView {
            allowed_mime_types: self.allowed_mime_types.deep_view(),
            max_bytes: self.size_limits.max_bytes,
            per_mime: overrides_view(self.size_limits.per_mime@),
            metadata_limits: self.metadata_limits,
            enabled_event_types: self.enabled_event_types.deep_view(),
        }
    }
}

impl View for MetadataRetention {
    type V = (Seq<char>, Seq<char>);

    open spec fn view(&self) -> (Seq<char>, Seq<char>) {
        (self.key@, self.value@)
    }
}

/// What a retention rule says: the age limit in days, the inactivity limit
/// in days, and the metadata key/value criterion, each when present.
pub struct RetentionRuleView {
    pub max_age_days: Option<u32>,
    pub inactivity_days: Option<u32>,
    pub metadata: Option<(Seq<char>, Seq<char>)>,
}

impl View for RetentionRuleBody {
    type V = RetentionRuleView;

    open spec fn view(&self) -> RetentionRuleView {
        RetentionRuleView {
            max_age_days: match self.age {
                Some(a) => Some(a.max_age_days),
                None => None,
            },
            inactivity_days: match self.inactivity {
                Some(a) => Some(a.inactivity_days),
                None => None,
            },
            metadata: match self.metadata {
                Some(m) => Some(m@),
                None => None,
            },
        }
    }
}

/// What an effective policy says, field by field.
pub struct EffectivePolicyView {
    pub allowed_mime_types: Option<Seq<Seq<char>>>,
    pub max_bytes: Option<u64>,
    pub per_mime_max_bytes: Seq<(Seq<char>, u64)>,
    pub metadata_limits: MetadataLimits,
}

impl View for EffectivePolicy {
    type V = EffectivePolicyView;

    open spec fn view(&self) -> EffectivePolicyView {
        EffectivePolicyView {
            allowed_mime_types: opt_strings(self.allowed_mime_types),
            max_bytes: self.max_bytes,
            per_mime_max_bytes: overrides_view(self.per_mime_max_bytes@),
            metadata_limits: self.metadata_limits,
        }
    }
}

// ── specification of the resolution ─────────────────────────────────────────

/// The smaller of two optional limits, where `None` means unlimited.
pub open spec fn min_limit(a: Option<u64>, b: Option<u64>) -> Option<u64> {
    match (a, b) {
        (None, None) => None,
        (Some(v), None) => Some(v),
        (None, Some(v)) => Some(v),
        (Some(x), Some(y)) => Some(if x <= y { x } else { y }),
    }
}

/// The smaller of two optional 32-bit limits, where `None` means unlimited.
pub open spec fn min_limit_u32(a: Option<u32>, b: Option<u32>) -> Option<u32> {
    match (a, b) {
        (None, None) => None,
        (Some(v), None) => Some(v),
        (None, Some(v)) => Some(v),
        (Some(x), Some(y)) => Some(if x <= y { x } else { y }),
    }
}

/// `acc` with `x` appended unless it already holds it.
pub open spec fn add_unique(acc: Seq<Seq<char>>, x: Seq<char>) -> Seq<Seq<char>> {
    if acc.contains(x) {
        acc
    } else {
        acc.push(x)
    }
}

/// Adds to `acc` the narrower of `a` and each pattern of `us` that overlaps it.
pub open spec fn intersect_row(acc: Seq<Seq<char>>, a: Seq<char>, us: Seq<Seq<char>>) -> Seq<
    Seq<char>,
>
    decreases us.len(),
{
    if us.len() == 0 {
        acc
    } else {
        let r = intersect_row(acc, a, us.drop_last());
        let b = us.last();
        if mimes_overlap(a, b) {
            add_unique(r, narrower(a, b))
        } else {
            r
        }
    }
}

/// Intersection of two allow-lists: for every overlapping pair, in tenant
/// order then user order, the narrower pattern, each kept once.
pub open spec fn intersect_all(ts: Seq<Seq<char>>, us: Seq<Seq<char>>) -> Seq<Seq<char>>
    decreases ts.len(),
{
    if ts.len() == 0 {
        Seq::empty()
    } else {
        intersect_row(intersect_all(ts.drop_last(), us), ts.last(), us)
    }
}

/// A level restricts MIME types only when it has a non-empty allow-list.
pub open spec fn restricted(o: Option<Seq<Seq<char>>>) -> bool {
    o is Some && o->0.len() > 0
}

/// Combination of the two levels' allow-lists.
pub open spec fn merged_mimes(t: Option<Seq<Seq<char>>>, u: Option<Seq<Seq<char>>>) -> Option<
    Seq<Seq<char>>,
> {
    if !restricted(t) && !restricted(u) {
        None
    } else if restricted(t) && !restricted(u) {
        Some(t->0)
    } else if !restricted(t) && restricted(u) {
        Some(u->0)
    } else {
        Some(intersect_all(t->0, u->0))
    }
}

/// Whether a level admits MIME type `m`: an unrestricted level admits all.
pub open spec fn level_allows(o: Option<Seq<Seq<char>>>, m: Seq<char>) -> bool {
    !restricted(o) || list_allows(o->0, m)
}

/// Whether an effective allow-list admits `m`: `None` admits all.
pub open spec fn effective_allows(o: Option<Seq<Seq<char>>>, m: Seq<char>) -> bool {
    match o {
        None => true,
        Some(l) => list_allows(l, m),
    }
}

/// The allow-list of an optional policy body.
pub open spec fn body_mimes(p: Option<&PolicyBody>) -> Option<Seq<Seq<char>>> {
    match p {
        Some(b) => Some(b.allowed_mime_types.deep_view()),
        None => None,
    }
}

/// The global size limit of an optional policy body.
pub open spec fn body_max(p: Option<&PolicyBody>) -> Option<u64> {
    match p {
        Some(b) => b.size_limits.max_bytes,
        None => None,
    }
}

/// The per-pattern overrides of an optional policy body.
pub open spec fn body_overrides(p: Option<&PolicyBody>) -> Seq<(Seq<char>, u64)> {
    match p {
        Some(b) => overrides_view(b.size_limits.per_mime@),
        None => Seq::empty(),
    }
}

/// The metadata limits of an optional policy body.
pub open spec fn body_meta(p: Option<&PolicyBody>) -> Option<MetadataLimits> {
    match p {
        Some(b) => Some(b.metadata_limits),
        None => None,
    }
}

/// Field-by-field most restrictive metadata limits.
pub open spec fn merged_meta(t: Option<MetadataLimits>, u: Option<MetadataLimits>) -> MetadataLimits {
    MetadataLimits {
        max_pairs: min_limit_u32(
            match t { Some(m) => m.max_pairs, None => None },
            match u { Some(m) => m.max_pairs, None => None },
        ),
        max_key_len: min_limit_u32(
            match t { Some(m) => m.max_key_len, None => None },
            match u { Some(m) => m.max_key_len, None => None },
        ),
        max_value_len: min_limit_u32(
            match t { Some(m) => m.max_value_len, None => None },
            match u { Some(m) => m.max_value_len, None => None },
        ),
        max_total_bytes: min_limit_u32(
            match t { Some(m) => m.max_total_bytes, None => None },
            match u { Some(m) => m.max_total_bytes, None => None },
        ),
    }
}

/// First index of an override with pattern `m`, or `-1`.
pub open spec fn find_mime(r: Seq<(Seq<char>, u64)>, m: Seq<char>) -> int
    decreases r.len(),
{
    if r.len() == 0 {
        -1
    } else {
        let k = find_mime(r.drop_last(), m);
        if k >= 0 {
            k
        } else if r.last().0 == m {
            r.len() - 1
        } else {
            -1
        }
    }
}

/// Tenant overrides, then each user override: a pattern already present keeps
/// the smaller cap, a new pattern is appended.
pub open spec fn union_min(ts: Seq<(Seq<char>, u64)>, us: Seq<(Seq<char>, u64)>) -> Seq<
    (Seq<char>, u64),
>
    decreases us.len(),
{
    if us.len() == 0 {
        ts
    } else {
        let r = union_min(ts, us.drop_last());
        let u = us.last();
        let k = find_mime(r, u.0);
        if k >= 0 {
            r.update(k, (r[k].0, if r[k].1 <= u.1 { r[k].1 } else { u.1 }))
        } else {
            r.push(u)
        }
    }
}

/// `w` is a `type/*` wildcard over the type of the specific pattern `m`.
pub open spec fn covers(w: Seq<char>, m: Seq<char>) -> bool {
    is_wildcard(w) && !is_wildcard(m) && mime_base(w) == mime_base(m)
}

/// The smallest cap among the entries of `r` that cover pattern `m`.
pub open spec fn wildcard_cap(r: Seq<(Seq<char>, u64)>, m: Seq<char>) -> Option<u64>
    decreases r.len(),
{
    if r.len() == 0 {
        None
    } else {
        let c = wildcard_cap(r.drop_last(), m);
        if covers(r.last().0, m) {
            min_limit(c, Some(r.last().1))
        } else {
            c
        }
    }
}

/// Every specific entry capped by the wildcards that cover it.
pub open spec fn tighten(r: Seq<(Seq<char>, u64)>) -> Seq<(Seq<char>, u64)> {
    Seq::new(r.len(), |i: int| (r[i].0, min_limit(Some(r[i].1), wildcard_cap(r, r[i].0))->0))
}

/// The merged per-pattern overrides.
pub open spec fn merged_per_mime(ts: Seq<(Seq<char>, u64)>, us: Seq<(Seq<char>, u64)>) -> Seq<
    (Seq<char>, u64),
> {
    tighten(union_min(ts, us))
}

// ── helpers on vectors of strings ───────────────────────────────────────────

/// A fresh copy of a list of strings.
pub fn copy_strings(v: &Vec<String>) -> (r: Vec<String>)
    ensures
        r.deep_view() == v.deep_view(),
{
    let mut r: Vec<String> = Vec::new();
    let mut i: usize = 0;
    while i < v.len()
        invariant
            i <= v.len(),
            r.deep_view() == v.deep_view().take(i as int),
        decreases v.len() - i,
    {
        let s = v[i].clone();
        let ghost before = r.deep_view();
        r.push(s);
        assert(r.deep_view() =~= before.push(v[i as int]@));
        assert(r.deep_view() =~= v.deep_view().take(i + 1));
        i = i + 1;
    }
    assert(v.deep_view().take(v.len() as int) =~= v.deep_view());
    r
}

/// Whether `v` holds a string equal to `x`.
pub fn contains_string(v: &Vec<String>, x: &str) -> (r: bool)
    ensures
        r == v.deep_view().contains(x@),
{
    let mut i: usize = 0;
    while i < v.len()
        invariant
            i <= v.len(),
            forall|j: int| 0 <= j < i ==> v.deep_view()[j] != x@,
        decreases v.len() - i,
    {
        if str_eq(v[i].as_str(), x) {
            assert(v.deep_view()[i as int] == x@);
            return true;
        }
        i = i + 1;
    }
    false
}


/// The abstract contents of an optional list of strings.
pub open spec fn opt_strings(o: Option<Vec<String>>) -> Option<Seq<Seq<char>>> {
    match o {
        Some(v) => Some(v.deep_view()),
        None => None,
    }
}

/// The abstract contents of an optional borrowed list of strings.
pub open spec fn opt_strings_ref(o: Option<&Vec<String>>) -> Option<Seq<Seq<char>>> {
    match o {
        Some(v) => Some(v.deep_view()),
        None => None,
    }
}

/// Characterisation of `find_mime`: the first index holding the pattern.
pub proof fn lemma_find_mime(r: Seq<(Seq<char>, u64)>, m: Seq<char>)
    ensures
        -1 <= find_mime(r, m) < r.len(),
        find_mime(r, m) == -1 ==> forall|j: int| 0 <= j < r.len() ==> (#[trigger] r[j]).0 != m,
        find_mime(r, m) >= 0 ==> r[find_mime(r, m)].0 == m && forall|j: int|
            0 <= j < find_mime(r, m) ==> (#[trigger] r[j]).0 != m,
    decreases r.len(),
{
    if r.len() > 0 {
        lemma_find_mime(r.drop_last(), m);
        assert forall|j: int| 0 <= j < r.len() - 1 implies r[j] == r.drop_last()[j] by {}
    }
}

/// The narrower of two overlapping patterns.
fn narrower_pattern<'a>(a: &'a String, b: &'a String) -> (r: &'a String)
    ensures
        r@ == narrower(a@, b@),
{
    if str_eq(a.as_str(), b.as_str()) {
        a
    } else if is_wildcard_pattern(a.as_str()) && same_base(a.as_str(), b.as_str()) {
        b
    } else {
        a
    }
}

/// Intersection of two non-empty allow-lists (see `intersect_all`).
fn intersect_mimes(t: &Vec<String>, u: &Vec<String>) -> (r: Vec<String>)
    ensures
        r.deep_view() == intersect_all(t.deep_view(), u.deep_view()),
{
    let ghost ts = t.deep_view();
    let ghost us = u.deep_view();
    let mut r: Vec<String> = Vec::new();
    let mut i: usize = 0;
    assert(ts.take(0) =~= Seq::<Seq<char>>::empty());
    while i < t.len()
        invariant
            i <= t.len(),
            ts == t.deep_view(),
            us == u.deep_view(),
            r.deep_view() == intersect_all(ts.take(i as int), us),
        decreases t.len() - i,
    {
        let ghost start = r.deep_view();
        let mut j: usize = 0;
        assert(us.take(0) =~= Seq::<Seq<char>>::empty());
        while j < u.len()
            invariant
                i < t.len(),
                j <= u.len(),
                ts == t.deep_view(),
                us == u.deep_view(),
                start == intersect_all(ts.take(i as int), us),
                r.deep_view() == intersect_row(start, ts[i as int], us.take(j as int)),
            decreases u.len() - j,
        {
            assert(us.take(j + 1).drop_last() =~= us.take(j as int));
            assert(us.take(j + 1).last() == us[j as int]);
            if crate::mime::mime_matches(t[i].as_str(), u[j].as_str()) {
                let x = narrower_pattern(&t[i], &u[j]);
                if !contains_string(&r, x.as_str()) {
                    let ghost before = r.deep_view();
                    r.push(x.clone());
                    assert(r.deep_view() =~= before.push(x@));
                }
            }
            j = j + 1;
        }
        assert(us.take(u.len() as int) =~= us);
        assert(ts.take(i + 1).drop_last() =~= ts.take(i as int));
        assert(ts.take(i + 1).last() == ts[i as int]);
        i = i + 1;
    }
    assert(ts.take(t.len() as int) =~= ts);
    r
}

/// First index of an override with pattern `m`.
fn find_override(r: &Vec<MimeSizeOverride>, m: &str) -> (k: Option<usize>)
    ensures
        match k {
            Some(k) => k as int == find_mime(overrides_view(r@), m@) && k < r@.len(),
            None => find_mime(overrides_view(r@), m@) == -1,
        },
{
    let ghost rv = overrides_view(r@);
    let mut i: usize = 0;
    while i < r.len()
        invariant
            i <= r.len(),
            rv == overrides_view(r@),
            forall|j: int| 0 <= j < i ==> (#[trigger] rv[j]).0 != m@,
        decreases r.len() - i,
    {
        if str_eq(r[i].mime.as_str(), m) {
            proof {
                lemma_find_mime(rv, m@);
                let f = find_mime(rv, m@);
                if f != i {
                    if f == -1 {
                        assert(rv[i as int].0 != m@);
                    } else if f < i {
                        assert(rv[f].0 != m@);
                    } else {
                        assert(rv[i as int].0 != m@);
                    }
                }
            }
            return Some(i);
        }
        i = i + 1;
    }
    proof {
        lemma_find_mime(rv, m@);
        let f = find_mime(rv, m@);
        if f >= 0 {
            assert(rv[f].0 != m@);
        }
    }
    None
}

/// `w` covers the specific pattern `m`.
fn covers_pattern(w: &str, m: &str) -> (r: bool)
    ensures
        r == covers(w@, m@),
{
    is_wildcard_pattern(w) && !is_wildcard_pattern(m) && same_base(w, m)
}

/// Stateless resolver of effective policies.
pub struct PolicyResolver;

impl PolicyResolver {
    /// Compute the effective policy from an optional tenant-level and an
    /// optional user-level policy body; a missing level restricts nothing.
    pub fn resolve(tenant_policy: Option<&PolicyBody>, user_policy: Option<&PolicyBody>) -> (r:
        EffectivePolicy)
        ensures
            opt_strings(r.allowed_mime_types) == merged_mimes(
                body_mimes(tenant_policy),
                body_mimes(user_policy),
            ),
            r.max_bytes == min_limit(body_max(tenant_policy), body_max(user_policy)),
            overrides_view(r.per_mime_max_bytes@) == merged_per_mime(
                body_overrides(tenant_policy),
                body_overrides(user_policy),
            ),
            r.metadata_limits == merged_meta(body_meta(tenant_policy), body_meta(user_policy)),
    {
        let t_mimes = match tenant_policy {
            Some(p) => Some(&p.allowed_mime_types),
            None => None,
        };
        let u_mimes = match user_policy {
            Some(p) => Some(&p.allowed_mime_types),
            None => None,
        };
        let allowed_mime_types = Self::merge_allowed_mimes(t_mimes, u_mimes);

        let tenant_max = match tenant_policy {
            Some(p) => p.size_limits.max_bytes,
            None => None,
        };
        let user_max = match user_policy {
            Some(p) => p.size_limits.max_bytes,
            None => None,
        };
        let max_bytes = Self::min_option(tenant_max, user_max);

        let empty: Vec<MimeSizeOverride> = Vec::new();
        assert(overrides_view(empty@) =~= Seq::<(Seq<char>, u64)>::empty());
        let t_per_mime = match tenant_policy {
            Some(p) => &p.size_limits.per_mime,
            None => &empty,
        };
        let u_per_mime = match user_policy {
            Some(p) => &p.size_limits.per_mime,
            None => &empty,
        };
        let per_mime_max_bytes = Self::merge_per_mime(t_per_mime, u_per_mime);

        let t_meta = match tenant_policy {
            Some(p) => Some(&p.metadata_limits),
            None => None,
        };
        let u_meta = match user_policy {
            Some(p) => Some(&p.metadata_limits),
            None => None,
        };
        let metadata_limits = Self::merge_metadata_limits(t_meta, u_meta);

        EffectivePolicy { allowed_mime_types, max_bytes, per_mime_max_bytes, metadata_limits }
    }

    /// Combination of two levels' allow-lists: an empty or missing list
    /// restricts nothing; two restricting lists give their intersection.
    pub fn merge_allowed_mimes(tenant: Option<&Vec<String>>, user: Option<&Vec<String>>) -> (r:
        Option<Vec<String>>)
        ensures
            opt_strings(r) == merged_mimes(opt_strings_ref(tenant), opt_strings_ref(user)),
    {
        let t_restricted = match tenant {
            Some(v) => v.len() > 0,
            None => false,
        };
        let u_restricted = match user {
            Some(v) => v.len() > 0,
            None => false,
        };
        if !t_restricted && !u_restricted {
            None
        } else if t_restricted && !u_restricted {
            Some(copy_strings(tenant.unwrap()))
        } else if !t_restricted && u_restricted {
            Some(copy_strings(user.unwrap()))
        } else {
            Some(intersect_mimes(tenant.unwrap(), user.unwrap()))
        }
    }

    /// Whether two MIME patterns admit a common type.
    pub fn mime_matches(a: &str, b: &str) -> (r: bool)
        ensures
            r == mimes_overlap(a@, b@),
    {
        crate::mime::mime_matches(a, b)
    }

    /// Split a MIME string into its type and, when it has a `/`, its subtype.
    pub fn split_mime(mime: &str) -> (r: (&str, Option<&str>))
        ensures
            r.0@ == mime_base(mime@),
            match r.1 {
                Some(sub) => crate::mime::mime_sub(mime@) == Some(sub@),
                None => crate::mime::mime_sub(mime@) is None,
            },
    {
        crate::mime::split_mime(mime)
    }

    /// Whether an allow-list admits `mime`: an exact entry, or a `type/*`
    /// entry over the same type. A pattern without `/` is never a wildcard.
    pub fn mime_allowed(mime: &str, allowed: &[String]) -> (r: bool)
        ensures
            r == list_allows(Seq::new(allowed@.len(), |i: int| allowed@[i]@), mime@),
    {
        let ghost l = Seq::new(allowed@.len(), |i: int| allowed@[i]@);
        let mut i: usize = 0;
        while i < allowed.len()
            invariant
                i <= allowed@.len(),
                l == Seq::new(allowed@.len(), |i: int| allowed@[i]@),
                forall|j: int| 0 <= j < i ==> !pattern_allows(#[trigger] l[j], mime@),
            decreases allowed@.len() - i,
        {
            if pattern_admits(allowed[i].as_str(), mime) {
                assert(pattern_allows(l[i as int], mime@));
                return true;
            }
            i = i + 1;
        }
        false
    }

    /// The smaller of two optional limits (`None` = unlimited).
    pub fn min_option(a: Option<u64>, b: Option<u64>) -> (r: Option<u64>)
        ensures
            r == min_limit(a, b),
    {
        match (a, b) {
            (None, None) => None,
            (Some(v), None) => Some(v),
            (None, Some(v)) => Some(v),
            (Some(x), Some(y)) => Some(if x <= y { x } else { y }),
        }
    }

    /// The smaller of two optional 32-bit limits (`None` = unlimited).
    pub fn min_option_u32(a: Option<u32>, b: Option<u32>) -> (r: Option<u32>)
        ensures
            r == min_limit_u32(a, b),
    {
        match (a, b) {
            (None, None) => None,
            (Some(v), None) => Some(v),
            (None, Some(v)) => Some(v),
            (Some(x), Some(y)) => Some(if x <= y { x } else { y }),
        }
    }

    /// Merge per-pattern overrides: union of patterns with the smaller cap per
    /// pattern, then every specific pattern capped by the wildcards covering it.
    pub fn merge_per_mime(tenant: &Vec<MimeSizeOverride>, user: &Vec<MimeSizeOverride>) -> (r: Vec<
        MimeSizeOverride,
    >)
        ensures
            overrides_view(r@) == merged_per_mime(overrides_view(tenant@), overrides_view(user@)),
    {
        let ghost tv = overrides_view(tenant@);
        let ghost uv = overrides_view(user@);
        let mut res: Vec<MimeSizeOverride> = Vec::new();
        let mut i: usize = 0;
        while i < tenant.len()
            invariant
                i <= tenant.len(),
                tv == overrides_view(tenant@),
                overrides_view(res@) == tv.take(i as int),
            decreases tenant.len() - i,
        {
            let e = tenant[i].duplicate();
            let ghost before = overrides_view(res@);
            res.push(e);
            assert(overrides_view(res@) =~= before.push(tv[i as int]));
            assert(overrides_view(res@) =~= tv.take(i + 1));
            i = i + 1;
        }
        assert(tv.take(tenant.len() as int) =~= tv);
        assert(uv.take(0) =~= Seq::<(Seq<char>, u64)>::empty());
        let mut j: usize = 0;
        while j < user.len()
            invariant
                j <= user.len(),
                tv == overrides_view(tenant@),
                uv == overrides_view(user@),
                overrides_view(res@) == union_min(tv, uv.take(j as int)),
            decreases user.len() - j,
        {
            assert(uv.take(j + 1).drop_last() =~= uv.take(j as int));
            assert(uv.take(j + 1).last() == uv[j as int]);
            let ghost before = overrides_view(res@);
            match find_override(&res, user[j].mime.as_str()) {
                Some(k) => {
                    let cur = res[k].max_bytes;
                    if user[j].max_bytes < cur {
                        let m = res[k].mime.clone();
                        res.set(k, MimeSizeOverride { mime: m, max_bytes: user[j].max_bytes });
                    }
                    assert(overrides_view(res@) =~= before.update(
                        k as int,
                        (before[k as int].0, if before[k as int].1 <= uv[j as int].1 {
                            before[k as int].1
                        } else {
                            uv[j as int].1
                        }),
                    ));
                },
                None => {
                    let e = user[j].duplicate();
                    res.push(e);
                    assert(overrides_view(res@) =~= before.push(uv[j as int]));
                },
            }
            j = j + 1;
        }
        assert(uv.take(user.len() as int) =~= uv);
        let ghost un = overrides_view(res@);
        let mut out: Vec<MimeSizeOverride> = Vec::new();
        let mut a: usize = 0;
        while a < res.len()
            invariant
                a <= res.len(),
                un == overrides_view(res@),
                overrides_view(out@) == tighten(un).take(a as int),
            decreases res.len() - a,
        {
            let mut cap: Option<u64> = None;
            let mut b: usize = 0;
            assert(un.take(0) =~= Seq::<(Seq<char>, u64)>::empty());
            while b < res.len()
                invariant
                    a < res.len(),
                    b <= res.len(),
                    un == overrides_view(res@),
                    cap == wildcard_cap(un.take(b as int), un[a as int].0),
                decreases res.len() - b,
            {
                assert(un.take(b + 1).drop_last() =~= un.take(b as int));
                assert(un.take(b + 1).last() == un[b as int]);
                if covers_pattern(res[b].mime.as_str(), res[a].mime.as_str()) {
                    cap = Self::min_option(cap, Some(res[b].max_bytes));
                }
                b = b + 1;
            }
            assert(un.take(res.len() as int) =~= un);
            let own = res[a].max_bytes;
            let v = match cap {
                Some(c) => if c < own { c } else { own },
                None => own,
            };
            let m = res[a].mime.clone();
            let ghost before = overrides_view(out@);
            out.push(MimeSizeOverride { mime: m, max_bytes: v });
            assert(tighten(un)[a as int] == (un[a as int].0, v));
            assert(overrides_view(out@) =~= before.push(tighten(un)[a as int]));
            assert(overrides_view(out@) =~= tighten(un).take(a + 1));
            a = a + 1;
        }
        assert(tighten(un).take(res.len() as int) =~= tighten(un));
        out
    }

    /// Field-by-field most restrictive metadata limits.
    pub fn merge_metadata_limits(tenant: Option<&MetadataLimits>, user: Option<&MetadataLimits>) -> (r:
        MetadataLimits)
        ensures
            r == merged_meta(
                match tenant { Some(m) => Some(*m), None => None },
                match user { Some(m) => Some(*m), None => None },
            ),
    {
        let tp = match tenant { Some(m) => m.max_pairs, None => None };
        let up = match user { Some(m) => m.max_pairs, None => None };
        let tk = match tenant { Some(m) => m.max_key_len, None => None };
        let uk = match user { Some(m) => m.max_key_len, None => None };
        let tvl = match tenant { Some(m) => m.max_value_len, None => None };
        let uvl = match user { Some(m) => m.max_value_len, None => None };
        let tt = match tenant { Some(m) => m.max_total_bytes, None => None };
        let ut = match user { Some(m) => m.max_total_bytes, None => None };
        MetadataLimits {
            max_pairs: Self::min_option_u32(tp, up),
            max_key_len: Self::min_option_u32(tk, uk),
            max_value_len: Self::min_option_u32(tvl, uvl),
            max_total_bytes: Self::min_option_u32(tt, ut),
        }
    }
}

} // verus!
