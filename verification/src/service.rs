//! Decisions of the control-plane file service: page sizes, which version a
//! download targets, conditional requests, and how a version is deleted.

use vstd::prelude::*;
use vstd::string::*;
use crate::config::FileStorageConfig;
use crate::error::DomainError;
use crate::models::{FileVersion, VersionStatus};
use crate::text::{str_eq, trim, trimmed, strip_back, strip_front, trim_char};

verus! {

/// A `u64` setting as an `i64`, saturating at `i64::MAX`.
pub open spec fn sat_i64(v: u64) -> i64 {
    if v <= i64::MAX as u64 {
        v as i64
    } else {
        i64::MAX
    }
}

pub fn saturating_i64(v: u64) -> (r: i64)
    ensures
        r == sat_i64(v),
{
    if v <= 9223372036854775807u64 {
        v as i64
    } else {
        i64::MAX
    }
}

/// The service settings derived from the gear configuration.
pub struct ServiceConfig {
    /// TTL (seconds) of every signed URL minted.
    pub default_url_ttl_secs: i64,
    /// Public base URL of the data-plane sidecar.
    pub sidecar_base_url: String,
    pub default_page_size: u64,
    pub max_page_size: u64,
    pub idempotency_ttl_secs: u64,
}

/// Derive the service settings from the configuration.
pub fn service_config(cfg: &FileStorageConfig) -> (r: ServiceConfig)
    ensures
        r.default_url_ttl_secs == sat_i64(cfg.default_url_ttl_secs),
        r.sidecar_base_url@ == cfg.sidecar_base_url@,
        r.default_page_size == cfg.default_page_size,
        r.max_page_size == cfg.max_page_size,
        r.idempotency_ttl_secs == cfg.idempotency_ttl_secs,
{
    ServiceConfig {
        default_url_ttl_secs: saturating_i64(cfg.default_url_ttl_secs),
        sidecar_base_url: cfg.sidecar_base_url.clone(),
        default_page_size: cfg.default_page_size,
        max_page_size: cfg.max_page_size,
        idempotency_ttl_secs: cfg.idempotency_ttl_secs,
    }
}

/// Page size of a listing: the requested size, or the default, capped at
/// the maximum.
pub fn page_limit(requested: Option<u64>, default_page_size: u64, max_page_size: u64) -> (r: u64)
    ensures
        r == (match requested {
            Some(n) => if n <= max_page_size {
                n
            } else {
                max_page_size
            },
            None => if default_page_size <= max_page_size {
                default_page_size
            } else {
                max_page_size
            },
        }),
        r <= max_page_size,
{
    let n = match requested {
        Some(n) => n,
        None => default_page_size,
    };
    if n <= max_page_size {
        n
    } else {
        max_page_size
    }
}

/// Listing another owner's files needs the policy-admin permission; a
/// caller listing its own files does not.
pub fn listing_needs_admin(owner_id: u128, subject_id: u128) -> (r: bool)
    ensures
        r == (owner_id != subject_id),
{
    owner_id != subject_id
}

/// The version a download URL is issued for: the requested one, else the
/// file's current content.
pub fn download_target(requested: Option<u128>, content_id: Option<u128>) -> (r: Result<
    u128,
    DomainError,
>)
    ensures
        match (requested, content_id) {
            (Some(v), _) => r == Ok::<u128, DomainError>(v),
            (None, Some(c)) => r == Ok::<u128, DomainError>(c),
            (None, None) => r matches Err(DomainError::Conflict { message }) && message@
                == "file has no bound content yet"@,
        },
{
    match requested {
        Some(v) => Ok(v),
        None => match content_id {
            Some(c) => Ok(c),
            None => Err(DomainError::conflict("file has no bound content yet")),
        },
    }
}

/// A download URL is only issued for a finalized version.
pub fn check_downloadable(status: VersionStatus) -> (r: Result<(), DomainError>)
    ensures
        status == VersionStatus::Available ==> r is Ok,
        status != VersionStatus::Available ==> (r matches Err(DomainError::Conflict { message })
            && message@
            == "cannot issue a download URL for a version whose upload has not been finalized"@),
{
    if status != VersionStatus::Available {
        return Err(
            DomainError::conflict(
                "cannot issue a download URL for a version whose upload has not been finalized",
            ),
        );
    }
    Ok(())
}

/// The `If-Match` precondition of a file delete: required; `*` matches any
/// content, otherwise the trimmed value must equal the current content ETag.
pub fn check_delete_precondition(if_match: Option<&str>, current_etag: Option<&str>) -> (r: Result<
    (),
    DomainError,
>)
    ensures
        match if_match {
            None => r matches Err(DomainError::PreconditionFailed { message }) && message@
                == "If-Match is required to delete a file"@,
            Some(m) => {
                let t = trimmed(m@);
                if t == "*"@ || (current_etag matches Some(e) && e@ == t) {
                    r is Ok
                } else {
                    r matches Err(DomainError::PreconditionFailed { message }) && message@
                        == "If-Match does not match the current content ETag"@
                }
            },
        },
{
    match if_match {
        None => Err(DomainError::precondition_failed("If-Match is required to delete a file")),
        Some(m) => {
            let t = trim(m);
            let matches_current = match current_etag {
                Some(e) => str_eq(e, t.as_str()),
                None => false,
            };
            if !str_eq(t.as_str(), "*") && !matches_current {
                return Err(
                    DomainError::precondition_failed(
                        "If-Match does not match the current content ETag",
                    ),
                );
            }
            Ok(())
        },
    }
}

/// Conditional `GET`: the response is `304 Not Modified` when the file has
/// an ETag and the trimmed `If-None-Match` is `*` or equals it.
pub fn not_modified(if_none_match: Option<&str>, etag: Option<&str>) -> (r: bool)
    ensures
        r == (if_none_match matches Some(inm) && etag matches Some(tag) && (trimmed(inm@) == "*"@
            || trimmed(inm@) == tag@)),
{
    match (if_none_match, etag) {
        (Some(inm), Some(tag)) => {
            let t = trim(inm);
            str_eq(t.as_str(), "*") || str_eq(t.as_str(), tag)
        },
        _ => false,
    }
}

/// How a version delete proceeds.
#[derive(Debug, Clone, Copy, PartialEq, Eq, Structural)]
pub enum VersionDeletion {
    /// The version is the file's only one: delete the whole file.
    WholeFile,
    /// Delete the version at this index of the listing.
    Single(usize),
}

/// Index of the first version with the given id, or `-1`.
pub open spec fn version_index(vs: Seq<FileVersion>, version_id: u128) -> int
    decreases vs.len(),
{
    if vs.len() == 0 {
        -1
    } else {
        let k = version_index(vs.drop_last(), version_id);
        if k >= 0 {
            k
        } else if vs.last().version_id == version_id {
            vs.len() - 1
        } else {
            -1
        }
    }
}

proof fn lemma_version_index(vs: Seq<FileVersion>, version_id: u128)
    ensures
        -1 <= version_index(vs, version_id) < vs.len(),
        version_index(vs, version_id) == -1 ==> forall|j: int|
            0 <= j < vs.len() ==> (#[trigger] vs[j]).version_id != version_id,
        version_index(vs, version_id) >= 0 ==> vs[version_index(vs, version_id)].version_id
            == version_id && forall|j: int|
            0 <= j < version_index(vs, version_id) ==> (#[trigger] vs[j]).version_id != version_id,
    decreases vs.len(),
{
    if vs.len() > 0 {
        lemma_version_index(vs.drop_last(), version_id);
        assert forall|j: int| 0 <= j < vs.len() - 1 implies vs[j] == vs.drop_last()[j] by {}
    }
}

/// Decide how to delete `version_id` given all the file's versions and its
/// current content: the only version takes the whole file with it; the
/// current version cannot be deleted while others exist.
pub fn plan_version_deletion(
    versions: &Vec<FileVersion>,
    file_id: u128,
    version_id: u128,
    content_id: Option<u128>,
) -> (r: Result<VersionDeletion, DomainError>)
    ensures
        version_index(versions@, version_id) == -1 ==> r == Err::<VersionDeletion, DomainError>(
            DomainError::VersionNotFound { file_id, version_id },
        ),
        version_index(versions@, version_id) >= 0 && versions@.len() <= 1 ==> r == Ok::<
            VersionDeletion,
            DomainError,
        >(VersionDeletion::WholeFile),
        version_index(versions@, version_id) >= 0 && versions@.len() > 1 && content_id == Some(
            version_id,
        ) ==> (r matches Err(DomainError::Conflict { message }) && message@
            == "cannot delete the current version; bind another version first"@),
        version_index(versions@, version_id) >= 0 && versions@.len() > 1 && content_id != Some(
            version_id,
        ) ==> r == Ok::<VersionDeletion, DomainError>(
            VersionDeletion::Single(version_index(versions@, version_id) as usize),
        ),
{
    let ghost vs = versions@;
    proof {
        lemma_version_index(vs, version_id);
    }
    let mut found: Option<usize> = None;
    let mut i: usize = 0;
    while i < versions.len()
        invariant
            i <= versions@.len(),
            vs == versions@,
            found is None ==> forall|j: int| 0 <= j < i ==> (#[trigger] vs[j]).version_id != version_id,
            found matches Some(k) ==> k == version_index(vs, version_id),
            -1 <= version_index(vs, version_id) < vs.len(),
            version_index(vs, version_id) == -1 ==> forall|j: int|
                0 <= j < vs.len() ==> (#[trigger] vs[j]).version_id != version_id,
            version_index(vs, version_id) >= 0 ==> vs[version_index(vs, version_id)].version_id
                == version_id && forall|j: int|
                0 <= j < version_index(vs, version_id) ==> (#[trigger] vs[j]).version_id
                    != version_id,
        decreases versions@.len() - i,
    {
        if found.is_none() && versions[i].version_id == version_id {
            proof {
                let f = version_index(vs, version_id);
                if f == -1 {
                    assert(vs[i as int].version_id != version_id);
                } else if f < i {
                    assert(vs[f].version_id != version_id);
                } else if f > i {
                    assert(vs[i as int].version_id != version_id);
                }
            }
            found = Some(i);
        }
        i = i + 1;
    }
    match found {
        None => {
            proof {
                let f = version_index(vs, version_id);
                if f >= 0 {
                    assert(vs[f].version_id != version_id);
                }
            }
            Err(DomainError::version_not_found(file_id, version_id))
        },
        Some(k) => {
            if versions.len() <= 1 {
                Ok(VersionDeletion::WholeFile)
            } else if content_id == Some(version_id) {
                Err(
                    DomainError::conflict(
                        "cannot delete the current version; bind another version first",
                    ),
                )
            } else {
                Ok(VersionDeletion::Single(k))
            }
        },
    }
}

/// The error reported when the transactional delete of a non-current
/// version removed nothing: a concurrent bind made it current, or it is gone.
pub fn version_delete_race_error(still_exists: bool, file_id: u128, version_id: u128) -> (r:
    DomainError)
    ensures
        still_exists ==> (r matches DomainError::Conflict { message } && message@
            == "cannot delete the current version; bind another version first"@),
        !still_exists ==> r == (DomainError::VersionNotFound { file_id, version_id }),
{
    if still_exists {
        DomainError::conflict("cannot delete the current version; bind another version first")
    } else {
        DomainError::version_not_found(file_id, version_id)
    }
}

/// Sum of the sizes of the versions.
pub open spec fn versions_size(vs: Seq<FileVersion>) -> int
    decreases vs.len(),
{
    if vs.len() == 0 {
        0
    } else {
        versions_size(vs.drop_last()) + vs.last().size
    }
}

/// Total bytes of all versions of a file (debited from usage on delete).
pub fn total_version_bytes(versions: &Vec<FileVersion>) -> (r: i64)
    requires
        forall|k: int|
            0 <= k <= versions@.len() ==> i64::MIN <= #[trigger] versions_size(versions@.take(k))
                <= i64::MAX,
    ensures
        r as int == versions_size(versions@),
{
    let mut total: i64 = 0;
    let mut i: usize = 0;
    assert(versions@.take(0) =~= Seq::<FileVersion>::empty());
    while i < versions.len()
        invariant
            i <= versions@.len(),
            total as int == versions_size(versions@.take(i as int)),
            forall|k: int|
                0 <= k <= versions@.len() ==> i64::MIN <= #[trigger] versions_size(
                    versions@.take(k),
                ) <= i64::MAX,
        decreases versions@.len() - i,
    {
        assert(versions@.take(i + 1).drop_last() =~= versions@.take(i as int));
        assert(versions_size(versions@.take(i + 1)) == versions_size(versions@.take(i as int))
            + versions@[i as int].size);
        total = total + versions[i].size;
        i = i + 1;
    }
    assert(versions@.take(versions@.len() as int) =~= versions@);
    total
}

/// A change of an owner's storage usage, reported after a write or delete.
pub struct UsageDelta {
    pub tenant_id: u128,
    pub owner_id: u128,
    pub bytes_delta: i64,
    pub file_count_delta: i64,
}

/// The usage debit of deleting a whole file: every version's bytes and the
/// file itself.
pub fn file_delete_usage(tenant_id: u128, owner_id: u128, versions: &Vec<FileVersion>) -> (r:
    UsageDelta)
    requires
        forall|k: int|
            0 <= k <= versions@.len() ==> i64::MIN <= #[trigger] versions_size(versions@.take(k))
                <= i64::MAX,
        versions_size(versions@) != i64::MIN,
    ensures
        r.tenant_id == tenant_id && r.owner_id == owner_id,
        r.bytes_delta == -versions_size(versions@),
        r.file_count_delta == -1,
{
    let total = total_version_bytes(versions);
    UsageDelta { tenant_id, owner_id, bytes_delta: -total, file_count_delta: -1 }
}

/// The usage debit of deleting one non-current version: its bytes; the
/// file stays.
pub fn version_delete_usage(tenant_id: u128, owner_id: u128, version: &FileVersion) -> (r:
    UsageDelta)
    requires
        version.size != i64::MIN,
    ensures
        r.tenant_id == tenant_id && r.owner_id == owner_id,
        r.bytes_delta == -version.size,
        r.file_count_delta == 0,
{
    UsageDelta { tenant_id, owner_id, bytes_delta: -version.size, file_count_delta: 0 }
}

/// The metadata version an `If-Match-Metadata` header names: the trimmed
/// value with surrounding double quotes removed, as a decimal integer.
pub open spec fn meta_version_of(header: Option<Seq<char>>) -> Option<i64> {
    match header {
        None => None,
        Some(h) => parsed_i64(strip_back(strip_front(trimmed(h), '"'), '"')),
    }
}

pub fn parse_meta_version(header: Option<&str>) -> (r: Option<i64>)
    ensures
        r == meta_version_of(match header {
            Some(h) => Some(h@),
            None => None,
        }),
{
    match header {
        None => None,
        Some(h) => {
            let t = trim(h);
            let unquoted = trim_char(t.as_str(), '"');
            parse_i64(unquoted.as_str())
        },
    }
}

// ── decimal integers ────────────────────────────────────────────────────────

/// Every character is an ASCII digit.
pub open spec fn all_digits(s: Seq<char>) -> bool {
    forall|i: int| 0 <= i < s.len() ==> '0' <= #[trigger] s[i] && s[i] <= '9'
}

/// Value of a string of decimal digits.
pub open spec fn digits_value(s: Seq<char>) -> int
    decreases s.len(),
{
    if s.len() == 0 {
        0
    } else {
        digits_value(s.drop_last()) * 10 + (s.last() as int - '0' as int)
    }
}

/// What `i64::from_str` gives: an optional `+` or `-` sign followed by at
/// least one digit, and nothing else, whose value fits in an `i64`.
pub open spec fn parsed_i64(s: Seq<char>) -> Option<i64> {
    let neg = s.len() > 0 && s[0] == '-';
    let body = if s.len() > 0 && (s[0] == '-' || s[0] == '+') {
        s.drop_first()
    } else {
        s
    };
    let v = if neg {
        -digits_value(body)
    } else {
        digits_value(body)
    };
    if body.len() > 0 && all_digits(body) && i64::MIN <= v <= i64::MAX {
        Some(v as i64)
    } else {
        None
    }
}

proof fn lemma_digits_value_nonneg(s: Seq<char>)
    requires
        all_digits(s),
    ensures
        digits_value(s) >= 0,
    decreases s.len(),
{
    if s.len() > 0 {
        let d = s.drop_last();
        assert forall|i: int| 0 <= i < d.len() implies '0' <= #[trigger] d[i] && d[i] <= '9' by {
            assert(d[i] == s[i]);
        }
        lemma_digits_value_nonneg(d);
        assert('0' <= s[s.len() - 1]);
    }
}

proof fn lemma_prefix_value_grows(s: Seq<char>, k: int)
    requires
        all_digits(s),
        0 <= k <= s.len(),
    ensures
        digits_value(s) >= digits_value(s.take(k)),
    decreases s.len(),
{
    if k < s.len() {
        let d = s.drop_last();
        assert forall|i: int| 0 <= i < d.len() implies '0' <= #[trigger] d[i] && d[i] <= '9' by {
            assert(d[i] == s[i]);
        }
        lemma_prefix_value_grows(d, k);
        lemma_digits_value_nonneg(d);
        assert(d.take(k) =~= s.take(k));
        assert('0' <= s[s.len() - 1]);
    } else {
        assert(s.take(k) =~= s);
    }
}

/// Parse a signed decimal integer, as `i64::from_str` does.
pub fn parse_i64(s: &str) -> (r: Option<i64>)
    ensures
        r == parsed_i64(s@),
{
    let n = s.unicode_len();
    let neg = n > 0 && s.get_char(0) == '-';
    let signed = n > 0 && (s.get_char(0) == '-' || s.get_char(0) == '+');
    let start: usize = if signed { 1 } else { 0 };
    let ghost body = if s@.len() > 0 && (s@[0] == '-' || s@[0] == '+') {
        s@.drop_first()
    } else {
        s@
    };
    assert(body =~= s@.skip(start as int));
    if start == n {
        return None;
    }
    let limit: u128 = if neg { 9223372036854775808u128 } else { 9223372036854775807u128 };
    let mut acc: u128 = 0;
    let mut i: usize = start;
    while i < n
        invariant
            start <= i <= n,
            n == s@.len(),
            body == s@.skip(start as int),
            acc as int == digits_value(body.take(i - start)),
            all_digits(body.take(i - start)),
            acc <= limit,
            limit == (if neg { 9223372036854775808u128 } else { 9223372036854775807u128 }),
            neg == (s@.len() > 0 && s@[0] == '-'),
            body == (if s@.len() > 0 && (s@[0] == '-' || s@[0] == '+') {
                s@.drop_first()
            } else {
                s@
            }),
            body.len() > 0,
        decreases n - i,
    {
        let c = s.get_char(i);
        assert(body.take(i + 1 - start).drop_last() =~= body.take(i - start));
        assert(body.take(i + 1 - start).last() == c);
        if c < '0' || c > '9' {
            proof {
                assert(body[i - start] == c);
                assert(!all_digits(body));
            }
            return None;
        }
        let d: u128 = (c as u32 - '0' as u32) as u128;
        let next = acc * 10 + d;
        assert forall|j: int| 0 <= j < body.take(i + 1 - start).len() implies '0' <= #[trigger] body.take(i + 1 - start)[j] && body.take(i + 1 - start)[j] <= '9' by {
            if j < i - start {
                assert(body.take(i + 1 - start)[j] == body.take(i - start)[j]);
            }
        }
        if next > limit {
            proof {
                if all_digits(body) {
                    lemma_prefix_value_grows(body, i + 1 - start);
                }
            }
            return None;
        }
        acc = next;
        i = i + 1;
    }
    assert(body.take(n - start) =~= body);
    if neg {
        if acc == 9223372036854775808u128 {
            Some(i64::MIN)
        } else {
            Some(-(acc as i64))
        }
    } else {
        Some(acc as i64)
    }
}

} // verus!
