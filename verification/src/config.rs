//! Configuration of the file-storage gear and its validation.

use vstd::prelude::*;
use vstd::string::*;

verus! {

/// One S3-compatible backend entry.
#[derive(Clone)]
pub struct S3BackendConfig {
    /// Backend id this entry registers under.
    pub id: String,
    /// HTTP(S) endpoint; `None` means AWS S3 for `region`.
    pub endpoint: Option<String>,
    pub region: String,
    pub bucket: String,
    /// Access key id; `None` takes it from the process environment.
    pub access_key_id: Option<String>,
    /// Secret access key; `None` takes it from the process environment.
    pub secret_access_key: Option<String>,
    /// Path-style addressing.
    pub path_style: bool,
}

/// Configuration for the `file-storage` gear.
#[derive(Clone)]
pub struct FileStorageConfig {
    /// Default TTL (seconds) of every signed URL minted.
    pub default_url_ttl_secs: u64,
    /// Hard ceiling (seconds) on the TTL of a signed URL.
    pub max_url_ttl_secs: u64,
    /// Public base URL of the data-plane sidecar.
    pub sidecar_base_url: String,
    /// Default page size for listings.
    pub default_page_size: u64,
    /// Maximum page size a caller may request.
    pub max_page_size: u64,
    /// Root directory of the `local-fs` backend.
    pub storage_root: String,
    /// Base64url-encoded seed of the URL-signing key.
    pub signing_key_seed: Option<String>,
    /// Refuse to start without `signing_key_seed`.
    pub require_signing_key_seed: bool,
    /// Window (seconds) for which an idempotency key is retained.
    pub idempotency_ttl_secs: u64,
    /// Grace period (seconds) before orphan reconciliation.
    pub orphan_grace_secs: u64,
    /// Interval (seconds) of the background cleanup sweep.
    pub sweep_interval_secs: u64,
    /// Run the background cleanup sweep.
    pub enable_background_sweep: bool,
    /// Register the non-durable `memory` backend.
    pub enable_in_memory_backend: bool,
    /// S3-compatible backends to register.
    pub s3_backends: Vec<S3BackendConfig>,
    /// Id of the default backend; `None` keeps `local-fs`.
    pub default_backend_id: Option<String>,
    /// Shared secret the finalize/report-part callbacks must carry.
    pub finalize_internal_secret: Option<String>,
    /// Refuse to start without `finalize_internal_secret`.
    pub require_finalize_internal_secret: bool,
}

/// Path-style addressing is the default: most non-AWS endpoints need it.
pub fn default_path_style() -> (r: bool)
    ensures
        r,
{
    true
}

/// 15 minutes: the short default issuance TTL.
pub fn default_default_url_ttl_secs() -> (r: u64)
    ensures
        r == 15 * 60,
{
    15 * 60
}

/// 7 days: the recommended maximum TTL of a signed URL.
pub fn default_max_url_ttl_secs() -> (r: u64)
    ensures
        r == 7 * 24 * 60 * 60,
{
    7 * 24 * 60 * 60
}

pub fn default_sidecar_base_url() -> (r: String)
    ensures
        r@ == "http://localhost:8087"@,
{
    String::from_str("http://localhost:8087")
}

pub fn default_page_size() -> (r: u64)
    ensures
        r == 50,
{
    50
}

pub fn default_max_page_size() -> (r: u64)
    ensures
        r == 1000,
{
    1000
}

pub fn default_storage_root() -> (r: String)
    ensures
        r@ == "./.file-storage-data"@,
{
    String::from_str("./.file-storage-data")
}

/// 24 hours.
pub fn default_idempotency_ttl_secs() -> (r: u64)
    ensures
        r == 86400,
{
    86400
}

/// 1 hour.
pub fn default_orphan_grace_secs() -> (r: u64)
    ensures
        r == 3600,
{
    3600
}

/// 1 hour.
pub fn default_sweep_interval_secs() -> (r: u64)
    ensures
        r == 3600,
{
    3600
}

/// The sweep is on unless a deployment turns it off.
pub fn default_enable_background_sweep() -> (r: bool)
    ensures
        r,
{
    true
}

/// A missing seed must not silently yield an ephemeral key.
pub fn default_require_signing_key_seed() -> (r: bool)
    ensures
        r,
{
    true
}

impl Default for FileStorageConfig {
    fn default() -> (r: FileStorageConfig)
        ensures
            r.default_url_ttl_secs == 15 * 60,
            r.max_url_ttl_secs == 7 * 24 * 60 * 60,
            r.sidecar_base_url@ == "http://localhost:8087"@,
            r.default_page_size == 50,
            r.max_page_size == 1000,
            r.storage_root@ == "./.file-storage-data"@,
            r.signing_key_seed is None,
            r.require_signing_key_seed,
            r.idempotency_ttl_secs == 86400,
            r.orphan_grace_secs == 3600,
            r.sweep_interval_secs == 3600,
            r.enable_background_sweep,
            !r.enable_in_memory_backend,
            r.s3_backends@.len() == 0,
            r.default_backend_id is None,
            r.finalize_internal_secret is None,
            !r.require_finalize_internal_secret,
    {
        FileStorageConfig {
            default_url_ttl_secs: default_default_url_ttl_secs(),
            max_url_ttl_secs: default_max_url_ttl_secs(),
            sidecar_base_url: default_sidecar_base_url(),
            default_page_size: default_page_size(),
            max_page_size: default_max_page_size(),
            storage_root: default_storage_root(),
            signing_key_seed: None,
            require_signing_key_seed: default_require_signing_key_seed(),
            idempotency_ttl_secs: default_idempotency_ttl_secs(),
            orphan_grace_secs: default_orphan_grace_secs(),
            sweep_interval_secs: default_sweep_interval_secs(),
            enable_background_sweep: default_enable_background_sweep(),
            enable_in_memory_backend: false,
            s3_backends: Vec::new(),
            default_backend_id: None,
            finalize_internal_secret: None,
            require_finalize_internal_secret: false,
        }
    }
}

/// A cross-field invariant of the configuration that does not hold.
#[derive(Debug, Clone, Copy, PartialEq, Eq, Structural)]
pub enum ConfigError {
    /// The sweep is enabled with a zero interval (a tight spin).
    ZeroSweepInterval,
    /// A signing key seed is required but none is configured.
    MissingSigningKeySeed,
    /// A finalize shared secret is required but none is configured.
    MissingFinalizeInternalSecret,
}

impl ConfigError {
    pub open spec fn spec_message(self) -> Seq<char> {
        match self {
            ConfigError::ZeroSweepInterval =>
                "invalid file-storage config: sweep_interval_secs must be > 0 when enable_background_sweep is true"@,
            ConfigError::MissingSigningKeySeed =>
                "invalid file-storage config: signing_key_seed is required (set require_signing_key_seed: false to allow an ephemeral per-boot key in dev)"@,
            ConfigError::MissingFinalizeInternalSecret =>
                "invalid file-storage config: finalize_internal_secret is required (set require_finalize_internal_secret: false to allow the token-only trust model)"@,
        }
    }

    /// The message reported for this error.
    pub fn message(&self) -> (r: &'static str)
        ensures
            r@ == self.spec_message(),
    {
        match self {
            ConfigError::ZeroSweepInterval =>
                "invalid file-storage config: sweep_interval_secs must be > 0 when enable_background_sweep is true",
            ConfigError::MissingSigningKeySeed =>
                "invalid file-storage config: signing_key_seed is required (set require_signing_key_seed: false to allow an ephemeral per-boot key in dev)",
            ConfigError::MissingFinalizeInternalSecret =>
                "invalid file-storage config: finalize_internal_secret is required (set require_finalize_internal_secret: false to allow the token-only trust model)",
        }
    }
}

impl FileStorageConfig {
    /// The first cross-field invariant the configuration breaks, if any.
    pub open spec fn spec_validate(self) -> Result<(), ConfigError> {
        if self.enable_background_sweep && self.sweep_interval_secs == 0 {
            Err(ConfigError::ZeroSweepInterval)
        } else if self.require_signing_key_seed && self.signing_key_seed is None {
            Err(ConfigError::MissingSigningKeySeed)
        } else if self.require_finalize_internal_secret && self.finalize_internal_secret is None {
            Err(ConfigError::MissingFinalizeInternalSecret)
        } else {
            Ok(())
        }
    }

    /// Validate the cross-field invariants, in order: a zero sweep interval
    /// with the sweep enabled, a required but missing signing key seed, a
    /// required but missing finalize secret.
    pub fn validate(&self) -> (r: Result<(), ConfigError>)
        ensures
            r == self.spec_validate(),
    {
        if self.enable_background_sweep && self.sweep_interval_secs == 0 {
            return Err(ConfigError::ZeroSweepInterval);
        }
        if self.require_signing_key_seed && self.signing_key_seed.is_none() {
            return Err(ConfigError::MissingSigningKeySeed);
        }
        if self.require_finalize_internal_secret && self.finalize_internal_secret.is_none() {
            return Err(ConfigError::MissingFinalizeInternalSecret);
        }
        Ok(())
    }
}

/// What a configuration dump shows of a secret: only whether one is
/// configured, never its value.
pub fn redact_secret(secret: &Option<String>) -> (r: Option<&'static str>)
    ensures
        (r is None) == (secret is None),
        r matches Some(t) ==> t@ == "<redacted>"@,
{
    match secret {
        Some(_) => Some("<redacted>"),
        None => None,
    }
}

} // verus!
