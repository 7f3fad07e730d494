//! Wiring decisions of the gear: which storage backends are registered,
//! and what start-up derives from the configuration before it touches
//! anything outside.

use vstd::prelude::*;
use crate::config::{ConfigError, FileStorageConfig};
use crate::error::{description_of, DomainError};
use crate::policy::contains_string;
use crate::text::str_eq;
use crate::service::{sat_i64, saturating_i64, service_config, ServiceConfig};
use crate::text::{trim, trimmed, url_safe_no_pad_decode, url_safe_no_pad_decoded};

verus! {

/// Id of the always-present local filesystem backend.
pub const LOCAL_FS_ID: &'static str = "local-fs";

/// Id of the optional non-durable in-memory backend.
pub const MEMORY_ID: &'static str = "memory";

/// Which backends the registry holds, and its default.
pub struct BackendRegistryPlan {
    /// Root directory of the always-present `local-fs` backend.
    pub local_root: String,
    /// `true` when the in-memory backend joins `local-fs`.
    pub with_memory: bool,
    /// Ids of the configured S3 backends, in configuration order.
    pub s3_ids: Vec<String>,
    /// Id of the default backend.
    pub default_id: String,
}

/// Ids of the backends a configuration registers, in registration order:
/// `local-fs`, then `memory` when enabled, then each S3 entry.
pub open spec fn registered_ids(with_memory: bool, s3_ids: Seq<Seq<char>>) -> Seq<Seq<char>> {
    (if with_memory {
        seq![LOCAL_FS_ID@, MEMORY_ID@]
    } else {
        seq![LOCAL_FS_ID@]
    }) + s3_ids
}

/// The ids of a configuration's S3 entries, in order.
pub open spec fn s3_ids_of(cfg: &FileStorageConfig) -> Seq<Seq<char>> {
    Seq::new(cfg.s3_backends@.len(), |i: int| cfg.s3_backends@[i].id@)
}

impl BackendRegistryPlan {
    /// Ids of the registered backends, in registration order.
    pub open spec fn ids(self) -> Seq<Seq<char>> {
        registered_ids(self.with_memory, self.s3_ids.deep_view())
    }
}

/// The backend id a configuration makes the default: `default_backend_id`
/// when set, else `local-fs`.
pub open spec fn chosen_default(cfg: &FileStorageConfig) -> Seq<char> {
    match cfg.default_backend_id {
        Some(d) => d@,
        None => LOCAL_FS_ID@,
    }
}

/// The registry a configuration describes: `local-fs` rooted at
/// `storage_root` is always present, `memory` joins when enabled, every S3
/// entry joins in order, and `default_backend_id` (else `local-fs`) is the
/// default. A default that names no registered backend is refused as an
/// unknown backend.
pub fn build_backend_registry(cfg: &FileStorageConfig) -> (r: Result<BackendRegistryPlan, DomainError>)
    ensures
        registered_ids(cfg.enable_in_memory_backend, s3_ids_of(cfg)).contains(chosen_default(cfg))
            ==> (r matches Ok(p) && p.local_root@ == cfg.storage_root@ && p.with_memory
            == cfg.enable_in_memory_backend && p.s3_ids.deep_view() == s3_ids_of(cfg)
            && p.default_id@ == chosen_default(cfg)),
        !registered_ids(cfg.enable_in_memory_backend, s3_ids_of(cfg)).contains(chosen_default(cfg))
            ==> (r matches Err(DomainError::UnknownBackend { backend_id }) && backend_id@
            == chosen_default(cfg)),
{
    let mut s3_ids: Vec<String> = Vec::new();
    let mut i: usize = 0;
    while i < cfg.s3_backends.len()
        invariant
            i <= cfg.s3_backends@.len(),
            s3_ids.deep_view() == s3_ids_of(cfg).take(i as int),
        decreases cfg.s3_backends@.len() - i,
    {
        let ghost before = s3_ids.deep_view();
        s3_ids.push(cfg.s3_backends[i].id.clone());
        assert(s3_ids.deep_view() =~= before.push(cfg.s3_backends@[i as int].id@));
        assert(s3_ids.deep_view() =~= s3_ids_of(cfg).take(i + 1));
        i = i + 1;
    }
    assert(s3_ids_of(cfg).take(cfg.s3_backends@.len() as int) =~= s3_ids_of(cfg));
    let default_id: String = match &cfg.default_backend_id {
        Some(d) => d.clone(),
        None => String::from_str(LOCAL_FS_ID),
    };
    let ghost ids = registered_ids(cfg.enable_in_memory_backend, s3_ids.deep_view());
    let mut known = str_eq(default_id.as_str(), LOCAL_FS_ID) || (cfg.enable_in_memory_backend
        && str_eq(default_id.as_str(), MEMORY_ID));
    proof {
        let head = if cfg.enable_in_memory_backend {
            seq![LOCAL_FS_ID@, MEMORY_ID@]
        } else {
            seq![LOCAL_FS_ID@]
        };
        assert(ids == head + s3_ids.deep_view());
        assert(ids[0] == LOCAL_FS_ID@);
        if cfg.enable_in_memory_backend {
            assert(ids[1] == MEMORY_ID@);
        }
        if known {
            if default_id@ == LOCAL_FS_ID@ {
                assert(ids.contains(default_id@));
            } else {
                assert(ids[1] == default_id@);
            }
        }
    }
    let contains = contains_string(&s3_ids, default_id.as_str());
    proof {
        let head_len: int = if cfg.enable_in_memory_backend { 2 } else { 1 };
        if contains {
            let k = choose|k: int| 0 <= k < s3_ids.deep_view().len() && s3_ids.deep_view()[k]
                == default_id@;
            assert(ids[head_len + k] == default_id@);
        }
        if ids.contains(default_id@) && !known {
            let k = choose|k: int| 0 <= k < ids.len() && ids[k] == default_id@;
            if k < head_len {
                if k == 0 {
                    assert(ids[0] == LOCAL_FS_ID@);
                } else {
                    assert(ids[1] == MEMORY_ID@);
                }
            } else {
                assert(s3_ids.deep_view()[k - head_len] == default_id@);
            }
        }
    }
    known = known || contains;
    if known {
        Ok(BackendRegistryPlan {
            local_root: cfg.storage_root.clone(),
            with_memory: cfg.enable_in_memory_backend,
            s3_ids,
            default_id,
        })
    } else {
        Err(DomainError::UnknownBackend { backend_id: default_id })
    }
}

/// Ceiling on the TTL of the URLs the signing key issues, in seconds:
/// the configured maximum, saturated to `i64::MAX`.
pub fn issuer_max_ttl(cfg: &FileStorageConfig) -> (r: i64)
    ensures
        r == sat_i64(cfg.max_url_ttl_secs),
{
    saturating_i64(cfg.max_url_ttl_secs)
}

/// The bytes of a key configured as unpadded URL-safe base64, surrounding
/// whitespace ignored; on a malformed value, the decoder's message.
pub fn decode_key(b64: &str) -> (r: Result<Vec<u8>, String>)
    ensures
        match r {
            Ok(v) => url_safe_no_pad_decoded(trimmed(b64@)) == Some(v@),
            Err(_) => url_safe_no_pad_decoded(trimmed(b64@)) is None,
        },
{
    url_safe_no_pad_decode(trim(b64).as_str())
}

/// Why start-up refused the configuration.
pub enum InitError {
    /// A cross-field invariant of the configuration does not hold.
    Config(ConfigError),
    /// The backend registry cannot be built.
    Registry(DomainError),
    /// The signing key seed is not unpadded URL-safe base64; the decoder's
    /// message.
    SigningKeySeed(String),
}

/// The message start-up fails with.
pub open spec fn init_error_message(e: InitError) -> Seq<char> {
    match e {
        InitError::Config(c) => c.spec_message(),
        InitError::Registry(d) => "backend registry: "@ + description_of(d),
        InitError::SigningKeySeed(m) => "invalid file-storage signing_key_seed: "@ + m@,
    }
}

impl InitError {
    pub fn message(&self) -> (r: String)
        ensures
            r@ == init_error_message(*self),
    {
        match self {
            InitError::Config(c) => String::from_str(c.message()),
            InitError::Registry(d) => String::from_str("backend registry: ").concat(
                d.describe().as_str(),
            ),
            InitError::SigningKeySeed(m) => String::from_str(
                "invalid file-storage signing_key_seed: ",
            ).concat(m.as_str()),
        }
    }
}

/// What start-up derives from a configuration before it touches anything
/// outside: the backend registry, the signing key seed (none means an
/// ephemeral key), the ceiling on URL lifetimes and the service settings.
pub struct InitPlan {
    pub registry: BackendRegistryPlan,
    pub signing_seed: Option<Vec<u8>>,
    pub issuer_max_ttl: i64,
    pub service: ServiceConfig,
}

/// The configuration's registry is buildable: its default names a
/// registered backend.
pub open spec fn default_registered(cfg: &FileStorageConfig) -> bool {
    registered_ids(cfg.enable_in_memory_backend, s3_ids_of(cfg)).contains(chosen_default(cfg))
}

/// Start-up's decisions, in the order they fail: the configuration's own
/// invariants, then the backend registry, then the signing key seed.
pub fn prepare_init(cfg: &FileStorageConfig) -> (r: Result<InitPlan, InitError>)
    ensures
        match cfg.spec_validate() {
            Err(c) => r matches Err(InitError::Config(c2)) && c2 == c,
            Ok(_) => if !default_registered(cfg) {
                r matches Err(InitError::Registry(DomainError::UnknownBackend { backend_id }))
                    && backend_id@ == chosen_default(cfg)
            } else if cfg.signing_key_seed matches Some(seed) && url_safe_no_pad_decoded(
                trimmed(seed@),
            ) is None {
                r matches Err(InitError::SigningKeySeed(_))
            } else {
                r matches Ok(p) && p.registry.local_root@ == cfg.storage_root@
                    && p.registry.with_memory == cfg.enable_in_memory_backend
                    && p.registry.s3_ids.deep_view() == s3_ids_of(cfg) && p.registry.default_id@
                    == chosen_default(cfg) && p.issuer_max_ttl == sat_i64(cfg.max_url_ttl_secs)
                    && p.service.default_url_ttl_secs == sat_i64(cfg.default_url_ttl_secs)
                    && p.service.sidecar_base_url@ == cfg.sidecar_base_url@
                    && p.service.default_page_size == cfg.default_page_size
                    && p.service.max_page_size == cfg.max_page_size
                    && p.service.idempotency_ttl_secs == cfg.idempotency_ttl_secs && match cfg.signing_key_seed {
                    Some(seed) => p.signing_seed matches Some(v) && url_safe_no_pad_decoded(
                        trimmed(seed@),
                    ) == Some(v@),
                    None => p.signing_seed is None,
                }
            },
        },
{
    if let Err(c) = cfg.validate() {
        return Err(InitError::Config(c));
    }
    let registry = match build_backend_registry(cfg) {
        Ok(p) => p,
        Err(e) => return Err(InitError::Registry(e)),
    };
    let signing_seed = match &cfg.signing_key_seed {
        Some(seed) => match decode_key(seed.as_str()) {
            Ok(v) => Some(v),
            Err(m) => return Err(InitError::SigningKeySeed(m)),
        },
        None => None,
    };
    Ok(InitPlan {
        registry,
        signing_seed,
        issuer_max_ttl: issuer_max_ttl(cfg),
        service: service_config(cfg),
    })
}

} // verus!
